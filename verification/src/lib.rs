//! Value types shared by the parts of an I2P router: the millisecond date and
//! the fixed-size private key buffer.

pub mod common;
