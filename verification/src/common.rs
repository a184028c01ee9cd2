//! The common data structures.

pub mod base64;
pub mod i2p_date;
pub mod private_key;
pub mod rfc3339;
