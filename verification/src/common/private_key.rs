//! A private key: a buffer of exactly 256 bytes.

use crate::common::base64::{encode_unpadded, is_base64_char, unpadded_base64};
use vstd::prelude::*;
use vstd::std_specs::cmp::PartialEqSpec;
use vstd::std_specs::convert::FromSpecImpl;

verus! {

/// The number of bytes that a private key holds.
pub const I2P_PRIVATE_KEY_LENGTH: usize = 256;

/// What a byte string of at most [`I2P_PRIVATE_KEY_LENGTH`] bytes becomes when
/// it is read as a big-endian number of full width: the bytes stand at the
/// end, and zeros fill the places before them.
pub open spec fn right_aligned(bytes: Seq<u8>) -> Seq<u8>
    recommends
        bytes.len() <= I2P_PRIVATE_KEY_LENGTH,
{
    Seq::new((I2P_PRIVATE_KEY_LENGTH - bytes.len()) as nat, |i: int| 0u8) + bytes
}

/// 256 bytes of key material. Any pattern of bytes is a key.
#[derive(Copy, Eq)]
pub struct PrivateKey {
    data: [u8; I2P_PRIVATE_KEY_LENGTH],
}

impl View for PrivateKey {
    type V = Seq<u8>;

    /// The bytes of the key, first byte first.
    closed spec fn view(&self) -> Seq<u8> {
        self.data@
    }
}

impl PrivateKey {
    /// The key that holds `data`, for use in contracts.
    pub closed spec fn of_bytes(data: [u8; I2P_PRIVATE_KEY_LENGTH]) -> PrivateKey {
        PrivateKey { data: data }
    }

    /// A key that holds `data` as it is.
    pub fn new(data: [u8; I2P_PRIVATE_KEY_LENGTH]) -> (key: PrivateKey)
        ensures
            key == PrivateKey::of_bytes(data),
            key@ == data@,
    {
        PrivateKey { data: data }
    }

    /// The number of bytes in the key, which is the same for every key.
    pub fn len(&self) -> (n: usize)
        ensures
            n == I2P_PRIVATE_KEY_LENGTH,
            n == self@.len(),
    {
        self.data.len()
    }

    /// A key from at most [`I2P_PRIVATE_KEY_LENGTH`] bytes, which are put at
    /// the end of the buffer behind zeros. A longer slice gives no key.
    pub fn from_slice(slice: &[u8]) -> (key: Option<PrivateKey>)
        ensures
            match key {
                Some(k) => slice@.len() <= I2P_PRIVATE_KEY_LENGTH && k@ == right_aligned(slice@),
                None => slice@.len() > I2P_PRIVATE_KEY_LENGTH,
            },
    {
        if slice.len() <= I2P_PRIVATE_KEY_LENGTH {
            let mut key_bytes = [0x00u8;I2P_PRIVATE_KEY_LENGTH];
            let count: usize = slice.len();
            let offset: usize = I2P_PRIVATE_KEY_LENGTH - count;
            for i in 0..count
                invariant
                    count == slice@.len(),
                    offset + count == I2P_PRIVATE_KEY_LENGTH,
                    forall|j: int| 0 <= j < offset ==> key_bytes@[j] == 0u8,
                    forall|j: int| 0 <= j < i ==> key_bytes@[offset + j] == slice@[j],
            {
                key_bytes[i + offset] = slice[i];
            }
            assert(key_bytes@ =~= right_aligned(slice@));
            Some(PrivateKey::new(key_bytes))
        } else {
            None
        }
    }

    /// The bytes of the key.
    pub fn as_slice(&self) -> (bytes: &[u8])
        ensures
            bytes@ == self@,
    {
        self.data.as_slice()
    }

    /// The key as text: its 256 bytes in base64 with the standard alphabet, on
    /// one line and without padding.
    pub fn to_base64(&self) -> (text: String)
        ensures
            text@ == unpadded_base64(self@),
            text@.len() == 342,
            forall|i: int| 0 <= i < text@.len() ==> is_base64_char(#[trigger] text@[i]),
    {
        encode_unpadded(self.as_slice())
    }
}

impl PrivateKey {
    /// A key is its 256 bytes and nothing else: two keys with the same bytes
    /// are the same key.
    pub proof fn lemma_bytes_determine_key(a: PrivateKey, b: PrivateKey)
        ensures
            a@.len() == I2P_PRIVATE_KEY_LENGTH,
            a@ == b@ <==> a == b,
    {
        if a@ == b@ {
            assert(a.data =~= b.data);
        }
    }

    /// The key of an array holds the bytes of the array.
    pub proof fn lemma_of_bytes(data: [u8; I2P_PRIVATE_KEY_LENGTH])
        ensures
            PrivateKey::of_bytes(data)@ == data@,
    {
    }

    /// Two keys made from byte strings of one length are equal exactly when
    /// the byte strings are. (Byte strings of different lengths can give one
    /// key: zeros at the front of the longer one are not told from padding.)
    pub proof fn lemma_same_length_inputs(
        a: Seq<u8>,
        b: Seq<u8>,
        key_a: PrivateKey,
        key_b: PrivateKey,
    )
        requires
            a.len() == b.len(),
            a.len() <= I2P_PRIVATE_KEY_LENGTH,
            key_a@ == right_aligned(a),
            key_b@ == right_aligned(b),
        ensures
            key_a.eq_spec(&key_b) <==> a == b,
            key_a == key_b <==> a == b,
    {
        Self::lemma_bytes_determine_key(key_a, key_b);
        if key_a@ == key_b@ {
            let offset = I2P_PRIVATE_KEY_LENGTH - a.len();
            assert forall|i: int| 0 <= i < a.len() implies a[i] == b[i] by {
                assert(right_aligned(a)[offset + i] == a[i]);
                assert(right_aligned(b)[offset + i] == b[i]);
            }
            assert(a =~= b);
        }
    }

    /// Changing one byte of the input changes that byte of the key, and so
    /// gives a key that is not equal to the first.
    pub proof fn lemma_changed_byte(
        a: Seq<u8>,
        at: int,
        byte: u8,
        key: PrivateKey,
        changed: PrivateKey,
    )
        requires
            a.len() <= I2P_PRIVATE_KEY_LENGTH,
            0 <= at < a.len(),
            byte != a[at],
            key@ == right_aligned(a),
            changed@ == right_aligned(a.update(at, byte)),
        ensures
            changed@ == key@.update(I2P_PRIVATE_KEY_LENGTH - a.len() + at, byte),
            !key.eq_spec(&changed),
            key != changed,
    {
        let offset = I2P_PRIVATE_KEY_LENGTH - a.len();
        assert(changed@ =~= key@.update(offset + at, byte));
        assert(key@[offset + at] == a[at]);
        assert(changed@[offset + at] == byte);
    }
}

impl Default for PrivateKey {
    /// The key of 256 zero bytes.
    fn default() -> (key: PrivateKey)
        ensures
            key@ == Seq::new(I2P_PRIVATE_KEY_LENGTH as nat, |i: int| 0u8),
    {
        let key = PrivateKey { data: [0x00u8;I2P_PRIVATE_KEY_LENGTH] };
        assert(key@ =~= Seq::new(I2P_PRIVATE_KEY_LENGTH as nat, |i: int| 0u8));
        key
    }
}

impl From<[u8; I2P_PRIVATE_KEY_LENGTH]> for PrivateKey {
    /// The key that holds `data` as it is.
    fn from(data: [u8; I2P_PRIVATE_KEY_LENGTH]) -> (key: PrivateKey)
        ensures
            key@ == data@,
    {
        PrivateKey::new(data)
    }
}

impl FromSpecImpl<[u8; I2P_PRIVATE_KEY_LENGTH]> for PrivateKey {
    open spec fn obeys_from_spec() -> bool {
        true
    }

    open spec fn from_spec(data: [u8; I2P_PRIVATE_KEY_LENGTH]) -> PrivateKey {
        PrivateKey::of_bytes(data)
    }
}

impl<'a> From<&'a [u8; I2P_PRIVATE_KEY_LENGTH]> for PrivateKey {
    /// The key that holds a copy of `data`.
    fn from(data: &'a [u8; I2P_PRIVATE_KEY_LENGTH]) -> (key: PrivateKey)
        ensures
            key@ == data@,
    {
        let mut cloned_data = [0x00u8;I2P_PRIVATE_KEY_LENGTH];
        let count: usize = data.len();
        for i in 0..count
            invariant
                count == I2P_PRIVATE_KEY_LENGTH,
                forall|j: int| 0 <= j < i ==> cloned_data@[j] == data@[j],
        {
            cloned_data[i] = data[i];
        }
        assert(cloned_data =~= *data);
        PrivateKey::new(cloned_data)
    }
}

impl<'a> FromSpecImpl<&'a [u8; I2P_PRIVATE_KEY_LENGTH]> for PrivateKey {
    open spec fn obeys_from_spec() -> bool {
        true
    }

    open spec fn from_spec(data: &'a [u8; I2P_PRIVATE_KEY_LENGTH]) -> PrivateKey {
        PrivateKey::of_bytes(*data)
    }
}

impl AsRef<[u8]> for PrivateKey {
    fn as_ref(&self) -> (bytes: &[u8])
        ensures
            bytes@ == self@,
    {
        self.as_slice()
    }
}

impl Clone for PrivateKey {
    /// A key with the same bytes, copied one by one.
    fn clone(&self) -> (copy: PrivateKey)
        ensures
            copy@ == self@,
            copy == *self,
    {
        let mut cloned_array = [0x00u8;I2P_PRIVATE_KEY_LENGTH];
        let count: usize = cloned_array.len();
        for i in 0..count
            invariant
                count == I2P_PRIVATE_KEY_LENGTH,
                forall|j: int| 0 <= j < i ==> cloned_array@[j] == self.data@[j],
        {
            cloned_array[i] = self.data[i];
        }
        assert(cloned_array =~= self.data);
        PrivateKey::new(cloned_array)
    }
}

impl PartialEq for PrivateKey {
    /// Compares the two keys byte by byte.
    fn eq(&self, other: &PrivateKey) -> (equal: bool) {
        let count: usize = self.len();
        for i in 0..count
            invariant
                count == I2P_PRIVATE_KEY_LENGTH,
                forall|j: int| 0 <= j < i ==> self.data@[j] == other.data@[j],
        {
            if self.data[i] != other.data[i] {
                return false;
            }
        }
        assert(self.data@ =~= other.data@);
        true
    }
}

impl vstd::std_specs::cmp::PartialEqSpecImpl for PrivateKey {
    open spec fn obeys_eq_spec() -> bool {
        true
    }

    /// Two keys are equal when they hold the same bytes.
    open spec fn eq_spec(&self, other: &PrivateKey) -> bool {
        self@ == other@
    }
}

} // verus!
