use vstd::prelude::*;

verus! {

/// A 32-byte identity: an account address or a signer's public key.
///
/// The engine never derives or checks keys cryptographically; it only
/// compares a presented key with a stored one.
#[derive(Clone, Copy, Debug, PartialEq, Eq)]
pub struct Key {
    pub bytes: [u8; 32],
}

impl Key {
    /// Builds a key from its 32 bytes.
    pub fn new(bytes: [u8; 32]) -> (r: Key)
        ensures
            r.bytes == bytes,
    {
        Key { bytes }
    }

    /// The all-zero key, which no configured identity is expected to be.
    pub fn zero() -> (r: Key)
        ensures
            r.bytes@ == Seq::new(32, |i: int| 0u8),
    {
        let r = Key { bytes: [0u8; 32] };
        assert(r.bytes@ =~= Seq::new(32, |i: int| 0u8));
        r
    }

    /// Whether two keys are the same identity, byte for byte.
    pub fn equals(&self, other: &Key) -> (r: bool)
        ensures
            r == (*self == *other),
    {
        let mut i: usize = 0;
        while i < 32
            invariant
                0 <= i <= 32,
                forall|j: int| 0 <= j < i ==> self.bytes[j] == other.bytes[j],
            decreases 32 - i,
        {
            if self.bytes[i] != other.bytes[i] {
                return false;
            }
            i = i + 1;
        }
        assert(self.bytes =~= other.bytes);
        true
    }
}

/// Whether an optional key holds exactly the given key.
pub fn same_optional_key(a: &Option<Key>, b: &Key) -> (r: bool)
    ensures
        r == (*a == Some(*b)),
{
    match a {
        Some(k) => k.equals(b),
        None => false,
    }
}

} // verus!
