//! Caller identities.
//!
//! A [`Principal`] is the authenticated identity attributed to a call. The
//! registry treats it as an opaque byte string: the only question it ever
//! asks of one is whether two are the same.

use vstd::prelude::*;

verus! {

/// An opaque caller identity, carried as a byte string.
#[derive(Debug)]
pub struct Principal {
    bytes: Vec<u8>,
}

impl View for Principal {
    type V = Seq<u8>;

    closed spec fn view(&self) -> Seq<u8> {
        self.bytes@
    }
}

impl Principal {
    /// Builds an identity from its raw bytes.
    pub fn new(bytes: Vec<u8>) -> (p: Principal)
        ensures
            p@ == bytes@,
    {
        Principal { bytes }
    }

    /// The raw bytes of this identity.
    pub fn as_bytes(&self) -> (b: &Vec<u8>)
        ensures
            b@ == self@,
    {
        &self.bytes
    }

    /// Whether two identities are the same.
    pub fn equals(&self, other: &Principal) -> (r: bool)
        ensures
            r == (self@ == other@),
    {
        let r = self.bytes == other.bytes;
        proof {
            if r {
                assert(self.bytes@ =~= other.bytes@);
            }
        }
        r
    }
}

impl Clone for Principal {
    /// The copy carries the same bytes.
    fn clone(&self) -> (p: Self)
        ensures
            p@ == self@,
    {
        Principal { bytes: self.bytes.clone() }
    }
}

} // verus!
