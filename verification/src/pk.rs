//! Caller identity, stored as its raw principal bytes.

use vstd::prelude::*;

verus! {

/// An identity key: the raw bytes of a caller's principal.  Keys are compared
/// byte for byte; the byte encoding itself is opaque to the ledger.
pub struct Pk(pub Vec<u8>);

impl View for Pk {
    type V = Seq<u8>;

    open spec fn view(&self) -> Seq<u8> {
        self.0@
    }
}

impl Clone for Pk {
    fn clone(&self) -> (r: Self)
        ensures
            r@ == self@,
    {
        let bytes = self.0.clone();
        proof {
            assert(bytes@ =~= self.0@);
        }
        Pk(bytes)
    }
}

impl Pk {
    /// Byte-for-byte equality of two identity keys.
    pub fn eq_pk(&self, other: &Pk) -> (r: bool)
        ensures
            r <==> self@ == other@,
    {
        if self.0.len() != other.0.len() {
            proof {
                assert(self@ != other@) by {
                    assert(self@.len() != other@.len());
                }
            }
            return false;
        }
        let n = self.0.len();
        let mut i: usize = 0;
        while i < n
            invariant
                n == self.0.len(),
                n == other.0.len(),
                0 <= i <= n,
                forall|j: int| 0 <= j < i ==> self@[j] == other@[j],
            decreases n - i,
        {
            if self.0[i] != other.0[i] {
                return false;
            }
            i += 1;
        }
        proof {
            assert(self@ =~= other@);
        }
        true
    }
}

} // verus!
