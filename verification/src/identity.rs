//! Caller identities, compared only for equality.

use vstd::prelude::*;

verus! {

/// The authenticated principal on whose behalf an operation executes.
///
/// The hosting environment authenticates callers and supplies one identity
/// per call. The registry never inspects an identity beyond comparing it with
/// another, so an identity is an opaque sequence of bytes; whether those
/// bytes denote a well-formed principal is the host's concern.
pub struct Identity {
    pub bytes: Vec<u8>,
}

impl View for Identity {
    type V = Seq<u8>;

    open spec fn view(&self) -> Seq<u8> {
        self.bytes@
    }
}

impl Identity {
    /// Wraps the raw bytes with which the host represents a principal.
    pub fn from_bytes(bytes: Vec<u8>) -> (r: Identity)
        ensures
            r@ == bytes@,
    {
        Identity { bytes }
    }
}

impl Clone for Identity {
    fn clone(&self) -> (r: Identity)
        ensures
            r@ == self@,
    {
        let r = Identity { bytes: self.bytes.clone() };
        proof {
            assert(r.bytes@ =~= self.bytes@);
        }
        r
    }
}

impl PartialEq for Identity {
    fn eq(&self, other: &Identity) -> (r: bool) {
        let r = self.bytes == other.bytes;
        proof {
            if r {
                assert(self.bytes@ =~= other.bytes@);
            } else {
                if self@ == other@ {
                    assert(self.bytes@.len() == other.bytes@.len());
                    assert(forall|i: int| 0 <= i < self.bytes@.len()
                        ==> self.bytes@[i] == other.bytes@[i]);
                }
            }
        }
        r
    }
}

impl Eq for Identity {}

impl vstd::std_specs::cmp::PartialEqSpecImpl for Identity {
    open spec fn obeys_eq_spec() -> bool {
        true
    }

    open spec fn eq_spec(&self, other: &Identity) -> bool {
        self@ == other@
    }
}

} // verus!
