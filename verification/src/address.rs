//! Identities of the parties that take part in a game.

use vstd::prelude::*;

verus! {

/// The identity of a party: an opaque string of bytes.
///
/// The arbiter never looks inside an identity. It stores identities and
/// compares them: two identities are the same party exactly when their bytes
/// are equal.
#[derive(Debug)]
pub struct Address {
    key: Vec<u8>,
}

impl View for Address {
    type V = Seq<u8>;

    closed spec fn view(&self) -> Seq<u8> {
        self.key@
    }
}

impl Address {
    /// The identity whose bytes are `key`.
    pub fn from_bytes(key: Vec<u8>) -> (a: Address)
        ensures
            a@ == key@,
    {
        Address { key }
    }

    /// The bytes of the identity.
    pub fn to_bytes(&self) -> (key: Vec<u8>)
        ensures
            key@ == self@,
    {
        self.key.clone()
    }
}

impl Clone for Address {
    fn clone(&self) -> (a: Address)
        ensures
            a@ == self@,
    {
        Address { key: self.key.clone() }
    }
}

impl PartialEq for Address {
    fn eq(&self, other: &Address) -> (same: bool) {
        let same = self.key == other.key;
        proof {
            if same {
                assert(self.key@ =~= other.key@);
            }
        }
        same
    }
}

impl Eq for Address {

}

impl vstd::std_specs::cmp::PartialEqSpecImpl for Address {
    open spec fn obeys_eq_spec() -> bool {
        true
    }

    open spec fn eq_spec(&self, other: &Address) -> bool {
        self@ == other@
    }
}

} // verus!
