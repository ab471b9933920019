use vstd::prelude::*;

verus! {

/// An account or contract identity on the ledger.
///
/// The contracts only ever compare identities, so an identity is held as the
/// number that the host environment assigned to it.
#[derive(Clone, Copy, Debug, PartialEq, Eq, Structural)]
pub struct Address {
    pub id: u64,
}

impl Address {
    pub fn new(id: u64) -> (r: Address)
        ensures
            r.id == id,
    {
        Address { id }
    }
}

} // verus!
