use vstd::prelude::*;

verus! {

/// The escrow record of one market: it holds accumulated native value and
/// nothing else. Created empty at market creation; every accepted stake's
/// value is transferred into it; never debited within this core (payout is a
/// future component).
#[derive(Debug)]
pub struct VaultAccount {
    /// Accumulated native value, in the runtime's smallest unit.
    pub lamports: u64,
}

impl VaultAccount {
    /// A fresh, empty escrow.
    pub fn new() -> (r: VaultAccount)
        ensures
            r.lamports == 0,
    {
        VaultAccount { lamports: 0 }
    }
}

} // verus!
