use vstd::prelude::*;

use crate::address::Address;
use crate::address::ADDRESS_BYTES;

verus! {

/// Most market addresses one authority's registry can hold.
pub const MAX_MARKETS: usize = 100;

/// The durable, per-authority index of created markets: a capacity-bounded,
/// append-only list of market addresses with no duplicates.
#[derive(Debug)]
pub struct RegistryAccount {
    /// Owner; set once, on the authority's first creation, never changed.
    pub authority: Address,
    /// Addresses of the markets this authority created, in creation order.
    pub markets: Vec<Address>,
    /// Derivation nonce of this record's address.
    pub bump: u8,
}

impl RegistryAccount {
    /// The registered market addresses as byte strings, in order.
    pub open spec fn markets_view(self) -> Seq<Seq<u8>> {
        Seq::new(self.markets@.len(), |i: int| self.markets@[i]@)
    }

    /// The registry's invariant: owner well formed, at most 100 entries,
    /// every entry a well-formed address, and no address listed twice.
    pub open spec fn wf(self) -> bool {
        &&& self.authority.wf()
        &&& self.markets@.len() <= MAX_MARKETS
        &&& forall|i: int| 0 <= i < self.markets@.len() ==> (#[trigger] self.markets@[i]).wf()
        &&& forall|i: int, j: int|
            0 <= i < j < self.markets@.len() ==> self.markets@[i]@ != self.markets@[j]@
    }

    /// Whether `addr` is already registered.
    pub open spec fn spec_contains(self, addr: Seq<u8>) -> bool {
        exists|i: int| 0 <= i < self.markets@.len() && self.markets@[i]@ == addr
    }

    /// A fresh, empty registry owned by `authority`.
    pub fn new(authority: Address, bump: u8) -> (r: RegistryAccount)
        requires
            authority.wf(),
        ensures
            r.wf(),
            r.authority@ == authority@,
            r.markets@.len() == 0,
            r.bump == bump,
    {
        RegistryAccount { authority, markets: Vec::new(), bump }
    }

    /// Whether `addr` is already registered.
    pub fn contains_market(&self, addr: &Address) -> (r: bool)
        ensures
            r == self.spec_contains(addr@),
    {
        let mut i: usize = 0;
        while i < self.markets.len()
            invariant
                0 <= i <= self.markets@.len(),
                forall|j: int| 0 <= j < i ==> self.markets@[j]@ != addr@,
            decreases self.markets@.len() - i,
        {
            if self.markets[i].eq_addr(addr) {
                return true;
            }
            i += 1;
        }
        false
    }

    /// Decides the invariant at run time, for a record read back from
    /// storage rather than produced by a transition of this core.
    pub fn check_wf(&self) -> (r: bool)
        ensures
            r == self.wf(),
    {
        if self.authority.bytes.len() != ADDRESS_BYTES {
            return false;
        }
        if self.markets.len() > MAX_MARKETS {
            return false;
        }
        let mut i: usize = 0;
        while i < self.markets.len()
            invariant
                0 <= i <= self.markets@.len(),
                forall|k: int| 0 <= k < i ==> (#[trigger] self.markets@[k]).wf(),
                forall|k: int, l: int|
                    0 <= k < l < i ==> self.markets@[k]@ != self.markets@[l]@,
            decreases self.markets@.len() - i,
        {
            if self.markets[i].bytes.len() != ADDRESS_BYTES {
                return false;
            }
            let mut j: usize = 0;
            while j < i
                invariant
                    0 <= j <= i < self.markets@.len(),
                    forall|k: int| 0 <= k < j ==> self.markets@[k]@ != self.markets@[i as int]@,
                decreases i - j,
            {
                if self.markets[j].eq_addr(&self.markets[i]) {
                    return false;
                }
                j += 1;
            }
            i += 1;
        }
        true
    }
}

} // verus!
