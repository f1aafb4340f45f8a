use vstd::prelude::*;

use crate::address::Address;

verus! {

/// Longest byte string accepted as a team name, league or match id: the
/// limit an address seed imposes.
pub const MAX_NAME_BYTES: usize = 32;

/// Whether a byte is ASCII whitespace.
pub open spec fn is_space(b: u8) -> bool {
    b == 32 || b == 9 || b == 10 || b == 11 || b == 12 || b == 13
}

/// Whether a byte string holds nothing but whitespace, so that trimming it
/// leaves it empty.
pub open spec fn blank(s: Seq<u8>) -> bool {
    forall|i: int| 0 <= i < s.len() ==> is_space(s[i])
}

/// Whether a byte string is all whitespace.
pub fn is_blank(s: &Vec<u8>) -> (r: bool)
    ensures
        r == blank(s@),
{
    let mut i: usize = 0;
    while i < s.len()
        invariant
            0 <= i <= s@.len(),
            forall|j: int| 0 <= j < i ==> is_space(s@[j]),
        decreases s@.len() - i,
    {
        let b = s[i];
        if !(b == 32 || b == 9 || b == 10 || b == 11 || b == 12 || b == 13) {
            return false;
        }
        i += 1;
    }
    true
}

/// The durable record of one market: its creator, the event's metadata, the
/// staking deadline, the resolution state, and the two stake accumulators.
#[derive(Debug)]
pub struct MarketAccount {
    /// Creator and owner; immutable after creation.
    pub authority: Address,
    /// First team's name; non-blank and at most 32 bytes.
    pub team_a: Vec<u8>,
    /// Second team's name; non-blank and at most 32 bytes.
    pub team_b: Vec<u8>,
    /// League label; optional, empty allowed.
    pub league: Vec<u8>,
    /// Correlation key of an external sports feed; at most 32 bytes.
    pub match_id: Vec<u8>,
    /// When the event starts; informational only.
    pub start_time: i64,
    /// Deadline: no stake is accepted at or after this time.
    pub end_time: i64,
    /// Whether the market's outcome has been settled. No transition in this
    /// core sets it; settlement is a future component.
    pub resolved: bool,
    /// 0 while unresolved, 1 for team a, 2 for team b. Stored only; not yet
    /// wired to any transition.
    pub winner: u8,
    /// Sum of all accepted stakes on side 1.
    pub total_yes: u64,
    /// Sum of all accepted stakes on side 2.
    pub total_no: u64,
    /// Derivation nonce of this record's address.
    pub bump: u8,
}

impl MarketAccount {
    /// Every market record a creation transition can produce satisfies this.
    pub open spec fn wf(self) -> bool {
        &&& self.authority.wf()
        &&& !blank(self.team_a@)
        &&& !blank(self.team_b@)
        &&& self.team_a@.len() <= MAX_NAME_BYTES
        &&& self.team_b@.len() <= MAX_NAME_BYTES
        &&& self.match_id@.len() <= MAX_NAME_BYTES
        &&& self.winner <= 2
    }

    /// Whether a stake may still be accepted at time `now`: the market is
    /// unresolved and its deadline lies strictly in the future.
    pub open spec fn open_for_stakes(self, now: i64) -> bool {
        !self.resolved && now < self.end_time
    }
}

} // verus!
