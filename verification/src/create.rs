use vstd::prelude::*;

use crate::address::Address;
use crate::error::MarketError;
use crate::market::MarketAccount;
use crate::market::MAX_NAME_BYTES;
use crate::market::blank;
use crate::market::is_blank;
use crate::registry::RegistryAccount;
use crate::registry::MAX_MARKETS;
use crate::vault::VaultAccount;

verus! {

/// The resolved addresses and derivation nonces the runtime hands a
/// market-creation invocation.
#[derive(Debug)]
pub struct CreateMarket {
    /// The authenticated creator.
    pub authority: Address,
    /// Address derived for the new market from the creator and both team
    /// names.
    pub market_address: Address,
    /// Derivation nonce of the market address.
    pub market_bump: u8,
    /// Derivation nonce of the creator's registry address.
    pub registry_bump: u8,
}

/// The resolved addresses and derivation nonces the runtime hands a
/// creation invocation fed from an external sports feed.
#[derive(Debug)]
pub struct CreateMarketFromApi {
    /// The authenticated creator.
    pub authority: Address,
    /// Address derived for the new market from the creator and the match id.
    pub market_address: Address,
    /// Derivation nonce of the market address.
    pub market_bump: u8,
    /// Derivation nonce of the creator's registry address.
    pub registry_bump: u8,
}

/// The first rejection a creation's plain inputs earn, in checking order, or
/// `None` when they are all acceptable.
pub open spec fn create_inputs_error(
    now: i64,
    end_time: i64,
    team_a: Seq<u8>,
    team_b: Seq<u8>,
) -> Option<MarketError> {
    if end_time <= now {
        Some(MarketError::EndTimeMustBeInFuture)
    } else if blank(team_a) {
        Some(MarketError::EmptyTeamName)
    } else if blank(team_b) {
        Some(MarketError::EmptyTeamName)
    } else if team_a.len() > MAX_NAME_BYTES {
        Some(MarketError::TeamNameTooLong)
    } else if team_b.len() > MAX_NAME_BYTES {
        Some(MarketError::TeamNameTooLong)
    } else {
        None
    }
}

/// The first rejection the registry stage earns, in checking order: a
/// pre-existing registry must be owned by the creator, must have room, and
/// must not already list the new market's address. An absent registry is
/// created fresh and can refuse nothing.
pub open spec fn create_registry_error(
    registry: Option<RegistryAccount>,
    authority: Seq<u8>,
    market_address: Seq<u8>,
) -> Option<MarketError> {
    match registry {
        Some(reg) => {
            if reg.authority@ != authority {
                Some(MarketError::RegistryAuthorityMismatch)
            } else if reg.markets@.len() >= MAX_MARKETS {
                Some(MarketError::RegistryFull)
            } else if reg.spec_contains(market_address) {
                Some(MarketError::MarketAlreadyRegistered)
            } else {
                None
            }
        },
        None => None,
    }
}

/// The rejection a creation invocation earns, or `None` when it succeeds.
pub open spec fn create_market_error(
    now: i64,
    end_time: i64,
    team_a: Seq<u8>,
    team_b: Seq<u8>,
    registry: Option<RegistryAccount>,
    authority: Seq<u8>,
    market_address: Seq<u8>,
) -> Option<MarketError> {
    if create_inputs_error(now, end_time, team_a, team_b) is Some {
        create_inputs_error(now, end_time, team_a, team_b)
    } else {
        create_registry_error(registry, authority, market_address)
    }
}

/// What a successful creation leaves in the creator's registry: a fresh,
/// creator-owned record of one entry where none existed, else the old record
/// with the new market's address appended and nothing else changed.
pub open spec fn registry_after_create(
    before: Option<RegistryAccount>,
    after: RegistryAccount,
    authority: Seq<u8>,
    registry_bump: u8,
    market_address: Seq<u8>,
) -> bool {
    match before {
        Some(reg) => {
            &&& after.authority@ == reg.authority@
            &&& after.bump == reg.bump
            &&& after.markets_view() == reg.markets_view().push(market_address)
        },
        None => {
            &&& after.authority@ == authority
            &&& after.bump == registry_bump
            &&& after.markets_view() == seq![market_address]
        },
    }
}

/// The fields of a market record as a creation populates them: the supplied
/// metadata verbatim, `resolved` false, no winner, and both totals zero.
pub open spec fn market_at_creation(
    m: MarketAccount,
    authority: Seq<u8>,
    team_a: Seq<u8>,
    team_b: Seq<u8>,
    league: Seq<u8>,
    match_id: Seq<u8>,
    start_time: i64,
    end_time: i64,
    bump: u8,
) -> bool {
    &&& m.authority@ == authority
    &&& m.team_a@ == team_a
    &&& m.team_b@ == team_b
    &&& m.league@ == league
    &&& m.match_id@ == match_id
    &&& m.start_time == start_time
    &&& m.end_time == end_time
    &&& m.resolved == false
    &&& m.winner == 0
    &&& m.total_yes == 0
    &&& m.total_no == 0
    &&& m.bump == bump
}

/// Creates a market named by two team names, registers its address under the
/// creator's registry (creating the registry if this is the creator's first
/// market), and sets up its empty escrow.
///
/// All checks precede every record change: a rejected invocation leaves the
/// registry exactly as it was and yields no records at all.
pub fn create_market(
    ctx: &CreateMarket,
    registry: &mut Option<RegistryAccount>,
    team_a: Vec<u8>,
    team_b: Vec<u8>,
    end_time: i64,
    now: i64,
) -> (r: Result<(MarketAccount, VaultAccount), MarketError>)
    requires
        ctx.authority.wf(),
        ctx.market_address.wf(),
        (match *old(registry) {
            Some(reg) => reg.wf(),
            None => true,
        }),
    ensures
        (match r {
            Err(e) => {
                &&& Some(e) == create_market_error(
                    now,
                    end_time,
                    team_a@,
                    team_b@,
                    *old(registry),
                    ctx.authority@,
                    ctx.market_address@,
                )
                &&& *final(registry) == *old(registry)
            },
            Ok((market, vault)) => {
                &&& create_market_error(
                    now,
                    end_time,
                    team_a@,
                    team_b@,
                    *old(registry),
                    ctx.authority@,
                    ctx.market_address@,
                ) is None
                &&& market_at_creation(
                    market,
                    ctx.authority@,
                    team_a@,
                    team_b@,
                    Seq::<u8>::empty(),
                    Seq::<u8>::empty(),
                    0,
                    end_time,
                    ctx.market_bump,
                )
                &&& market.wf()
                &&& vault.lamports == 0
                &&& (match *final(registry) {
                    Some(after) => registry_after_create(
                        *old(registry),
                        after,
                        ctx.authority@,
                        ctx.registry_bump,
                        ctx.market_address@,
                    ) && after.wf(),
                    None => false,
                })
            },
        }),
{
    if end_time <= now {
        return Err(MarketError::EndTimeMustBeInFuture);
    }
    if is_blank(&team_a) {
        return Err(MarketError::EmptyTeamName);
    }
    if is_blank(&team_b) {
        return Err(MarketError::EmptyTeamName);
    }
    if team_a.len() > MAX_NAME_BYTES {
        return Err(MarketError::TeamNameTooLong);
    }
    if team_b.len() > MAX_NAME_BYTES {
        return Err(MarketError::TeamNameTooLong);
    }

    match registry {
        Some(reg) => {
            if !reg.authority.eq_addr(&ctx.authority) {
                return Err(MarketError::RegistryAuthorityMismatch);
            }
            if reg.markets.len() >= MAX_MARKETS {
                return Err(MarketError::RegistryFull);
            }
            if reg.contains_market(&ctx.market_address) {
                return Err(MarketError::MarketAlreadyRegistered);
            }
            let ghost before = *reg;
            reg.markets.push(ctx.market_address.dup());
            proof {
                assert(reg.markets_view() =~= before.markets_view().push(ctx.market_address@));
                assert forall|i: int, j: int|
                    0 <= i < j < reg.markets@.len() implies reg.markets@[i]@ != reg.markets@[j]@ by {
                    if j == reg.markets@.len() - 1 {
                        assert(!before.spec_contains(reg.markets@[j]@));
                        assert(before.markets@[i]@ == reg.markets@[i]@);
                    }
                }
            }
        },
        None => {
            let mut fresh = RegistryAccount::new(ctx.authority.dup(), ctx.registry_bump);
            fresh.markets.push(ctx.market_address.dup());
            proof {
                assert(fresh.markets_view() =~= seq![ctx.market_address@]);
            }
            *registry = Some(fresh);
        },
    }

    let market = MarketAccount {
        authority: ctx.authority.dup(),
        team_a,
        team_b,
        league: Vec::new(),
        match_id: Vec::new(),
        start_time: 0,
        end_time,
        resolved: false,
        winner: 0,
        total_yes: 0,
        total_no: 0,
        bump: ctx.market_bump,
    };
    proof {
        assert(market.league@ =~= Seq::<u8>::empty());
        assert(market.match_id@ =~= Seq::<u8>::empty());
    }
    let vault = VaultAccount::new();
    Ok((market, vault))
}

/// The rejection a feed-sourced creation's plain inputs earn: the common
/// checks, then the match id's length.
pub open spec fn create_api_inputs_error(
    now: i64,
    end_time: i64,
    team_a: Seq<u8>,
    team_b: Seq<u8>,
    match_id: Seq<u8>,
) -> Option<MarketError> {
    if create_inputs_error(now, end_time, team_a, team_b) is Some {
        create_inputs_error(now, end_time, team_a, team_b)
    } else if match_id.len() > MAX_NAME_BYTES {
        Some(MarketError::MatchIdTooLong)
    } else {
        None
    }
}

/// The rejection a feed-sourced creation invocation earns, or `None` when it
/// succeeds.
pub open spec fn create_market_from_api_error(
    now: i64,
    end_time: i64,
    team_a: Seq<u8>,
    team_b: Seq<u8>,
    match_id: Seq<u8>,
    registry: Option<RegistryAccount>,
    authority: Seq<u8>,
    market_address: Seq<u8>,
) -> Option<MarketError> {
    if create_api_inputs_error(now, end_time, team_a, team_b, match_id) is Some {
        create_api_inputs_error(now, end_time, team_a, team_b, match_id)
    } else {
        create_registry_error(registry, authority, market_address)
    }
}

/// Creates a market from an external sports feed's data — league, start
/// time and the feed's match id, which discriminates the market's address —
/// and registers it exactly as `create_market` does. No escrow is set up on
/// this path.
pub fn create_market_from_api(
    ctx: &CreateMarketFromApi,
    registry: &mut Option<RegistryAccount>,
    team_a: Vec<u8>,
    team_b: Vec<u8>,
    league: Vec<u8>,
    start_time: i64,
    end_time: i64,
    match_id: Vec<u8>,
    now: i64,
) -> (r: Result<MarketAccount, MarketError>)
    requires
        ctx.authority.wf(),
        ctx.market_address.wf(),
        (match *old(registry) {
            Some(reg) => reg.wf(),
            None => true,
        }),
    ensures
        (match r {
            Err(e) => {
                &&& Some(e) == create_market_from_api_error(
                    now,
                    end_time,
                    team_a@,
                    team_b@,
                    match_id@,
                    *old(registry),
                    ctx.authority@,
                    ctx.market_address@,
                )
                &&& *final(registry) == *old(registry)
            },
            Ok(market) => {
                &&& create_market_from_api_error(
                    now,
                    end_time,
                    team_a@,
                    team_b@,
                    match_id@,
                    *old(registry),
                    ctx.authority@,
                    ctx.market_address@,
                ) is None
                &&& market_at_creation(
                    market,
                    ctx.authority@,
                    team_a@,
                    team_b@,
                    league@,
                    match_id@,
                    start_time,
                    end_time,
                    ctx.market_bump,
                )
                &&& market.wf()
                &&& (match *final(registry) {
                    Some(after) => registry_after_create(
                        *old(registry),
                        after,
                        ctx.authority@,
                        ctx.registry_bump,
                        ctx.market_address@,
                    ) && after.wf(),
                    None => false,
                })
            },
        }),
{
    if end_time <= now {
        return Err(MarketError::EndTimeMustBeInFuture);
    }
    if is_blank(&team_a) {
        return Err(MarketError::EmptyTeamName);
    }
    if is_blank(&team_b) {
        return Err(MarketError::EmptyTeamName);
    }
    if team_a.len() > MAX_NAME_BYTES {
        return Err(MarketError::TeamNameTooLong);
    }
    if team_b.len() > MAX_NAME_BYTES {
        return Err(MarketError::TeamNameTooLong);
    }
    if match_id.len() > MAX_NAME_BYTES {
        return Err(MarketError::MatchIdTooLong);
    }

    match registry {
        Some(reg) => {
            if !reg.authority.eq_addr(&ctx.authority) {
                return Err(MarketError::RegistryAuthorityMismatch);
            }
            if reg.markets.len() >= MAX_MARKETS {
                return Err(MarketError::RegistryFull);
            }
            if reg.contains_market(&ctx.market_address) {
                return Err(MarketError::MarketAlreadyRegistered);
            }
            let ghost before = *reg;
            reg.markets.push(ctx.market_address.dup());
            proof {
                assert(reg.markets_view() =~= before.markets_view().push(ctx.market_address@));
                assert forall|i: int, j: int|
                    0 <= i < j < reg.markets@.len() implies reg.markets@[i]@ != reg.markets@[j]@ by {
                    if j == reg.markets@.len() - 1 {
                        assert(!before.spec_contains(reg.markets@[j]@));
                        assert(before.markets@[i]@ == reg.markets@[i]@);
                    }
                }
            }
        },
        None => {
            let mut fresh = RegistryAccount::new(ctx.authority.dup(), ctx.registry_bump);
            fresh.markets.push(ctx.market_address.dup());
            proof {
                assert(fresh.markets_view() =~= seq![ctx.market_address@]);
            }
            *registry = Some(fresh);
        },
    }

    let market = MarketAccount {
        authority: ctx.authority.dup(),
        team_a,
        team_b,
        league,
        match_id,
        start_time,
        end_time,
        resolved: false,
        winner: 0,
        total_yes: 0,
        total_no: 0,
        bump: ctx.market_bump,
    };
    Ok(market)
}

/// Duplicates are reliably rejected: a creation that presents a market
/// address its registry already lists — as re-deriving an already-used
/// discriminator tuple does, by `lemma_market_address_reproducible` — is
/// always refused, whichever check fires first, and the refusal leaves the
/// registry unchanged. Nothing is ever silently overwritten.
pub proof fn lemma_duplicate_creation_rejected(
    now: i64,
    end_time: i64,
    team_a: Seq<u8>,
    team_b: Seq<u8>,
    registry: RegistryAccount,
    authority: Seq<u8>,
    market_address: Seq<u8>,
)
    requires
        registry.spec_contains(market_address),
    ensures
        create_market_error(
            now,
            end_time,
            team_a,
            team_b,
            Some(registry),
            authority,
            market_address,
        ) is Some,
{
}

/// Racing first creations resolve cleanly: two identities that each create
/// their first market (no registry existed for either) each end with a
/// registry owned by themselves, so distinct identities always hold distinct
/// registries and neither ends up appended to the other's.
pub proof fn lemma_racing_first_creations_owned(
    first: RegistryAccount,
    first_authority: Seq<u8>,
    first_bump: u8,
    first_market: Seq<u8>,
    second: RegistryAccount,
    second_authority: Seq<u8>,
    second_bump: u8,
    second_market: Seq<u8>,
)
    requires
        registry_after_create(None, first, first_authority, first_bump, first_market),
        registry_after_create(None, second, second_authority, second_bump, second_market),
        first_authority != second_authority,
    ensures
        first.authority@ == first_authority,
        second.authority@ == second_authority,
        first.authority@ != second.authority@,
{
}

} // verus!
