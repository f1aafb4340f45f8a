use vstd::prelude::*;

use crate::address::Address;
use crate::error::MarketError;
use crate::market::MarketAccount;
use crate::vault::VaultAccount;

verus! {

/// The resolved addresses the runtime hands a stake invocation.
#[derive(Debug)]
pub struct PlacePrediction {
    /// The authenticated staker, whose balance funds the stake.
    pub predictor: Address,
    /// Address of the market being staked on.
    pub market_address: Address,
}

/// The record of one accepted stake, handed to off-chain indexers. Consumers
/// depend on it for external accounting; it is part of the contract, not a
/// log line.
#[derive(Debug)]
pub struct PredictionPlaced {
    /// The market staked on.
    pub market: Address,
    /// The staking identity.
    pub predictor: Address,
    /// 1 for team a, 2 for team b.
    pub side: u8,
    /// The staked value.
    pub amount: u64,
}

/// The rejection a stake invocation earns, in checking order, or `None` when
/// it is accepted: the side must name a team, the amount must be positive,
/// the market must be unresolved and still open, and the side's total must
/// admit the amount without overflow — overflow is a hard rejection, never a
/// silent cap.
pub open spec fn stake_error(
    market: MarketAccount,
    now: i64,
    side: u8,
    amount: u64,
) -> Option<MarketError> {
    if side != 1 && side != 2 {
        Some(MarketError::InvalidSide)
    } else if amount == 0 {
        Some(MarketError::InvalidAmount)
    } else if market.resolved {
        Some(MarketError::MarketAlreadyResolved)
    } else if now >= market.end_time {
        Some(MarketError::MarketClosed)
    } else if side == 1 && market.total_yes + amount > u64::MAX {
        Some(MarketError::InvalidAmount)
    } else if side == 2 && market.total_no + amount > u64::MAX {
        Some(MarketError::InvalidAmount)
    } else {
        None
    }
}

/// The market after one accepted stake: the staked side's total grows by the
/// amount and every other field keeps its value.
pub open spec fn market_after_stake(market: MarketAccount, side: u8, amount: u64) -> MarketAccount {
    if side == 1 {
        MarketAccount { total_yes: (market.total_yes + amount) as u64, ..market }
    } else {
        MarketAccount { total_no: (market.total_no + amount) as u64, ..market }
    }
}

/// Accepts or rejects one stake. On acceptance the staked side's total and
/// the escrow's balance each grow by exactly `amount`, and the accepted
/// stake's event is returned for off-chain indexers. On rejection neither
/// the market nor the escrow changes at all.
///
/// The escrow-balance bound is a machine limit: the runtime's total supply
/// of native value keeps one record's balance within a 64-bit word.
pub fn place_prediction(
    ctx: &PlacePrediction,
    market: &mut MarketAccount,
    vault: &mut VaultAccount,
    side: u8,
    amount: u64,
    now: i64,
) -> (r: Result<PredictionPlaced, MarketError>)
    requires
        stake_error(*old(market), now, side, amount) is None ==> old(vault).lamports + amount
            <= u64::MAX,
    ensures
        (match r {
            Err(e) => {
                &&& Some(e) == stake_error(*old(market), now, side, amount)
                &&& *final(market) == *old(market)
                &&& *final(vault) == *old(vault)
            },
            Ok(event) => {
                &&& stake_error(*old(market), now, side, amount) is None
                &&& *final(market) == market_after_stake(*old(market), side, amount)
                &&& final(vault).lamports == old(vault).lamports + amount
                &&& event.market@ == ctx.market_address@
                &&& event.predictor@ == ctx.predictor@
                &&& event.side == side
                &&& event.amount == amount
            },
        }),
        // No stake is ever accepted once the market is resolved or its
        // deadline has been reached; such an invocation changes nothing.
        !old(market).open_for_stakes(now) ==> r is Err && *final(market) == *old(market)
            && *final(vault) == *old(vault),
{
    if side != 1 && side != 2 {
        return Err(MarketError::InvalidSide);
    }
    if amount == 0 {
        return Err(MarketError::InvalidAmount);
    }
    if market.resolved {
        return Err(MarketError::MarketAlreadyResolved);
    }
    if now >= market.end_time {
        return Err(MarketError::MarketClosed);
    }

    if side == 1 {
        match market.total_yes.checked_add(amount) {
            Some(total) => {
                market.total_yes = total;
            },
            None => {
                return Err(MarketError::InvalidAmount);
            },
        }
    } else {
        match market.total_no.checked_add(amount) {
            Some(total) => {
                market.total_no = total;
            },
            None => {
                return Err(MarketError::InvalidAmount);
            },
        }
    }
    vault.lamports = vault.lamports + amount;

    Ok(
        PredictionPlaced {
            market: ctx.market_address.dup(),
            predictor: ctx.predictor.dup(),
            side,
            amount,
        },
    )
}

/// The sum of the amounts staked on `side` in a stake sequence.
pub open spec fn side_sum(stakes: Seq<(u8, u64)>, side: u8) -> int
    decreases stakes.len(),
{
    if stakes.len() == 0 {
        0
    } else {
        side_sum(stakes.drop_last(), side) + (
        if stakes.last().0 == side {
            stakes.last().1 as int
        } else {
            0
        })
    }
}

/// The market after a sequence of stakes, applied in order.
pub open spec fn market_after_stakes(
    market: MarketAccount,
    stakes: Seq<(u8, u64)>,
) -> MarketAccount
    decreases stakes.len(),
{
    if stakes.len() == 0 {
        market
    } else {
        market_after_stake(
            market_after_stakes(market, stakes.drop_last()),
            stakes.last().0,
            stakes.last().1,
        )
    }
}

/// Whether every stake in the sequence is accepted in the state the earlier
/// ones left behind.
pub open spec fn stakes_all_accepted(
    market: MarketAccount,
    now: i64,
    stakes: Seq<(u8, u64)>,
) -> bool
    decreases stakes.len(),
{
    if stakes.len() == 0 {
        true
    } else {
        &&& stakes_all_accepted(market, now, stakes.drop_last())
        &&& stake_error(
            market_after_stakes(market, stakes.drop_last()),
            now,
            stakes.last().0,
            stakes.last().1,
        ) is None
    }
}

/// Exact accounting: after any sequence of accepted stakes on a market whose
/// totals start at zero, `total_yes` is exactly the sum of the accepted
/// side-1 amounts and `total_no` exactly the sum of the accepted side-2
/// amounts — no saturation, no silent cap, since acceptance already rules
/// overflow out.
pub proof fn lemma_totals_are_stake_sums(market: MarketAccount, now: i64, stakes: Seq<(u8, u64)>)
    requires
        market.total_yes == 0,
        market.total_no == 0,
        stakes_all_accepted(market, now, stakes),
    ensures
        market_after_stakes(market, stakes).total_yes == side_sum(stakes, 1),
        market_after_stakes(market, stakes).total_no == side_sum(stakes, 2),
    decreases stakes.len(),
{
    if stakes.len() > 0 {
        lemma_totals_are_stake_sums(market, now, stakes.drop_last());
    }
}

/// The value staked in a stake sequence, over both sides.
pub open spec fn amount_sum(stakes: Seq<(u8, u64)>) -> int
    decreases stakes.len(),
{
    if stakes.len() == 0 {
        0
    } else {
        amount_sum(stakes.drop_last()) + stakes.last().1 as int
    }
}

/// Conservation of staked value: every accepted stake names side 1 or side
/// 2, so after any sequence of accepted stakes the two totals together
/// account for exactly the value staked — which, by `place_prediction`'s
/// contract, is exactly what each acceptance moved into the escrow.
pub proof fn lemma_totals_cover_staked_value(market: MarketAccount, now: i64, stakes: Seq<(u8, u64)>)
    requires
        market.total_yes == 0,
        market.total_no == 0,
        stakes_all_accepted(market, now, stakes),
    ensures
        market_after_stakes(market, stakes).total_yes + market_after_stakes(market, stakes).total_no
            == amount_sum(stakes),
    decreases stakes.len(),
{
    if stakes.len() > 0 {
        lemma_totals_cover_staked_value(market, now, stakes.drop_last());
    }
}

} // verus!
