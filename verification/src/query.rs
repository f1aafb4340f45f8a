use vstd::prelude::*;

use crate::address::Address;
use crate::error::MarketError;
use crate::pda::derive_registry_address;
use crate::pda::registry_pda;

verus! {

/// The identities a registry lookup presents: the caller and the registry
/// record it claims as its own.
#[derive(Debug)]
pub struct GetMarketsForAuthority {
    /// The authenticated caller.
    pub authority: Address,
    /// Address of the registry record the caller supplied.
    pub registry_address: Address,
}

/// Validates that the supplied registry record is the caller's own, by
/// deriving the caller's registry address and comparing. Callers then read
/// the registry directly at its deterministic address; no data flows back
/// through this operation.
pub fn get_markets_for_authority(ctx: &GetMarketsForAuthority, program_id: &Address) -> (r:
    Result<(), MarketError>)
    requires
        program_id.wf(),
    ensures
        (r is Ok <==> (match registry_pda(program_id@, ctx.authority@) {
            Some(p) => p.0 == ctx.registry_address@,
            None => false,
        })),
        r is Err ==> r == Err::<(), MarketError>(MarketError::RegistryAuthorityMismatch),
{
    match derive_registry_address(program_id, &ctx.authority) {
        Some((derived, _bump)) => {
            if derived.eq_addr(&ctx.registry_address) {
                Ok(())
            } else {
                Err(MarketError::RegistryAuthorityMismatch)
            }
        },
        None => Err(MarketError::RegistryAuthorityMismatch),
    }
}

} // verus!
