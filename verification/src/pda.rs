use vstd::prelude::*;

use crate::address::Address;

verus! {

/// The address and bump that the runtime's program-derived-address search
/// yields for a seed list and a program id, or `None` in the statistically
/// improbable event that no bump works. The search is a pure function of its
/// arguments; its value (a chain of hashes and curve checks) is not restated
/// here.
pub uninterp spec fn pda_of(seeds: Seq<Seq<u8>>, program_id: Seq<u8>) -> Option<(Seq<u8>, u8)>;

/// The byte strings of a list of seed vectors.
pub open spec fn seeds_view(seeds: Seq<Vec<u8>>) -> Seq<Seq<u8>> {
    Seq::new(seeds.len(), |i: int| seeds[i]@)
}

/// How a derivation result delivered as owned values relates to the
/// mathematical one.
pub open spec fn derivation_matches(r: Option<(Address, u8)>, p: Option<(Seq<u8>, u8)>) -> bool {
    match (r, p) {
        (Some(a), Some(q)) => a.0@ == q.0 && a.0.wf() && a.1 == q.1,
        (None, None) => true,
        _ => false,
    }
}

/// Relies on `Pubkey::try_find_program_address` (anchor_lang's re-export of
/// the runtime address type): the result depends on the seeds and the program
/// id alone, a returned address is 32 bytes, and over-long or over-many seeds
/// never panic but end in `None`.
#[verifier::external_body]
fn find_pda(seeds: &Vec<Vec<u8>>, program_id: &Address) -> (r: Option<(Address, u8)>)
    requires
        program_id.wf(),
    ensures
        derivation_matches(r, pda_of(seeds_view(seeds@), program_id@)),
{
    let refs: Vec<&[u8]> = seeds.iter().map(|s| s.as_slice()).collect();
    let mut id_bytes = [0u8; 32];
    id_bytes.copy_from_slice(program_id.bytes.as_slice());
    let pid = anchor_lang::prelude::Pubkey::new_from_array(id_bytes);
    anchor_lang::prelude::Pubkey::try_find_program_address(&refs, &pid)
        .map(|(addr, bump)| (Address { bytes: addr.to_bytes().to_vec() }, bump))
}

/// The namespace tag of market records: the bytes of "market".
pub open spec fn market_tag() -> Seq<u8> {
    seq![109u8, 97u8, 114u8, 107u8, 101u8, 116u8]
}

/// The namespace tag of registry records: the bytes of "registry".
pub open spec fn registry_tag() -> Seq<u8> {
    seq![114u8, 101u8, 103u8, 105u8, 115u8, 116u8, 114u8, 121u8]
}

/// The namespace tag of escrow records: the bytes of "vault".
pub open spec fn vault_tag() -> Seq<u8> {
    seq![118u8, 97u8, 117u8, 108u8, 116u8]
}

fn market_tag_bytes() -> (r: Vec<u8>)
    ensures
        r@ == market_tag(),
{
    let r: Vec<u8> = vec![109u8, 97u8, 114u8, 107u8, 101u8, 116u8];
    proof {
        assert(r@ =~= market_tag());
    }
    r
}

fn registry_tag_bytes() -> (r: Vec<u8>)
    ensures
        r@ == registry_tag(),
{
    let r: Vec<u8> = vec![114u8, 101u8, 103u8, 105u8, 115u8, 116u8, 114u8, 121u8];
    proof {
        assert(r@ =~= registry_tag());
    }
    r
}

fn vault_tag_bytes() -> (r: Vec<u8>)
    ensures
        r@ == vault_tag(),
{
    let r: Vec<u8> = vec![118u8, 97u8, 117u8, 108u8, 116u8];
    proof {
        assert(r@ =~= vault_tag());
    }
    r
}

/// The derivation of a market record's address from its creator and the two
/// team names.
pub open spec fn market_pda(
    program_id: Seq<u8>,
    authority: Seq<u8>,
    team_a: Seq<u8>,
    team_b: Seq<u8>,
) -> Option<(Seq<u8>, u8)> {
    pda_of(seq![market_tag(), authority, team_a, team_b], program_id)
}

/// The derivation of a market record's address from its creator and an
/// external match id.
pub open spec fn market_api_pda(
    program_id: Seq<u8>,
    authority: Seq<u8>,
    match_id: Seq<u8>,
) -> Option<(Seq<u8>, u8)> {
    pda_of(seq![market_tag(), authority, match_id], program_id)
}

/// The derivation of an authority's registry address.
pub open spec fn registry_pda(program_id: Seq<u8>, authority: Seq<u8>) -> Option<(Seq<u8>, u8)> {
    pda_of(seq![registry_tag(), authority], program_id)
}

/// The derivation of a market's escrow address, from the market's own address
/// alone: the one-to-one market-escrow relationship needs no stored pointer.
pub open spec fn vault_pda(program_id: Seq<u8>, market: Seq<u8>) -> Option<(Seq<u8>, u8)> {
    pda_of(seq![vault_tag(), market], program_id)
}

/// Derives the address of the market record for `(authority, team_a, team_b)`.
pub fn derive_market_address(
    program_id: &Address,
    authority: &Address,
    team_a: &Vec<u8>,
    team_b: &Vec<u8>,
) -> (r: Option<(Address, u8)>)
    requires
        program_id.wf(),
    ensures
        derivation_matches(r, market_pda(program_id@, authority@, team_a@, team_b@)),
{
    let mut seeds: Vec<Vec<u8>> = Vec::new();
    seeds.push(market_tag_bytes());
    seeds.push(authority.dup().bytes);
    seeds.push(vstd::slice::slice_to_vec(team_a.as_slice()));
    seeds.push(vstd::slice::slice_to_vec(team_b.as_slice()));
    proof {
        assert(seeds_view(seeds@) =~~= seq![market_tag(), authority@, team_a@, team_b@]);
    }
    find_pda(&seeds, program_id)
}

/// Derives the address of the market record for `(authority, match_id)`.
pub fn derive_market_api_address(
    program_id: &Address,
    authority: &Address,
    match_id: &Vec<u8>,
) -> (r: Option<(Address, u8)>)
    requires
        program_id.wf(),
    ensures
        derivation_matches(r, market_api_pda(program_id@, authority@, match_id@)),
{
    let mut seeds: Vec<Vec<u8>> = Vec::new();
    seeds.push(market_tag_bytes());
    seeds.push(authority.dup().bytes);
    seeds.push(vstd::slice::slice_to_vec(match_id.as_slice()));
    proof {
        assert(seeds_view(seeds@) =~~= seq![market_tag(), authority@, match_id@]);
    }
    find_pda(&seeds, program_id)
}

/// Derives the address of an authority's registry record.
pub fn derive_registry_address(program_id: &Address, authority: &Address) -> (r: Option<(
    Address,
    u8,
)>)
    requires
        program_id.wf(),
    ensures
        derivation_matches(r, registry_pda(program_id@, authority@)),
{
    let mut seeds: Vec<Vec<u8>> = Vec::new();
    seeds.push(registry_tag_bytes());
    seeds.push(authority.dup().bytes);
    proof {
        assert(seeds_view(seeds@) =~~= seq![registry_tag(), authority@]);
    }
    find_pda(&seeds, program_id)
}

/// Derives the address of a market's escrow record from the market's address.
pub fn derive_vault_address(program_id: &Address, market: &Address) -> (r: Option<(Address, u8)>)
    requires
        program_id.wf(),
    ensures
        derivation_matches(r, vault_pda(program_id@, market@)),
{
    let mut seeds: Vec<Vec<u8>> = Vec::new();
    seeds.push(vault_tag_bytes());
    seeds.push(market.dup().bytes);
    proof {
        assert(seeds_view(seeds@) =~~= seq![vault_tag(), market@]);
    }
    find_pda(&seeds, program_id)
}

/// Addresses are reproducible: deriving the market address twice from the
/// same creator and discriminators yields the same address and bump, because
/// the derivation is a function of those inputs alone. (That addresses of
/// *different* tuples never collide rests on the hash underneath and is not
/// provable here.)
pub proof fn lemma_market_address_reproducible(
    program_id: Seq<u8>,
    authority: Seq<u8>,
    team_a: Seq<u8>,
    team_b: Seq<u8>,
    first: Option<(Seq<u8>, u8)>,
    second: Option<(Seq<u8>, u8)>,
)
    requires
        first == market_pda(program_id, authority, team_a, team_b),
        second == market_pda(program_id, authority, team_a, team_b),
    ensures
        first == second,
{
}

} // verus!
