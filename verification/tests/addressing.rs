use anchor_lang::prelude::Pubkey;
use predicta::Address;
use predicta::GetMarketsForAuthority;
use predicta::MarketError;
use predicta::get_markets_for_authority;
use predicta::pda::derive_market_address;
use predicta::pda::derive_market_api_address;
use predicta::pda::derive_registry_address;
use predicta::pda::derive_vault_address;

fn addr(b: u8) -> Address {
    Address::new(vec![b; 32])
}

#[test]
fn market_address_matches_runtime_derivation() {
    let program_id = addr(11);
    let authority = addr(1);
    let (derived, bump) =
        derive_market_address(&program_id, &authority, &b"Lions".to_vec(), &b"Tigers".to_vec())
            .expect("a bump is found");
    let pid = Pubkey::new_from_array([11u8; 32]);
    let (expected, expected_bump) = Pubkey::find_program_address(
        &[b"market", &[1u8; 32], b"Lions", b"Tigers"],
        &pid,
    );
    assert_eq!(derived.bytes, expected.to_bytes().to_vec());
    assert_eq!(bump, expected_bump);
}

#[test]
fn registry_and_vault_addresses_match_runtime_derivation() {
    let program_id = addr(11);
    let authority = addr(1);
    let pid = Pubkey::new_from_array([11u8; 32]);
    let (registry, registry_bump) =
        derive_registry_address(&program_id, &authority).expect("a bump is found");
    let (expected, expected_bump) =
        Pubkey::find_program_address(&[b"registry", &[1u8; 32]], &pid);
    assert_eq!(registry.bytes, expected.to_bytes().to_vec());
    assert_eq!(registry_bump, expected_bump);

    let market = addr(2);
    let (vault, vault_bump) = derive_vault_address(&program_id, &market).expect("a bump is found");
    let (expected_vault, expected_vault_bump) =
        Pubkey::find_program_address(&[b"vault", &[2u8; 32]], &pid);
    assert_eq!(vault.bytes, expected_vault.to_bytes().to_vec());
    assert_eq!(vault_bump, expected_vault_bump);
}

#[test]
fn api_address_discriminated_by_match_id() {
    let program_id = addr(11);
    let authority = addr(1);
    let (first, _) = derive_market_api_address(&program_id, &authority, &b"match-1".to_vec())
        .expect("a bump is found");
    let (second, _) = derive_market_api_address(&program_id, &authority, &b"match-2".to_vec())
        .expect("a bump is found");
    assert_ne!(first.bytes, second.bytes);
}

#[test]
fn derivation_is_reproducible_and_not_trivial() {
    let program_id = addr(11);
    let authority = addr(1);
    let team_a = b"Lions".to_vec();
    let team_b = b"Tigers".to_vec();
    let (first, first_bump) =
        derive_market_address(&program_id, &authority, &team_a, &team_b).expect("a bump is found");
    let (second, second_bump) =
        derive_market_address(&program_id, &authority, &team_a, &team_b).expect("a bump is found");
    assert_eq!(first.bytes, second.bytes);
    assert_eq!(first_bump, second_bump);
    // The derived address is a hash, not any input handed back.
    assert_ne!(first.bytes, authority.bytes);
    assert_ne!(first.bytes, program_id.bytes);
    // Swapping the discriminators moves the address.
    let (swapped, _) =
        derive_market_address(&program_id, &authority, &team_b, &team_a).expect("a bump is found");
    assert_ne!(first.bytes, swapped.bytes);
}

#[test]
fn over_long_seed_yields_no_address() {
    let program_id = addr(11);
    let authority = addr(1);
    let r = derive_market_address(&program_id, &authority, &vec![b'a'; 33], &b"Tigers".to_vec());
    assert!(r.is_none());
}

#[test]
fn registry_lookup_validates_ownership() {
    let program_id = addr(11);
    let authority = addr(1);
    let (registry_address, _) =
        derive_registry_address(&program_id, &authority).expect("a bump is found");
    let ctx = GetMarketsForAuthority { authority: addr(1), registry_address };
    assert!(get_markets_for_authority(&ctx, &program_id).is_ok());

    let mut wrong = derive_registry_address(&program_id, &authority).unwrap().0;
    wrong.bytes[0] = wrong.bytes[0].wrapping_add(1);
    let ctx = GetMarketsForAuthority { authority: addr(1), registry_address: wrong };
    assert_eq!(
        get_markets_for_authority(&ctx, &program_id).unwrap_err(),
        MarketError::RegistryAuthorityMismatch
    );
}
