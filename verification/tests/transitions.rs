use predicta::Address;
use predicta::CreateMarket;
use predicta::CreateMarketFromApi;
use predicta::MarketAccount;
use predicta::MarketError;
use predicta::PlacePrediction;
use predicta::RegistryAccount;
use predicta::VaultAccount;
use predicta::create_market;
use predicta::create_market_from_api;
use predicta::place_prediction;

const NOW: i64 = 1_700_000_000;

fn addr(b: u8) -> Address {
    Address::new(vec![b; 32])
}

fn create_ctx(authority: u8, market: u8) -> CreateMarket {
    CreateMarket {
        authority: addr(authority),
        market_address: addr(market),
        market_bump: 255,
        registry_bump: 254,
    }
}

fn stake_ctx() -> PlacePrediction {
    PlacePrediction { predictor: addr(9), market_address: addr(2) }
}

fn open_market() -> (MarketAccount, VaultAccount, RegistryAccount) {
    let ctx = create_ctx(1, 2);
    let mut registry: Option<RegistryAccount> = None;
    let r = create_market(
        &ctx,
        &mut registry,
        b"Lions".to_vec(),
        b"Tigers".to_vec(),
        NOW + 3600,
        NOW,
    );
    let (market, vault) = r.expect("creation with valid inputs succeeds");
    (market, vault, registry.expect("registry exists after first creation"))
}

#[test]
fn test_place_valid_prediction() {
    let (mut market, mut vault, _registry) = open_market();
    let r = place_prediction(&stake_ctx(), &mut market, &mut vault, 1, 1000, NOW + 10);
    assert!(r.is_ok());
    assert_eq!(market.total_yes, 1000);
    assert_eq!(market.total_no, 0);
    assert_eq!(vault.lamports, 1000);
}

#[test]
fn test_place_prediction_after_close_fails() {
    let (mut market, mut vault, _registry) = open_market();
    let r = place_prediction(&stake_ctx(), &mut market, &mut vault, 1, 1000, NOW + 3600);
    assert_eq!(r.unwrap_err(), MarketError::MarketClosed);
    assert_eq!(market.total_yes, 0);
    assert_eq!(vault.lamports, 0);
}

#[test]
fn test_invalid_side_or_amount() {
    let (mut market, mut vault, _registry) = open_market();
    let r = place_prediction(&stake_ctx(), &mut market, &mut vault, 3, 10, NOW + 10);
    assert_eq!(r.unwrap_err(), MarketError::InvalidSide);
    let r = place_prediction(&stake_ctx(), &mut market, &mut vault, 1, 0, NOW + 10);
    assert_eq!(r.unwrap_err(), MarketError::InvalidAmount);
    assert_eq!(market.total_yes, 0);
    assert_eq!(market.total_no, 0);
    assert_eq!(vault.lamports, 0);
}

#[test]
fn creation_populates_market_and_registry() {
    let (market, vault, registry) = open_market();
    assert_eq!(market.team_a, b"Lions".to_vec());
    assert_eq!(market.team_b, b"Tigers".to_vec());
    assert_eq!(market.end_time, NOW + 3600);
    assert!(!market.resolved);
    assert_eq!(market.winner, 0);
    assert_eq!(market.total_yes, 0);
    assert_eq!(market.total_no, 0);
    assert_eq!(vault.lamports, 0);
    assert_eq!(registry.markets.len(), 1);
    assert_eq!(registry.markets[0].bytes, vec![2u8; 32]);
    assert_eq!(registry.authority.bytes, vec![1u8; 32]);
}

#[test]
fn stake_before_deadline_accepted_and_escrowed() {
    let (mut market, mut vault, _registry) = open_market();
    let event = place_prediction(&stake_ctx(), &mut market, &mut vault, 1, 1000, NOW + 1)
        .expect("stake before the deadline on side 1 is accepted");
    assert_eq!(market.total_yes, 1000);
    assert_eq!(vault.lamports, 1000);
    assert_eq!(event.side, 1);
    assert_eq!(event.amount, 1000);
    assert_eq!(event.market.bytes, vec![2u8; 32]);
    assert_eq!(event.predictor.bytes, vec![9u8; 32]);
}

#[test]
fn stake_after_deadline_rejected_side_two() {
    let (mut market, mut vault, _registry) = open_market();
    let r = place_prediction(&stake_ctx(), &mut market, &mut vault, 2, 500, NOW + 3600);
    assert_eq!(r.unwrap_err(), MarketError::MarketClosed);
    assert_eq!(market.total_no, 0);
    assert_eq!(vault.lamports, 0);
}

#[test]
fn stake_on_resolved_market_rejected() {
    let (mut market, mut vault, _registry) = open_market();
    market.resolved = true;
    let r = place_prediction(&stake_ctx(), &mut market, &mut vault, 1, 10, NOW + 1);
    assert_eq!(r.unwrap_err(), MarketError::MarketAlreadyResolved);
    assert_eq!(market.total_yes, 0);
}

#[test]
fn stake_overflow_is_rejected_not_capped() {
    let (mut market, mut vault, _registry) = open_market();
    market.total_yes = u64::MAX - 5;
    let r = place_prediction(&stake_ctx(), &mut market, &mut vault, 1, 6, NOW + 1);
    assert_eq!(r.unwrap_err(), MarketError::InvalidAmount);
    assert_eq!(market.total_yes, u64::MAX - 5);
    assert_eq!(vault.lamports, 0);
    let r = place_prediction(&stake_ctx(), &mut market, &mut vault, 1, 5, NOW + 1);
    assert!(r.is_ok());
    assert_eq!(market.total_yes, u64::MAX);
}

#[test]
fn totals_accumulate_per_side() {
    let (mut market, mut vault, _registry) = open_market();
    place_prediction(&stake_ctx(), &mut market, &mut vault, 1, 300, NOW + 1).unwrap();
    place_prediction(&stake_ctx(), &mut market, &mut vault, 2, 200, NOW + 1).unwrap();
    place_prediction(&stake_ctx(), &mut market, &mut vault, 1, 700, NOW + 1).unwrap();
    assert_eq!(market.total_yes, 1000);
    assert_eq!(market.total_no, 200);
    assert_eq!(vault.lamports, 1200);
}

#[test]
fn empty_team_name_rejected() {
    let ctx = create_ctx(1, 2);
    let mut registry: Option<RegistryAccount> = None;
    let r = create_market(&ctx, &mut registry, b"".to_vec(), b"Tigers".to_vec(), NOW + 3600, NOW);
    assert_eq!(r.unwrap_err(), MarketError::EmptyTeamName);
    assert!(registry.is_none());
}

#[test]
fn whitespace_team_name_rejected() {
    let ctx = create_ctx(1, 2);
    let mut registry: Option<RegistryAccount> = None;
    let r = create_market(&ctx, &mut registry, b"Lions".to_vec(), b" \t ".to_vec(), NOW + 3600, NOW);
    assert_eq!(r.unwrap_err(), MarketError::EmptyTeamName);
}

#[test]
fn long_team_name_rejected() {
    let ctx = create_ctx(1, 2);
    let mut registry: Option<RegistryAccount> = None;
    let r = create_market(
        &ctx,
        &mut registry,
        vec![b'a'; 33],
        b"Tigers".to_vec(),
        NOW + 3600,
        NOW,
    );
    assert_eq!(r.unwrap_err(), MarketError::TeamNameTooLong);
}

#[test]
fn past_end_time_rejected() {
    let ctx = create_ctx(1, 2);
    let mut registry: Option<RegistryAccount> = None;
    let r = create_market(&ctx, &mut registry, b"Lions".to_vec(), b"Tigers".to_vec(), NOW, NOW);
    assert_eq!(r.unwrap_err(), MarketError::EndTimeMustBeInFuture);
}

#[test]
fn registry_full_on_hundred_and_first() {
    let mut registry: Option<RegistryAccount> = None;
    for i in 0..100u8 {
        let ctx = CreateMarket {
            authority: addr(1),
            market_address: Address::new((0..32).map(|j| i.wrapping_add(j) ^ 0x5a).collect()),
            market_bump: 255,
            registry_bump: 254,
        };
        let r = create_market(
            &ctx,
            &mut registry,
            b"Lions".to_vec(),
            b"Tigers".to_vec(),
            NOW + 3600,
            NOW,
        );
        assert!(r.is_ok());
    }
    assert_eq!(registry.as_ref().unwrap().markets.len(), 100);
    let ctx = create_ctx(1, 251);
    let r = create_market(&ctx, &mut registry, b"Lions".to_vec(), b"Tigers".to_vec(), NOW + 3600, NOW);
    assert_eq!(r.unwrap_err(), MarketError::RegistryFull);
    assert_eq!(registry.unwrap().markets.len(), 100);
}

#[test]
fn duplicate_market_address_rejected() {
    let ctx = create_ctx(1, 2);
    let mut registry: Option<RegistryAccount> = None;
    create_market(&ctx, &mut registry, b"Lions".to_vec(), b"Tigers".to_vec(), NOW + 3600, NOW)
        .unwrap();
    let r = create_market(&ctx, &mut registry, b"Lions".to_vec(), b"Tigers".to_vec(), NOW + 3600, NOW);
    assert_eq!(r.unwrap_err(), MarketError::MarketAlreadyRegistered);
    assert_eq!(registry.unwrap().markets.len(), 1);
}

#[test]
fn foreign_registry_rejected() {
    let mut registry: Option<RegistryAccount> = None;
    let owner_ctx = create_ctx(1, 2);
    create_market(&owner_ctx, &mut registry, b"Lions".to_vec(), b"Tigers".to_vec(), NOW + 3600, NOW)
        .unwrap();
    let intruder_ctx = create_ctx(7, 3);
    let r = create_market(
        &intruder_ctx,
        &mut registry,
        b"Lions".to_vec(),
        b"Tigers".to_vec(),
        NOW + 3600,
        NOW,
    );
    assert_eq!(r.unwrap_err(), MarketError::RegistryAuthorityMismatch);
    let reg = registry.unwrap();
    assert_eq!(reg.markets.len(), 1);
    assert_eq!(reg.authority.bytes, vec![1u8; 32]);
}

#[test]
fn racing_first_creations_each_own_their_registry() {
    let mut first_registry: Option<RegistryAccount> = None;
    let mut second_registry: Option<RegistryAccount> = None;
    create_market(
        &create_ctx(1, 2),
        &mut first_registry,
        b"Lions".to_vec(),
        b"Tigers".to_vec(),
        NOW + 3600,
        NOW,
    )
    .unwrap();
    create_market(
        &create_ctx(7, 8),
        &mut second_registry,
        b"Bears".to_vec(),
        b"Wolves".to_vec(),
        NOW + 3600,
        NOW,
    )
    .unwrap();
    assert_eq!(first_registry.unwrap().authority.bytes, vec![1u8; 32]);
    assert_eq!(second_registry.unwrap().authority.bytes, vec![7u8; 32]);
}

#[test]
fn api_creation_populates_feed_fields() {
    let ctx = CreateMarketFromApi {
        authority: addr(1),
        market_address: addr(2),
        market_bump: 255,
        registry_bump: 254,
    };
    let mut registry: Option<RegistryAccount> = None;
    let market = create_market_from_api(
        &ctx,
        &mut registry,
        b"Lions".to_vec(),
        b"Tigers".to_vec(),
        b"NFL".to_vec(),
        NOW + 1800,
        NOW + 3600,
        b"match-42".to_vec(),
        NOW,
    )
    .expect("feed-sourced creation with valid inputs succeeds");
    assert_eq!(market.league, b"NFL".to_vec());
    assert_eq!(market.match_id, b"match-42".to_vec());
    assert_eq!(market.start_time, NOW + 1800);
    assert_eq!(registry.unwrap().markets.len(), 1);
}

#[test]
fn long_match_id_rejected() {
    let ctx = CreateMarketFromApi {
        authority: addr(1),
        market_address: addr(2),
        market_bump: 255,
        registry_bump: 254,
    };
    let mut registry: Option<RegistryAccount> = None;
    let r = create_market_from_api(
        &ctx,
        &mut registry,
        b"Lions".to_vec(),
        b"Tigers".to_vec(),
        b"NFL".to_vec(),
        NOW + 1800,
        NOW + 3600,
        vec![b'x'; 33],
        NOW,
    );
    assert_eq!(r.unwrap_err(), MarketError::MatchIdTooLong);
    assert!(registry.is_none());
}

#[test]
fn error_messages_name_the_rejection() {
    assert_eq!(MarketError::MarketClosed.message(), "Market is closed");
    assert_eq!(MarketError::EmptyTeamName.message(), "Team name cannot be empty");
    assert_eq!(MarketError::RegistryFull.message(), "Registry for this authority is full");
}
