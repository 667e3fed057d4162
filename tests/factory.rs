use locked_ft::factory::{
    deploy_transfer_amount, FactoryError, TokenArgsInput, TokenFactory, TokenFactoryOld,
    WhitelistedTokenOld,
};
use locked_ft::store::KeyedStore;
use locked_ft::metadata::FungibleTokenMetadata;

const BYTE_PRICE: u128 = 10_000_000_000_000_000_000;

fn meta(symbol: &str, decimals: u8) -> FungibleTokenMetadata {
    FungibleTokenMetadata {
        spec: "ft-1.0.0".to_string(),
        name: "Wrapped NEAR".to_string(),
        symbol: symbol.to_string(),
        icon: None,
        reference: None,
        reference_hash: None,
        decimals,
    }
}

fn factory() -> TokenFactory {
    let mut f = TokenFactory::new(1_000);
    f.whitelist_token_with_metadata(
        "wrap.near".to_string(),
        "wrap.near".to_string(),
        None,
        meta("wNEAR", 24),
    )
    .unwrap();
    f.whitelist_price_oracle("priceoracle.near".to_string());
    f
}

fn input(token: &str, target: u128, oracle: Option<&str>) -> TokenArgsInput {
    TokenArgsInput {
        token_id: token.to_string(),
        target_price: target,
        price_oracle_account_id: oracle.map(|o| o.to_string()),
    }
}

fn required(code_len: usize, args_len: usize) -> u128 {
    (code_len as u128 + 10_000 + 2 * args_len as u128) * BYTE_PRICE
}

#[test]
fn min_attached_balance_is_bytes_times_price() {
    assert_eq!(TokenFactory::get_min_attached_balance(100, 200), 10_500 * BYTE_PRICE);
    assert_eq!(TokenFactory::get_min_attached_balance(0, 0), 10_000 * BYTE_PRICE);
}

#[test]
fn storage_deposit_registers_then_adds() {
    let mut f = factory();
    assert_eq!(f.storage_deposit("alice.near".to_string(), 999), Err(FactoryError::InsufficientBudget));
    assert_eq!(f.storage_balance_of("alice.near"), 0);
    assert_eq!(f.storage_deposit("alice.near".to_string(), 1_500), Ok(()));
    assert_eq!(f.storage_balance_of("alice.near"), 500);
    assert_eq!(f.storage_deposit("alice.near".to_string(), 1), Ok(()));
    assert_eq!(f.storage_balance_of("alice.near"), 501);
}

#[test]
fn whitelisting_rejects_bad_symbols() {
    let mut f = factory();
    assert_eq!(
        f.whitelist_token_with_metadata("x.near".to_string(), "x".to_string(), None, meta("a b", 6)),
        Err(FactoryError::InvalidMetadata)
    );
    assert!(f.get_whitelisted_token(&"x.near".to_string()).is_none());
    assert_eq!(
        f.whitelist_token_with_metadata("y.near".to_string(), "y".to_string(), None, meta("USDC", 6)),
        Ok(())
    );
    let t = f.get_whitelisted_token(&"y.near".to_string()).unwrap();
    assert_eq!(t.token_id, "y.near");
    assert_eq!(t.metadata.symbol, "USDC");
}

#[test]
fn prepare_derives_names_and_id() {
    let f = factory();
    let p = f.prepare_token(&input("wrap.near", 123_400, Some("priceoracle.near")), "factory.near").ok().unwrap();
    assert_eq!(p.price, "12.34");
    assert_eq!(p.token_id, "wnear-at-12-34");
    assert_eq!(p.token_account_id, "wnear-at-12-34.factory.near");
    assert_eq!(p.args.meta.name, "wNEAR at $12.34");
    assert_eq!(p.args.meta.symbol, "wNEAR@12.34");
    assert_eq!(p.args.minimum_unlock_price.multiplier(), 123_400);
    assert_eq!(p.args.minimum_unlock_price.decimals(), 28);
    assert_eq!(p.args.backup_trigger_account_id, Some("dreamproject.near".to_string()));
    assert_eq!(p.args.locked_token_account_id, "wrap.near");
    assert_eq!(p.args.asset_id, "wrap.near");
}

#[test]
fn whole_price_has_no_fraction_in_name() {
    let f = factory();
    let p = f.prepare_token(&input("wrap.near", 50_000, Some("priceoracle.near")), "factory.near").ok().unwrap();
    assert_eq!(p.price, "5");
    assert_eq!(p.args.meta.name, "wNEAR at $5");
    assert_eq!(p.token_id, "wnear-at-5-0");
}

#[test]
fn fraction_keeps_leading_zeros() {
    let f = factory();
    let p = f.prepare_token(&input("wrap.near", 10_005, Some("priceoracle.near")), "factory.near").ok().unwrap();
    assert_eq!(p.price, "1.0005");
    assert_eq!(p.token_id, "wnear-at-1-0005");
}

#[test]
fn invalid_identifier_is_refused() {
    let f = factory();
    let r = f.prepare_token(&input("wrap.near", 123_400, Some("priceoracle.near")), "Factory..near");
    assert_eq!(r.err(), Some(FactoryError::InvalidIdentifier));
}

#[test]
fn zero_target_price_is_invalid_metadata() {
    let f = factory();
    let r = f.prepare_token(&input("wrap.near", 0, Some("priceoracle.near")), "factory.near");
    assert_eq!(r.err(), Some(FactoryError::InvalidMetadata));
}

#[test]
fn zero_decimals_is_invalid_metadata() {
    let mut f = factory();
    f.whitelist_token_with_metadata("z.near".to_string(), "z".to_string(), None, meta("zz", 0)).unwrap();
    let r = f.prepare_token(&input("z.near", 10, Some("priceoracle.near")), "factory.near");
    assert_eq!(r.err(), Some(FactoryError::InvalidMetadata));
}

#[test]
fn wrong_metadata_version_is_invalid_metadata() {
    let mut f = factory();
    let mut m = meta("vv", 6);
    m.spec = "ft-2.0.0".to_string();
    f.whitelist_token_with_metadata("v.near".to_string(), "v".to_string(), None, m).unwrap();
    let r = f.prepare_token(&input("v.near", 10, Some("priceoracle.near")), "factory.near");
    assert_eq!(r.err(), Some(FactoryError::InvalidMetadata));
}

#[test]
fn create_with_unlisted_token_fails_and_changes_nothing() {
    let mut f = factory();
    f.storage_deposit("alice.near".to_string(), 10_000 * BYTE_PRICE * 2).unwrap();
    let before = f.storage_balance_of("alice.near");
    let r = f.create_token(&"alice.near".to_string(), 0, &input("nope.near", 123_400, Some("priceoracle.near")), "factory.near", 100, 200);
    assert_eq!(r.err(), Some(FactoryError::NotWhitelisted));
    assert_eq!(f.storage_balance_of("alice.near"), before);
    assert_eq!(f.get_number_of_tokens(), 0);
}

#[test]
fn create_with_unlisted_or_missing_feed_fails_and_changes_nothing() {
    let mut f = factory();
    f.storage_deposit("alice.near".to_string(), 10_000 * BYTE_PRICE * 2).unwrap();
    let before = f.storage_balance_of("alice.near");
    let r = f.create_token(&"alice.near".to_string(), 0, &input("wrap.near", 123_400, Some("other.near")), "factory.near", 100, 200);
    assert_eq!(r.err(), Some(FactoryError::FeedNotWhitelisted));
    let r = f.create_token(&"alice.near".to_string(), 0, &input("wrap.near", 123_400, None), "factory.near", 100, 200);
    assert_eq!(r.err(), Some(FactoryError::FeedNotWhitelisted));
    assert_eq!(f.storage_balance_of("alice.near"), before);
    assert_eq!(f.get_number_of_tokens(), 0);
}

#[test]
fn create_with_insufficient_budget_fails_and_changes_nothing() {
    let mut f = factory();
    f.storage_deposit("alice.near".to_string(), 2_000).unwrap();
    let r = f.create_token(&"alice.near".to_string(), 0, &input("wrap.near", 123_400, Some("priceoracle.near")), "factory.near", 100, 200);
    assert_eq!(r.err(), Some(FactoryError::InsufficientBudget));
    assert_eq!(f.storage_balance_of("alice.near"), 1_000);
    assert_eq!(f.get_number_of_tokens(), 0);
    // An attached deposit too small to register the caller is refused too.
    let r = f.create_token(&"bob.near".to_string(), 10, &input("wrap.near", 123_400, Some("priceoracle.near")), "factory.near", 100, 200);
    assert_eq!(r.err(), Some(FactoryError::InsufficientBudget));
    assert_eq!(f.storage_balance_of("bob.near"), 0);
}

#[test]
fn create_records_vault_and_deducts_budget() {
    let mut f = factory();
    let need = required(100, 200);
    f.storage_deposit("alice.near".to_string(), need + 1_000 + 7).unwrap();
    let plan = f
        .create_token(&"alice.near".to_string(), 0, &input("wrap.near", 123_400, Some("priceoracle.near")), "factory.near", 100, 200)
        .ok()
        .unwrap();
    assert_eq!(plan.required_balance, need);
    assert_eq!(plan.token.token_account_id, "wnear-at-12-34.factory.near");
    assert_eq!(f.storage_balance_of("alice.near"), 7);
    assert_eq!(f.get_number_of_tokens(), 1);
    let rec = f.get_token(&"wnear-at-12-34".to_string()).unwrap();
    assert_eq!(rec.token_id, Some("wnear-at-12-34".to_string()));
    assert_eq!(rec.meta.name, "wNEAR at $12.34");
    assert_eq!(rec.price_oracle_account_id, "priceoracle.near");
    assert_eq!(f.ft_metadata(&"wnear-at-12-34".to_string()).unwrap().symbol, "wNEAR@12.34");
    assert!(f.get_token(&"other".to_string()).is_none());
}

#[test]
fn create_with_attached_deposit_registers_caller() {
    let mut f = factory();
    let need = required(10, 20);
    let plan = f.create_token(&"bob.near".to_string(), need + 1_000 + 3, &input("wrap.near", 10_000, Some("priceoracle.near")), "factory.near", 10, 20);
    assert!(plan.is_ok());
    assert_eq!(f.storage_balance_of("bob.near"), 3);
}

#[test]
fn duplicate_identifier_fails_and_changes_nothing() {
    let mut f = factory();
    let need = required(100, 200);
    f.storage_deposit("alice.near".to_string(), 2 * need + 1_000).unwrap();
    let i = input("wrap.near", 123_400, Some("priceoracle.near"));
    assert!(f.create_token(&"alice.near".to_string(), 0, &i, "factory.near", 100, 200).is_ok());
    let left = f.storage_balance_of("alice.near");
    assert_eq!(left, need);
    let r = f.create_token(&"alice.near".to_string(), 0, &i, "factory.near", 100, 200);
    assert_eq!(r.err(), Some(FactoryError::IdentifierTaken));
    assert_eq!(f.storage_balance_of("alice.near"), left);
    assert_eq!(f.get_number_of_tokens(), 1);
}

#[test]
fn token_name_uses_padded_fraction() {
    let f = factory();
    let name = f.get_token_name(&input("wrap.near", 120_005, None), "factory.near");
    assert_eq!(name, Ok("wnear-12-0005.factory.near".to_string()));
    let name = f.get_token_name(&input("wrap.near", 120_000, None), "factory.near");
    assert_eq!(name, Ok("wnear-12-0000.factory.near".to_string()));
    assert_eq!(f.get_token_name(&input("nope.near", 1, None), "factory.near"), Err(FactoryError::NotWhitelisted));
    assert_eq!(f.get_token_name(&input("wrap.near", 1, None), "-bad"), Err(FactoryError::InvalidIdentifier));
}

#[test]
fn pages_of_listings() {
    let mut f = factory();
    f.whitelist_price_oracle("b.near".to_string());
    f.whitelist_price_oracle("c.near".to_string());
    f.whitelist_price_oracle("b.near".to_string());
    assert_eq!(f.get_whitelisted_price_oracles(0, 10), vec!["priceoracle.near".to_string(), "b.near".to_string(), "c.near".to_string()]);
    assert_eq!(f.get_whitelisted_price_oracles(1, 1), vec!["b.near".to_string()]);
    assert_eq!(f.get_whitelisted_price_oracles(5, 1), Vec::<String>::new());
    assert_eq!(f.get_whitelisted_price_oracles(2, u64::MAX), vec!["c.near".to_string()]);
    assert_eq!(f.get_whitelisted_token_account_ids(0, 10), vec!["wrap.near".to_string()]);
    let ts = f.get_whitelisted_tokens(0, 10);
    assert_eq!(ts.len(), 1);
    assert_eq!(ts[0].as_ref().unwrap().asset_id, "wrap.near");
    assert_eq!(f.get_tokens(0, 10).len(), 0);
}

#[test]
fn metadata_updates() {
    let mut f = factory();
    assert_eq!(f.update_whitelisted_token_metadata("nope".to_string(), meta("x", 1)), Err(FactoryError::NotWhitelisted));
    assert_eq!(f.update_whitelisted_token_metadata("wrap.near".to_string(), meta("NEAR", 24)), Ok(()));
    assert_eq!(f.get_whitelisted_token(&"wrap.near".to_string()).unwrap().metadata.symbol, "NEAR");
    assert_eq!(f.update_token_metadata("nope".to_string(), meta("x", 1)), Err(FactoryError::UnknownToken));
}

#[test]
fn transfer_amount_subtracts_used_storage() {
    assert_eq!(deploy_transfer_amount(100, 30), Some(70));
    assert_eq!(deploy_transfer_amount(100, 100), Some(0));
    assert_eq!(deploy_transfer_amount(100, 101), None);
}

#[test]
fn migration_keeps_ids_and_balances() {
    let mut deposits = KeyedStore::new();
    deposits.insert("alice.near".to_string(), 77u128);
    let mut whitelist = KeyedStore::new();
    whitelist.insert(
        "wrap.near".to_string(),
        WhitelistedTokenOld { title: "Wrapped NEAR".to_string(), asset_id: "wrap.near".to_string(), decimals: 24 },
    );
    whitelist.insert(
        "usdc.near".to_string(),
        WhitelistedTokenOld { title: "USD Coin".to_string(), asset_id: "usdc".to_string(), decimals: 6 },
    );
    let old = TokenFactoryOld {
        tokens: KeyedStore::new(),
        storage_deposits: deposits,
        storage_balance_cost: 1_000,
        whitelisted_tokens: whitelist,
    };
    let f = TokenFactory::migrate_1(old);
    assert_eq!(f.storage_balance_of("alice.near"), 77);
    assert_eq!(f.storage_balance_cost, 1_000);
    assert_eq!(f.get_whitelisted_token_account_ids(0, 10), vec!["wrap.near".to_string(), "usdc.near".to_string()]);
    let t = f.get_whitelisted_token(&"usdc.near".to_string()).unwrap();
    assert_eq!(t.asset_id, "usdc");
    assert_eq!(t.ticker, None);
    assert_eq!(t.metadata.name, "USD Coin");
    assert_eq!(t.metadata.spec, "ft-1.0.0");
    assert_eq!(t.metadata.symbol, "");
    assert_eq!(t.metadata.decimals, 6);
    assert!(f.get_whitelisted_price_oracles(0, 10).is_empty());
}
