use locked_ft::metadata::FungibleTokenMetadata;
use locked_ft::price::Price;
use locked_ft::vault::{AssetOptionalPrice, Contract, PriceData, Status, VaultError, UNLOCKING_DURATION};

fn vault() -> Contract {
    Contract::new(
        "wrap.near".to_string(),
        "wnear-at-12-34".to_string(),
        FungibleTokenMetadata {
            spec: "ft-1.0.0".to_string(),
            name: "wNEAR at $12.34".to_string(),
            symbol: "wNEAR@12.34".to_string(),
            icon: None,
            reference: None,
            reference_hash: None,
            decimals: 24,
        },
        Some("dreamproject.near".to_string()),
        "oracle.near".to_string(),
        "wrap.near".to_string(),
        Price::new(123_400, 28),
        "factory.near".to_string(),
    )
}

fn data(entries: Vec<(&str, Option<Price>)>) -> PriceData {
    PriceData {
        timestamp: 0,
        recency_duration_sec: 90,
        prices: entries
            .into_iter()
            .map(|(a, p)| AssetOptionalPrice { asset_id: a.to_string(), price: p })
            .collect(),
    }
}

// The target, 12.34 per whole token of 24 decimals, is 123400 at 28 decimals.
fn high() -> Option<Price> {
    Some(Price::new(13, 24))
}

fn low() -> Option<Price> {
    Some(Price::new(123_399, 28))
}

#[test]
fn starts_locked() {
    let v = vault();
    assert_eq!(v.get_status(), Status::Locked);
    assert_eq!(v.get_trigger_account_id(), Some("dreamproject.near".to_string()));
    assert_eq!(v.get_locked_token_account_id(), "wrap.near");
    assert_eq!(v.ft_metadata().symbol, "wNEAR@12.34");
}

#[test]
fn only_the_feed_may_push_prices() {
    let mut v = vault();
    assert_eq!(v.oracle_on_call("mallory.near", &data(vec![("wrap.near", high())]), 5), Err(VaultError::Unauthorized));
    assert_eq!(v.get_status(), Status::Locked);
}

#[test]
fn qualifying_price_starts_cooldown_and_repeats_leave_it() {
    let mut v = vault();
    assert_eq!(v.oracle_on_call("oracle.near", &data(vec![("wrap.near", high())]), 100), Ok(()));
    assert_eq!(v.get_status(), Status::Unlocking { initiated_timestamp: 100 });
    assert_eq!(v.oracle_on_call("oracle.near", &data(vec![("wrap.near", high())]), 200), Ok(()));
    assert_eq!(v.oracle_on_call("oracle.near", &data(vec![("wrap.near", high())]), 100 + UNLOCKING_DURATION - 1), Ok(()));
    assert_eq!(v.get_status(), Status::Unlocking { initiated_timestamp: 100 });
    assert_eq!(v.oracle_on_call("oracle.near", &data(vec![("wrap.near", high())]), 100 + UNLOCKING_DURATION), Ok(()));
    assert_eq!(v.get_status(), Status::Unlocked);
    assert_eq!(v.oracle_on_call("oracle.near", &data(vec![("wrap.near", high())]), 100 + 2 * UNLOCKING_DURATION), Err(VaultError::WrongState));
    assert_eq!(v.get_status(), Status::Unlocked);
}

#[test]
fn price_equal_to_target_qualifies() {
    for p in [Price::new(1_234, 26), Price::new(12_340, 27), Price::new(123_400, 28)] {
        let mut v = vault();
        assert_eq!(v.oracle_on_call("oracle.near", &data(vec![("wrap.near", Some(p))]), 1), Ok(()));
        assert_eq!(v.get_status(), Status::Unlocking { initiated_timestamp: 1 });
    }
    let mut v = vault();
    assert_eq!(v.oracle_on_call("oracle.near", &data(vec![("wrap.near", Some(Price::new(1_233, 26)))]), 1), Ok(()));
    assert_eq!(v.get_status(), Status::Locked);
}

#[test]
fn low_or_missing_price_relocks() {
    let mut v = vault();
    v.oracle_on_call("oracle.near", &data(vec![("wrap.near", high())]), 10).unwrap();
    assert_eq!(v.oracle_on_call("oracle.near", &data(vec![("wrap.near", low())]), 20), Ok(()));
    assert_eq!(v.get_status(), Status::Locked);
    // Already locked: another low price is a no-op.
    assert_eq!(v.oracle_on_call("oracle.near", &data(vec![("wrap.near", low())]), 30), Ok(()));
    assert_eq!(v.get_status(), Status::Locked);
    v.oracle_on_call("oracle.near", &data(vec![("wrap.near", high())]), 40).unwrap();
    assert_eq!(v.oracle_on_call("oracle.near", &data(vec![("wrap.near", None)]), 50), Ok(()));
    assert_eq!(v.get_status(), Status::Locked);
    v.oracle_on_call("oracle.near", &data(vec![("wrap.near", high())]), 60).unwrap();
    assert_eq!(v.oracle_on_call("oracle.near", &data(vec![("other.near", high())]), 70), Ok(()));
    assert_eq!(v.get_status(), Status::Locked);
}

#[test]
fn first_entry_for_the_asset_decides() {
    let mut v = vault();
    let d = data(vec![("other.near", low()), ("wrap.near", high()), ("wrap.near", low())]);
    assert_eq!(v.oracle_on_call("oracle.near", &d, 7), Ok(()));
    assert_eq!(v.get_status(), Status::Unlocking { initiated_timestamp: 7 });
}

#[test]
fn backup_authority_forces_unlock() {
    let mut v = vault();
    assert_eq!(v.unlock("mallory.near"), Err(VaultError::Unauthorized));
    assert_eq!(v.unlock("dreamproject.near"), Ok(()));
    assert_eq!(v.get_status(), Status::Unlocked);
    assert_eq!(v.unlock("dreamproject.near"), Err(VaultError::WrongState));
    assert_eq!(v.maybe_lock(), Err(VaultError::WrongState));
    assert_eq!(v.maybe_unlock(0), Err(VaultError::WrongState));
}

#[test]
fn deposits_only_from_backing_token_while_locked() {
    let mut v = vault();
    assert_eq!(v.ft_on_transfer("fake.near", "alice.near".to_string(), 5), Err(VaultError::Unauthorized));
    assert_eq!(v.ft_on_transfer("wrap.near", "alice.near".to_string(), 5), Ok(0));
    assert_eq!(v.ft_on_transfer("wrap.near", "alice.near".to_string(), 7), Ok(0));
    assert_eq!(v.ft_balance_of("alice.near"), 12);
    v.unlock("dreamproject.near").unwrap();
    assert_eq!(v.ft_on_transfer("wrap.near", "alice.near".to_string(), 1), Err(VaultError::WrongState));
    assert_eq!(v.ft_balance_of("alice.near"), 12);
}

#[test]
fn withdrawal_needs_unlocked_vault_and_a_record() {
    let mut v = vault();
    v.ft_on_transfer("wrap.near", "alice.near".to_string(), 5).unwrap();
    assert_eq!(v.unwrap("alice.near".to_string()).err(), Some(VaultError::WrongState));
    v.unlock("dreamproject.near").unwrap();
    assert_eq!(v.unwrap("bob.near".to_string()).err(), Some(VaultError::NotRegistered));
    assert_eq!(v.ft_balance_of("alice.near"), 5);
}

#[test]
fn successful_withdrawal_conserves_and_closes_record() {
    let mut v = vault();
    v.ft_on_transfer("wrap.near", "alice.near".to_string(), 40).unwrap();
    v.ft_on_transfer("wrap.near", "bob.near".to_string(), 9).unwrap();
    v.unlock("dreamproject.near").unwrap();
    let before = v.ft_balance_of("alice.near");
    let w = v.unwrap("alice.near".to_string()).ok().unwrap();
    assert_eq!(w.amount, 40);
    assert_eq!(v.ft_balance_of("alice.near"), 0);
    let s = v.after_ft_transfer(&w, true, 125);
    assert!(s.success);
    assert_eq!(s.storage_refund, Some(125));
    assert_eq!(v.ft_balance_of("alice.near") + w.amount, before);
    assert_eq!(v.ft_balance_of("bob.near"), 9);
    // The record is closed: a new withdrawal finds none.
    assert_eq!(v.unwrap("alice.near".to_string()).err(), Some(VaultError::NotRegistered));
}

#[test]
fn failed_withdrawal_recredits_exact_amount() {
    let mut v = vault();
    v.ft_on_transfer("wrap.near", "alice.near".to_string(), 40).unwrap();
    v.unlock("dreamproject.near").unwrap();
    let w = v.unwrap("alice.near".to_string()).ok().unwrap();
    let s = v.after_ft_transfer(&w, false, 125);
    assert!(!s.success);
    assert_eq!(s.storage_refund, None);
    assert_eq!(v.ft_balance_of("alice.near"), 40);
}

#[test]
fn owner_changes_feed_and_metadata_answers_apply() {
    let mut v = vault();
    assert_eq!(v.update_price_oracle_account_id("mallory.near", "x.near".to_string()), Err(VaultError::Unauthorized));
    assert_eq!(v.update_price_oracle_account_id("dreamproject.near", "x.near".to_string()), Ok(()));
    assert_eq!(v.oracle_on_call("oracle.near", &data(vec![("wrap.near", high())]), 1), Err(VaultError::Unauthorized));
    assert_eq!(v.oracle_on_call("x.near", &data(vec![("wrap.near", high())]), 1), Ok(()));
    v.on_ft_metadata(None);
    assert_eq!(v.ft_metadata().name, "wNEAR at $12.34");
    let mut m = v.ft_metadata();
    m.name = "renamed".to_string();
    v.on_ft_metadata(Some(m));
    assert_eq!(v.get_info().meta.name, "renamed");
}
