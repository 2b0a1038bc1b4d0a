//! Tests for the ledgers, the local-ledger adaptor and the asset router.

use asset_router::adaptor::{asset_id_to_currency_id, LocalAssetAdaptor};
use asset_router::asset::{AssetId, LIQUIDITY, LOCAL, NATIVE, RESERVED};
use asset_router::errors::{AssetError, LedgerError};
use asset_router::foreign::ForeignLedger;
use asset_router::ledger::{
    CurrencyId, DustRemovalWhitelist, LocalLedger, MockDustRemovalWhitelist,
};
use asset_router::native::NativeLedger;
use asset_router::router::AssetRouter;

fn local(index: u64) -> AssetId {
    AssetId { chain_id: 0, asset_type: LOCAL, asset_index: index }
}

fn native() -> AssetId {
    AssetId { chain_id: 0, asset_type: NATIVE, asset_index: 0 }
}

fn reserved(chain_id: u32, index: u64) -> AssetId {
    AssetId { chain_id, asset_type: RESERVED, asset_index: index }
}

#[test]
fn adaptor_maps_a_local_identifier_to_a_plain_token_key() {
    assert_eq!(asset_id_to_currency_id(&local(7)), Ok(CurrencyId::Token(7)));
}

#[test]
fn adaptor_maps_a_liquidity_identifier_to_a_pool_key() {
    let lp = AssetId { chain_id: 0, asset_type: LIQUIDITY, asset_index: 0x5_0009 };
    assert_eq!(asset_id_to_currency_id(&lp), Ok(CurrencyId::ZenlinkLp(5, 9)));
    // Each half is truncated to the 8-bit symbol width.
    let wide = AssetId { chain_id: 0, asset_type: LIQUIDITY, asset_index: 0x0123_4567 };
    assert_eq!(asset_id_to_currency_id(&wide), Ok(CurrencyId::ZenlinkLp(0x23, 0x67)));
}

#[test]
fn adaptor_rejects_types_it_does_not_own() {
    assert_eq!(asset_id_to_currency_id(&native()), Err(AssetError::UnsupportedAssetType));
    assert_eq!(asset_id_to_currency_id(&reserved(3, 1)), Err(AssetError::UnsupportedAssetType));
}

#[test]
fn deposit_brings_a_local_asset_into_existence() {
    let mut ledger = LocalLedger::new();
    let id = local(7);
    let acc: u128 = 1;
    assert!(!LocalAssetAdaptor::local_is_exists(&ledger, id));
    assert_eq!(LocalAssetAdaptor::local_deposit(&mut ledger, id, &acc, 100), Ok(100));
    assert!(LocalAssetAdaptor::local_is_exists(&ledger, id));
    assert_eq!(LocalAssetAdaptor::local_total_supply(&ledger, id), 100);
    assert_eq!(LocalAssetAdaptor::local_balance_of(&ledger, id, &acc), 100);
}

#[test]
fn deposit_of_an_unsupported_identifier_is_an_explicit_noop() {
    let mut ledger = LocalLedger::new();
    let acc: u128 = 1;
    assert_eq!(LocalAssetAdaptor::local_deposit(&mut ledger, native(), &acc, 100), Ok(0));
    assert_eq!(LocalAssetAdaptor::local_total_supply(&ledger, native()), 0);
    assert_eq!(LocalAssetAdaptor::local_balance_of(&ledger, native(), &acc), 0);
}

#[test]
fn local_transfer_moves_value_between_accounts() {
    let mut ledger = LocalLedger::new();
    let id = local(7);
    let (alice, bob): (u128, u128) = (1, 2);
    LocalAssetAdaptor::local_deposit(&mut ledger, id, &alice, 100).unwrap();
    assert_eq!(LocalAssetAdaptor::local_transfer(&mut ledger, id, &alice, &bob, 30), Ok(()));
    assert_eq!(LocalAssetAdaptor::local_balance_of(&ledger, id, &alice), 70);
    assert_eq!(LocalAssetAdaptor::local_balance_of(&ledger, id, &bob), 30);
    assert_eq!(LocalAssetAdaptor::local_total_supply(&ledger, id), 100);
}

#[test]
fn local_transfer_fails_loudly_on_an_uncovered_debit() {
    let mut ledger = LocalLedger::new();
    let id = local(7);
    let (alice, bob): (u128, u128) = (1, 2);
    LocalAssetAdaptor::local_deposit(&mut ledger, id, &alice, 100).unwrap();
    assert_eq!(
        LocalAssetAdaptor::local_transfer(&mut ledger, id, &alice, &bob, 200),
        Err(AssetError::Ledger(LedgerError::InsufficientBalance))
    );
    assert_eq!(LocalAssetAdaptor::local_balance_of(&ledger, id, &alice), 100);
    assert_eq!(LocalAssetAdaptor::local_balance_of(&ledger, id, &bob), 0);
}

#[test]
fn local_transfer_of_an_unresolvable_identifier_fails() {
    let mut ledger = LocalLedger::new();
    let (alice, bob): (u128, u128) = (1, 2);
    assert_eq!(
        LocalAssetAdaptor::local_transfer(&mut ledger, native(), &alice, &bob, 1),
        Err(AssetError::CannotResolveAsset)
    );
}

#[test]
fn local_withdraw_debits_balance_and_issuance() {
    let mut ledger = LocalLedger::new();
    let id = local(7);
    let alice: u128 = 1;
    LocalAssetAdaptor::local_deposit(&mut ledger, id, &alice, 100).unwrap();
    assert_eq!(LocalAssetAdaptor::local_withdraw(&mut ledger, id, &alice, 40), Ok(40));
    assert_eq!(LocalAssetAdaptor::local_balance_of(&ledger, id, &alice), 60);
    assert_eq!(LocalAssetAdaptor::local_total_supply(&ledger, id), 60);
    assert_eq!(
        LocalAssetAdaptor::local_withdraw(&mut ledger, id, &alice, 100),
        Err(AssetError::Ledger(LedgerError::InsufficientBalance))
    );
    // A withdraw from an identifier the adaptor does not own no-ops.
    assert_eq!(LocalAssetAdaptor::local_withdraw(&mut ledger, native(), &alice, 40), Ok(0));
}

#[test]
fn deposit_overflow_is_reported() {
    let mut ledger = LocalLedger::new();
    let id = local(7);
    let alice: u128 = 1;
    assert_eq!(LocalAssetAdaptor::local_deposit(&mut ledger, id, &alice, u128::MAX), Ok(u128::MAX));
    assert_eq!(
        LocalAssetAdaptor::local_deposit(&mut ledger, id, &alice, 1),
        Err(AssetError::Ledger(LedgerError::Overflow))
    );
    assert_eq!(LocalAssetAdaptor::local_total_supply(&ledger, id), u128::MAX);
}

#[test]
fn native_ledger_moves_value() {
    let mut ledger = NativeLedger::new();
    let (alice, bob): (u128, u128) = (1, 2);
    ledger.deposit(&alice, 50).unwrap();
    assert_eq!(ledger.balance_of(&alice), 50);
    assert_eq!(ledger.total_issuance(), 50);
    assert_eq!(ledger.transfer(&alice, &bob, 20), Ok(()));
    assert_eq!(ledger.balance_of(&alice), 30);
    assert_eq!(ledger.balance_of(&bob), 20);
    assert_eq!(ledger.transfer(&alice, &bob, 31), Err(LedgerError::InsufficientBalance));
    assert_eq!(ledger.withdraw(&bob, 20), Ok(()));
    assert_eq!(ledger.total_issuance(), 30);
    assert_eq!(ledger.withdraw(&bob, 1), Err(LedgerError::InsufficientBalance));
}

#[test]
fn router_is_transparent_for_native_identifiers() {
    let mut router = AssetRouter::new(NativeLedger::new(), LocalLedger::new(), None);
    let acc: u128 = 1;
    assert_eq!(router.deposit(native(), &acc, 77), Ok(77));
    // The routed query equals the native collaborator's own answer.
    assert_eq!(router.balance_of(native(), &acc), router.native.balance_of(&acc));
    assert_eq!(router.balance_of(native(), &acc), 77);
    assert_eq!(router.total_supply(native()), router.native.total_issuance());
}

#[test]
fn router_is_transparent_for_local_identifiers() {
    let mut router = AssetRouter::new(NativeLedger::new(), LocalLedger::new(), None);
    let id = local(7);
    let (alice, bob): (u128, u128) = (1, 2);
    assert_eq!(router.deposit(id, &alice, 100), Ok(100));

    // A ledger prepared directly with the manually constructed key agrees
    // with the routed view, call for call.
    let mut direct = LocalLedger::new();
    direct.deposit(CurrencyId::Token(7), &alice, 100).unwrap();
    assert_eq!(router.balance_of(id, &alice), direct.free_balance(CurrencyId::Token(7), &alice));

    assert_eq!(router.transfer(id, &alice, &bob, 30), Ok(()));
    direct.transfer(CurrencyId::Token(7), &alice, &bob, 30).unwrap();
    assert_eq!(router.balance_of(id, &alice), direct.free_balance(CurrencyId::Token(7), &alice));
    assert_eq!(router.balance_of(id, &bob), direct.free_balance(CurrencyId::Token(7), &bob));
    assert_eq!(router.balance_of(id, &alice), router.local.free_balance(CurrencyId::Token(7), &alice));
}

#[test]
fn router_total_supply_is_idempotent() {
    let mut router = AssetRouter::new(NativeLedger::new(), LocalLedger::new(), None);
    let id = local(7);
    let acc: u128 = 1;
    router.deposit(id, &acc, 100).unwrap();
    let first = router.total_supply(id);
    let second = router.total_supply(id);
    assert_eq!(first, second);
    assert_eq!(first, 100);
}

#[test]
fn router_exists_follows_total_supply() {
    let mut router = AssetRouter::new(NativeLedger::new(), LocalLedger::new(), None);
    let id = local(7);
    let acc: u128 = 1;
    assert!(!router.asset_exists(id));
    router.deposit(id, &acc, 100).unwrap();
    assert!(router.asset_exists(id));
}

#[test]
fn reserved_operations_fail_without_a_foreign_ledger() {
    let mut router = AssetRouter::new(NativeLedger::new(), LocalLedger::new(), None);
    let (alice, bob): (u128, u128) = (1, 2);
    router.deposit(native(), &alice, 50).unwrap();
    router.deposit(local(7), &alice, 100).unwrap();

    let rid = reserved(3, 11);
    assert_eq!(
        router.transfer(rid, &alice, &bob, 10),
        Err(AssetError::NoForeignLedgerConfigured)
    );
    assert_eq!(router.deposit(rid, &alice, 10), Err(AssetError::NoForeignLedgerConfigured));
    assert_eq!(router.withdraw(rid, &alice, 10), Err(AssetError::NoForeignLedgerConfigured));

    // No balance anywhere changed.
    assert_eq!(router.balance_of(native(), &alice), 50);
    assert_eq!(router.balance_of(local(7), &alice), 100);
    assert_eq!(router.balance_of(rid, &alice), 0);
    assert_eq!(router.total_supply(rid), 0);
}

#[test]
fn reserved_operations_route_to_a_configured_foreign_ledger() {
    let mut router =
        AssetRouter::new(NativeLedger::new(), LocalLedger::new(), Some(ForeignLedger::new()));
    let (alice, bob): (u128, u128) = (1, 2);
    let rid = reserved(3, 11);
    assert_eq!(router.deposit(rid, &alice, 40), Ok(40));
    assert_eq!(router.balance_of(rid, &alice), 40);
    assert_eq!(router.total_supply(rid), 40);
    assert_eq!(router.transfer(rid, &alice, &bob, 15), Ok(()));
    assert_eq!(router.balance_of(rid, &alice), 25);
    assert_eq!(router.balance_of(rid, &bob), 15);
    // A different remote asset on the same chain is untouched.
    assert_eq!(router.balance_of(reserved(3, 12), &alice), 0);
    assert_eq!(router.withdraw(rid, &bob, 15), Ok(15));
    assert_eq!(router.total_supply(rid), 25);
}

#[test]
fn a_malformed_tag_reads_as_zero_and_fails_mutations() {
    let mut router = AssetRouter::new(NativeLedger::new(), LocalLedger::new(), None);
    let bad = AssetId { chain_id: 0, asset_type: 9, asset_index: 1 };
    let (alice, bob): (u128, u128) = (1, 2);
    assert_eq!(router.balance_of(bad, &alice), 0);
    assert_eq!(router.total_supply(bad), 0);
    assert!(!router.asset_exists(bad));
    assert_eq!(router.transfer(bad, &alice, &bob, 1), Err(AssetError::MalformedAssetIdentifier));
    assert_eq!(router.deposit(bad, &alice, 1), Err(AssetError::MalformedAssetIdentifier));
    assert_eq!(router.withdraw(bad, &alice, 1), Err(AssetError::MalformedAssetIdentifier));
}

#[test]
fn whitelists_admit_every_account() {
    let acc: u128 = 42;
    assert!(DustRemovalWhitelist::contains(&acc));
    assert!(MockDustRemovalWhitelist::contains(&acc));
}

#[test]
fn a_transfer_to_oneself_is_a_successful_noop() {
    let mut router = AssetRouter::new(NativeLedger::new(), LocalLedger::new(), None);
    let id = local(7);
    let alice: u128 = 1;
    router.deposit(id, &alice, 100).unwrap();
    assert_eq!(router.transfer(id, &alice, &alice, 60), Ok(()));
    assert_eq!(router.balance_of(id, &alice), 100);
    assert_eq!(
        router.transfer(id, &alice, &alice, 101),
        Err(AssetError::Ledger(LedgerError::InsufficientBalance))
    );
}

#[test]
fn transfer_at_the_balance_ceiling_succeeds() {
    // With deposits capped by the issuance total, a credit can reach
    // u128::MAX exactly but never pass it.
    let mut router = AssetRouter::new(NativeLedger::new(), LocalLedger::new(), None);
    let id = local(7);
    let (alice, bob): (u128, u128) = (1, 2);
    router.deposit(id, &bob, u128::MAX - 5).unwrap();
    router.deposit(id, &alice, 5).unwrap();
    assert_eq!(
        router.transfer(id, &alice, &bob, 6),
        Err(AssetError::Ledger(LedgerError::InsufficientBalance))
    );
    assert_eq!(router.transfer(id, &alice, &bob, 5), Ok(()));
    assert_eq!(router.balance_of(id, &alice), 0);
    assert_eq!(router.balance_of(id, &bob), u128::MAX);
}

#[test]
fn native_deposit_past_the_issuance_ceiling_is_an_overflow() {
    let mut router = AssetRouter::new(NativeLedger::new(), LocalLedger::new(), None);
    let (alice, bob): (u128, u128) = (1, 2);
    router.deposit(native(), &bob, u128::MAX - 5).unwrap();
    router.deposit(native(), &alice, 5).unwrap();
    assert_eq!(
        router.deposit(native(), &alice, 1),
        Err(AssetError::Ledger(LedgerError::Overflow))
    );
    assert_eq!(router.transfer(native(), &alice, &bob, 5), Ok(()));
    assert_eq!(router.balance_of(native(), &bob), u128::MAX);
}

#[test]
fn reserved_errors_surface_the_foreign_ledger_error_verbatim() {
    let mut router =
        AssetRouter::new(NativeLedger::new(), LocalLedger::new(), Some(ForeignLedger::new()));
    let rid = reserved(3, 11);
    let (alice, bob): (u128, u128) = (1, 2);
    router.deposit(rid, &alice, 40).unwrap();
    assert_eq!(
        router.transfer(rid, &alice, &bob, 41),
        Err(AssetError::Ledger(LedgerError::InsufficientBalance))
    );
    assert_eq!(
        router.withdraw(rid, &alice, 41),
        Err(AssetError::Ledger(LedgerError::InsufficientBalance))
    );
    router.deposit(rid, &bob, u128::MAX - 40).unwrap();
    assert_eq!(
        router.deposit(rid, &alice, 1),
        Err(AssetError::Ledger(LedgerError::Overflow))
    );
    assert_eq!(router.balance_of(rid, &alice), 40);
    assert_eq!(router.balance_of(rid, &bob), u128::MAX - 40);
    assert_eq!(router.total_supply(rid), u128::MAX);
}

#[test]
fn a_reserved_self_transfer_is_a_successful_noop() {
    let mut router =
        AssetRouter::new(NativeLedger::new(), LocalLedger::new(), Some(ForeignLedger::new()));
    let rid = reserved(3, 11);
    let alice: u128 = 1;
    router.deposit(rid, &alice, 40).unwrap();
    assert_eq!(router.transfer(rid, &alice, &alice, 30), Ok(()));
    assert_eq!(router.balance_of(rid, &alice), 40);
    assert_eq!(router.total_supply(rid), 40);
    // A different remote asset stays untouched by all of the above.
    assert_eq!(router.balance_of(reserved(3, 12), &alice), 0);
}
