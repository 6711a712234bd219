//! Scenario and unit tests of the ledger engine.

use sovereign_contract::account::DepositAccount;
use sovereign_contract::asset::Asset;
use sovereign_contract::errors::{GatewayError, SovereignError};
use sovereign_contract::gateway::GatewayRequest;
use sovereign_contract::identity::Identity;
use sovereign_contract::ledger::Ledger;

fn id_of(b: u8) -> Identity {
    Identity::new([b; 32])
}

fn new_ledger() -> Ledger {
    Ledger::new(id_of(0xAA))
}

fn balance(l: &Ledger, account: &Identity) -> u64 {
    l.balance_of(account).expect("account must exist")
}

#[test]
fn token_account_lifecycle() {
    // Owner O initializes a token account for asset M, deposits 500,
    // withdraws 200 to recipient R, then fails to withdraw 1000.
    let mut l = new_ledger();
    let o = id_of(1);
    let m = id_of(2);
    let acct = id_of(3);

    let plan = l.plan_initialize_token(&acct, &m).expect("plan must exist");
    assert!(matches!(plan, GatewayRequest::ProvisionVault { .. }));
    l.initialize_token(&acct, &o, &m, Ok(())).expect("init must succeed");
    assert_eq!(balance(&l, &acct), 0);

    let ev = l.deposit_token(&acct, &o, &m, 500, Ok(())).expect("deposit must succeed");
    assert_eq!(ev.owner.bytes, o.bytes);
    assert!(matches!(ev.asset, Asset::Token { mint } if mint.bytes == m.bytes));
    assert_eq!(ev.amount, 500);
    assert_eq!(ev.new_balance, 500);
    assert_eq!(balance(&l, &acct), 500);

    let r = id_of(4);
    let plan = l.plan_withdraw_token(&acct, &o, &r, &m, 200).expect("plan must exist");
    assert!(matches!(plan, GatewayRequest::TokenTransferByVaultAuthority { .. }));
    let ev = l.withdraw_token(&acct, &o, &m, 200, Ok(())).expect("withdraw must succeed");
    assert_eq!(ev.owner.bytes, o.bytes);
    assert_eq!(ev.amount, 200);
    assert_eq!(ev.new_balance, 300);
    assert_eq!(balance(&l, &acct), 300);

    let denied = l.plan_withdraw_token(&acct, &o, &r, &m, 1000);
    assert_eq!(denied.unwrap_err(), SovereignError::InsufficientBalance);
    let denied = l.withdraw_token(&acct, &o, &m, 1000, Ok(()));
    assert_eq!(denied.unwrap_err(), SovereignError::InsufficientBalance);
    assert_eq!(balance(&l, &acct), 300);
}

#[test]
fn non_owner_withdraw_is_unauthorized() {
    // Caller C is not the owner: no plan comes back, so no transfer is
    // ever attempted, and the balance stands.
    let mut l = new_ledger();
    let o = id_of(1);
    let c = id_of(9);
    let acct = id_of(3);
    l.initialize(&acct, &o).unwrap();
    l.deposit(&acct, &o, 50, Ok(())).unwrap();

    let plan = l.plan_withdraw(&acct, &c, &c, 10);
    assert_eq!(plan.unwrap_err(), SovereignError::Unauthorized);
    let r = l.withdraw(&acct, &c, 10, Ok(()));
    assert_eq!(r.unwrap_err(), SovereignError::Unauthorized);
    assert_eq!(balance(&l, &acct), 50);
}

#[test]
fn non_owner_deposit_is_unauthorized() {
    let mut l = new_ledger();
    let o = id_of(1);
    let c = id_of(9);
    let acct = id_of(3);
    l.initialize(&acct, &o).unwrap();

    let plan = l.plan_deposit(&acct, &c, 10);
    assert_eq!(plan.unwrap_err(), SovereignError::Unauthorized);
    let r = l.deposit(&acct, &c, 10, Ok(()));
    assert_eq!(r.unwrap_err(), SovereignError::Unauthorized);
    assert_eq!(balance(&l, &acct), 0);
}

#[test]
fn gateway_failure_leaves_ledger_unchanged() {
    // The gateway reports insufficient external funds on a deposit of
    // 100: the call fails with TransferFailed and nothing moves.
    let mut l = new_ledger();
    let o = id_of(1);
    let acct = id_of(3);
    l.initialize(&acct, &o).unwrap();
    l.deposit(&acct, &o, 40, Ok(())).unwrap();

    let r = l.deposit(&acct, &o, 100, Err(GatewayError::InsufficientFunds));
    assert_eq!(r.unwrap_err(), SovereignError::TransferFailed);
    assert_eq!(balance(&l, &acct), 40);

    let r = l.withdraw(&acct, &o, 10, Err(GatewayError::Unauthorized));
    assert_eq!(r.unwrap_err(), SovereignError::TransferFailed);
    assert_eq!(balance(&l, &acct), 40);
}

#[test]
fn same_identity_cannot_be_initialized_twice() {
    let mut l = new_ledger();
    let o = id_of(1);
    let other = id_of(2);
    let acct = id_of(3);
    l.initialize(&acct, &o).unwrap();
    l.deposit(&acct, &o, 7, Ok(())).unwrap();

    let r = l.initialize(&acct, &other);
    assert_eq!(r.unwrap_err(), SovereignError::AlreadyExists);
    let r = l.initialize_token(&acct, &other, &id_of(5), Ok(()));
    assert_eq!(r.unwrap_err(), SovereignError::AlreadyExists);
    let r = l.plan_initialize_token(&acct, &id_of(5));
    assert_eq!(r.unwrap_err(), SovereignError::AlreadyExists);

    // The first account is untouched.
    let a = l.lookup(&acct).unwrap();
    assert_eq!(a.owner.bytes, o.bytes);
    assert!(matches!(a.asset, Asset::Native));
    assert_eq!(a.balance, 7);
}

#[test]
fn same_owner_different_assets_are_independent() {
    // One owner, a native account and a token account: operations on
    // one never touch the other.
    let mut l = new_ledger();
    let o = id_of(1);
    let m = id_of(2);
    let native_acct = id_of(3);
    let token_acct = id_of(4);
    l.initialize(&native_acct, &o).unwrap();
    l.initialize_token(&token_acct, &o, &m, Ok(())).unwrap();

    l.deposit(&native_acct, &o, 111, Ok(())).unwrap();
    assert_eq!(balance(&l, &native_acct), 111);
    assert_eq!(balance(&l, &token_acct), 0);

    l.deposit_token(&token_acct, &o, &m, 222, Ok(())).unwrap();
    l.withdraw(&native_acct, &o, 11, Ok(())).unwrap();
    assert_eq!(balance(&l, &native_acct), 100);
    assert_eq!(balance(&l, &token_acct), 222);
}

#[test]
fn asset_mismatch_is_refused() {
    let mut l = new_ledger();
    let o = id_of(1);
    let m = id_of(2);
    let wrong_mint = id_of(6);
    let native_acct = id_of(3);
    let token_acct = id_of(4);
    l.initialize(&native_acct, &o).unwrap();
    l.initialize_token(&token_acct, &o, &m, Ok(())).unwrap();

    // A token move against a native account, and the reverse.
    let r = l.deposit_token(&native_acct, &o, &m, 5, Ok(()));
    assert_eq!(r.unwrap_err(), SovereignError::AssetMismatch);
    let r = l.deposit(&token_acct, &o, 5, Ok(()));
    assert_eq!(r.unwrap_err(), SovereignError::AssetMismatch);
    // The right account but the wrong mint.
    let r = l.withdraw_token(&token_acct, &o, &wrong_mint, 5, Ok(()));
    assert_eq!(r.unwrap_err(), SovereignError::AssetMismatch);
    let r = l.plan_deposit_token(&token_acct, &o, &wrong_mint, 5);
    assert_eq!(r.unwrap_err(), SovereignError::AssetMismatch);
    assert_eq!(balance(&l, &native_acct), 0);
    assert_eq!(balance(&l, &token_acct), 0);
}

#[test]
fn vault_provision_failure_rolls_back() {
    let mut l = new_ledger();
    let o = id_of(1);
    let m = id_of(2);
    let acct = id_of(3);

    let r = l.initialize_token(&acct, &o, &m, Err(GatewayError::AssetMismatch));
    assert_eq!(r.unwrap_err(), SovereignError::VaultProvisionError);
    assert!(l.lookup(&acct).is_none());

    // The reserved native sentinel is not a valid token descriptor.
    let sentinel = Identity::new([0u8; 32]);
    let r = l.plan_initialize_token(&acct, &sentinel);
    assert_eq!(r.unwrap_err(), SovereignError::VaultProvisionError);
    let r = l.initialize_token(&acct, &o, &sentinel, Ok(()));
    assert_eq!(r.unwrap_err(), SovereignError::VaultProvisionError);
    assert!(l.lookup(&acct).is_none());
}

#[test]
fn balance_is_net_of_flows() {
    // 10 + 30 - 25 + 5 - 1 = 19, and the running balance never dips
    // below zero.
    let mut l = new_ledger();
    let o = id_of(1);
    let acct = id_of(3);
    l.initialize(&acct, &o).unwrap();
    l.deposit(&acct, &o, 10, Ok(())).unwrap();
    l.deposit(&acct, &o, 30, Ok(())).unwrap();
    l.withdraw(&acct, &o, 25, Ok(())).unwrap();
    l.deposit(&acct, &o, 5, Ok(())).unwrap();
    l.withdraw(&acct, &o, 1, Ok(())).unwrap();
    assert_eq!(balance(&l, &acct), (10 + 30 + 5) - (25 + 1));
}

#[test]
fn balance_spans_the_whole_range() {
    let mut l = new_ledger();
    let o = id_of(1);
    let acct = id_of(3);
    l.initialize(&acct, &o).unwrap();
    l.deposit(&acct, &o, u64::MAX, Ok(())).unwrap();
    assert_eq!(balance(&l, &acct), u64::MAX);
    l.withdraw(&acct, &o, u64::MAX, Ok(())).unwrap();
    assert_eq!(balance(&l, &acct), 0);
}

#[test]
fn plans_carry_the_validated_movement() {
    let mut l = new_ledger();
    let o = id_of(1);
    let m = id_of(2);
    let acct = id_of(3);
    let token_acct = id_of(4);
    let rcpt = id_of(5);
    l.initialize(&acct, &o).unwrap();
    l.initialize_token(&token_acct, &o, &m, Ok(())).unwrap();
    l.deposit(&acct, &o, 100, Ok(())).unwrap();
    l.deposit_token(&token_acct, &o, &m, 100, Ok(())).unwrap();

    match l.plan_deposit(&acct, &o, 60).unwrap() {
        GatewayRequest::NativeTransfer { from, to, amount } => {
            assert_eq!(from.bytes, o.bytes);
            assert_eq!(to.bytes, acct.bytes);
            assert_eq!(amount, 60);
        }
        other => panic!("unexpected plan: {:?}", other),
    }
    match l.plan_withdraw(&acct, &o, &rcpt, 60).unwrap() {
        GatewayRequest::NativeTransfer { from, to, amount } => {
            assert_eq!(from.bytes, acct.bytes);
            assert_eq!(to.bytes, rcpt.bytes);
            assert_eq!(amount, 60);
        }
        other => panic!("unexpected plan: {:?}", other),
    }
    match l.plan_deposit_token(&token_acct, &o, &m, 70).unwrap() {
        GatewayRequest::TokenTransferBySigner { mint, signer, vault_of, amount } => {
            assert_eq!(mint.bytes, m.bytes);
            assert_eq!(signer.bytes, o.bytes);
            assert_eq!(vault_of.bytes, token_acct.bytes);
            assert_eq!(amount, 70);
        }
        other => panic!("unexpected plan: {:?}", other),
    }
    match l.plan_withdraw_token(&token_acct, &o, &rcpt, &m, 70).unwrap() {
        GatewayRequest::TokenTransferByVaultAuthority {
            mint,
            vault_of,
            recipient,
            amount,
            authority,
            bump,
        } => {
            assert_eq!(mint.bytes, m.bytes);
            assert_eq!(vault_of.bytes, token_acct.bytes);
            assert_eq!(recipient.bytes, rcpt.bytes);
            assert_eq!(amount, 70);
            let (expect_auth, expect_bump) =
                l.vault_authority(&token_acct).expect("derivation must succeed");
            assert_eq!(authority.bytes, expect_auth.bytes);
            assert_eq!(bump, expect_bump);
        }
        other => panic!("unexpected plan: {:?}", other),
    }
}

#[test]
fn native_account_lifecycle() {
    let mut l = new_ledger();
    let o = id_of(1);
    let acct = id_of(3);
    let rcpt = id_of(5);
    l.initialize(&acct, &o).unwrap();

    let ev = l.deposit(&acct, &o, 500, Ok(())).unwrap();
    assert!(matches!(ev.asset, Asset::Native));
    assert_eq!(ev.new_balance, 500);

    let plan = l.plan_withdraw(&acct, &o, &rcpt, 200).unwrap();
    assert!(matches!(plan, GatewayRequest::NativeTransfer { .. }));
    let ev = l.withdraw(&acct, &o, 200, Ok(())).unwrap();
    assert_eq!(ev.new_balance, 300);
    assert_eq!(balance(&l, &acct), 300);
}

#[test]
fn lookup_reports_missing_accounts() {
    let l = new_ledger();
    assert!(l.lookup(&id_of(3)).is_none());
    assert!(l.balance_of(&id_of(3)).is_none());
}

#[test]
fn ledger_keeps_its_program_identity() {
    let l = Ledger::new(id_of(0x77));
    assert_eq!(l.program_id().bytes, [0x77; 32]);
}

#[test]
fn decode_refuses_wrong_lengths() {
    assert!(DepositAccount::decode(&[0u8; 71]).is_none());
    assert!(DepositAccount::decode(&[0u8; 73]).is_none());
    assert!(DepositAccount::decode(&[]).is_none());
}
