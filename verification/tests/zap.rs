use zap_dispatcher::account::AccountId;
use zap_dispatcher::zap::{Contract, InitError, ZapCall};

fn account(s: &str) -> AccountId {
    AccountId::parse(s).unwrap()
}

#[test]
fn test_zap() {
    let contract = Contract::new();
    let token_in: AccountId = account("wrap.testnet");
    let token1: AccountId = account("ref.fakes.testnet");
    let token2: AccountId = account("paras.fakes.testnet");

    contract.zap(11, token_in, token1, token2, 5);
}

#[test]
fn zap_scenario_eleven() {
    let contract = Contract::new();
    let call: ZapCall = contract.zap(
        11,
        account("wrap.testnet"),
        account("ref.fakes.testnet"),
        account("paras.fakes.testnet"),
        5,
    );

    assert_eq!(call.receiver.as_str(), "exchange.ref-dev.testnet");
    assert_eq!(call.actions.len(), 2);

    let first = &call.actions[0];
    assert_eq!(first.pool_id, 269);
    assert_eq!(first.token_in.as_str(), "wrap.testnet");
    assert_eq!(first.token_out.as_str(), "ref.fakes.testnet");
    assert_eq!(first.amount_in, Some(5));
    assert_eq!(first.min_amount_out, 0);

    let second = &call.actions[1];
    assert_eq!(second.pool_id, 103);
    assert_eq!(second.token_in.as_str(), "wrap.testnet");
    assert_eq!(second.token_out.as_str(), "paras.fakes.testnet");
    assert_eq!(second.amount_in, Some(5));
    assert_eq!(second.min_amount_out, 0);

    assert!(call.referral_id.is_none());
    assert_eq!(call.deposit, 0);
    assert_eq!(call.gas, 110_000_000_000_000);
}

#[test]
fn zap_even_amount_splits_exactly() {
    let contract = Contract::new();
    let call = contract.zap(
        10,
        account("wrap.testnet"),
        account("ref.fakes.testnet"),
        account("paras.fakes.testnet"),
        0,
    );
    let a = call.actions[0].amount_in.unwrap();
    let b = call.actions[1].amount_in.unwrap();
    assert_eq!(a, 5);
    assert_eq!(b, 5);
    assert_eq!(a + b, 10);
}

#[test]
fn zap_large_even_amount_splits_exactly() {
    let contract = Contract::new();
    let input: u128 = u128::MAX - 1; // even
    let call = contract.zap(
        input,
        account("wrap.testnet"),
        account("ref.fakes.testnet"),
        account("paras.fakes.testnet"),
        0,
    );
    let a = call.actions[0].amount_in.unwrap();
    let b = call.actions[1].amount_in.unwrap();
    assert_eq!(a, input / 2);
    assert_eq!(b, input / 2);
    assert_eq!(a + b, input);
}

#[test]
fn zap_odd_amount_loses_one_unit() {
    let contract = Contract::new();
    let call = contract.zap(
        11,
        account("wrap.testnet"),
        account("ref.fakes.testnet"),
        account("paras.fakes.testnet"),
        0,
    );
    let a = call.actions[0].amount_in.unwrap();
    let b = call.actions[1].amount_in.unwrap();
    assert_eq!(a + b, 10);
}

#[test]
fn zap_first_action_amount_always_present() {
    let contract = Contract::new();
    let call = contract.zap(
        0,
        account("wrap.testnet"),
        account("ref.fakes.testnet"),
        account("paras.fakes.testnet"),
        7,
    );
    assert!(call.actions[0].amount_in.is_some());
}

#[test]
fn zap_min_amount_out_always_zero() {
    let contract = Contract::new();
    let call = contract.zap(
        123_456_789,
        account("wrap.testnet"),
        account("ref.fakes.testnet"),
        account("paras.fakes.testnet"),
        42,
    );
    assert_eq!(call.actions[0].min_amount_out, 0);
    assert_eq!(call.actions[1].min_amount_out, 0);
}

#[test]
fn zap_pool_selector_never_consulted() {
    let selectors: [u32; 4] = [0, 1, 5, u32::MAX];
    let mut calls: Vec<ZapCall> = Vec::new();
    for selector in selectors {
        let contract = Contract::new();
        calls.push(contract.zap(
            11,
            account("wrap.testnet"),
            account("ref.fakes.testnet"),
            account("paras.fakes.testnet"),
            selector,
        ));
    }
    let reference = &calls[0];
    for call in &calls {
        assert_eq!(call.receiver.as_str(), reference.receiver.as_str());
        assert_eq!(call.actions.len(), reference.actions.len());
        for (a, b) in call.actions.iter().zip(reference.actions.iter()) {
            assert_eq!(a.pool_id, b.pool_id);
            assert_eq!(a.token_in.as_str(), b.token_in.as_str());
            assert_eq!(a.amount_in, b.amount_in);
            assert_eq!(a.token_out.as_str(), b.token_out.as_str());
            assert_eq!(a.min_amount_out, b.min_amount_out);
        }
        assert!(call.referral_id.is_none());
        assert_eq!(call.deposit, reference.deposit);
        assert_eq!(call.gas, reference.gas);
    }
    assert_eq!(reference.actions[0].pool_id, 269);
    assert_eq!(reference.actions[1].pool_id, 103);
}

#[test]
fn initialize_once_succeeds() {
    let contract = Contract::initialize(false).unwrap();
    let call = contract.zap(
        2,
        account("wrap.testnet"),
        account("ref.fakes.testnet"),
        account("paras.fakes.testnet"),
        0,
    );
    assert_eq!(call.receiver.as_str(), "exchange.ref-dev.testnet");
}

#[test]
fn initialize_twice_fails() {
    let result = Contract::initialize(true);
    assert!(matches!(result, Err(InitError::AlreadyInitialized)));
}
