use secret_cosmwasm_std::{CosmosMsg, HumanAddr, WasmMsg};
use token_swap::contract::{
    accepted_token_available, authenticate_token, execute, handle, init, normalize,
    offered_token_available, public_config, query, receive, withdraw_funding, BalanceQuery,
    DepositEvent, QueryAction, Request, SetupInstruction, TransferInstruction,
    RESPONSE_BLOCK_SIZE,
};
use token_swap::error::ContractError;
use token_swap::ledger::{setup_messages, transfer_messages};
use token_swap::msg::{HandleMsg, InitMsg, QueryMsg};
use token_swap::state::{ForwardPolicy, SecretContract, State};

fn token(address: &str, hash: &str) -> SecretContract {
    SecretContract { address: address.to_string(), contract_hash: hash.to_string() }
}

fn x() -> SecretContract {
    token("x_ledger", "x_hash")
}

fn y() -> SecretContract {
    token("y_ledger", "y_hash")
}

fn setup(policy: ForwardPolicy, rate: u128) -> State {
    let msg = InitMsg {
        accepted_token: x(),
        offered_token: y(),
        exchange_rate: rate,
        viewing_key: "key".to_string(),
        forward_policy: policy,
    };
    init("A".to_string(), "self".to_string(), "self_hash".to_string(), msg).0
}

fn s(v: &str) -> String {
    v.to_string()
}

#[test]
fn init_record_and_setup_calls() {
    let msg = InitMsg {
        accepted_token: x(),
        offered_token: y(),
        exchange_rate: 123,
        viewing_key: "key".to_string(),
        forward_policy: ForwardPolicy::Accrue,
    };
    let (state, calls) = init(s("A"), s("self"), s("self_hash"), msg);
    assert_eq!(
        state,
        State {
            accepted_token: x(),
            admin: s("A"),
            offered_token: y(),
            exchange_rate: 123,
            contract_address: s("self"),
            total_raised: 0,
            viewing_key: s("key"),
            forward_policy: ForwardPolicy::Accrue,
            sale_end_time: None,
        }
    );
    assert_eq!(
        calls,
        vec![
            SetupInstruction::RegisterReceive { code_hash: s("self_hash"), token: x() },
            SetupInstruction::SetViewingKey { key: s("key"), token: y() },
        ]
    );
    let encoded = setup_messages(&calls);
    assert_eq!(encoded.len(), 2);
    match &encoded[0].msg {
        CosmosMsg::Wasm(WasmMsg::Execute { contract_addr, callback_code_hash, msg, .. }) => {
            assert_eq!(contract_addr, &HumanAddr(s("x_ledger")));
            assert_eq!(callback_code_hash, "x_hash");
            let text = String::from_utf8(msg.0.clone()).unwrap();
            assert!(text.contains("register_receive"));
            assert!(text.contains("\"code_hash\":\"self_hash\""));
            // The subscription is sent unpadded.
            assert!(!text.ends_with(' '));
        }
        other => panic!("unexpected message {:?}", other),
    }
    match &encoded[1].msg {
        CosmosMsg::Wasm(WasmMsg::Execute { contract_addr, callback_code_hash, msg, .. }) => {
            assert_eq!(contract_addr, &HumanAddr(s("y_ledger")));
            assert_eq!(callback_code_hash, "y_hash");
            let text = String::from_utf8(msg.0.clone()).unwrap();
            assert!(text.contains("set_viewing_key"));
            assert!(text.contains("\"key\":\"key\""));
            assert_eq!(msg.0.len() % RESPONSE_BLOCK_SIZE, 0);
        }
        other => panic!("unexpected message {:?}", other),
    }
}

#[test]
fn config_after_init_round_trip() {
    let state = setup(ForwardPolicy::ImmediateForward, 123);
    let c = public_config(&state);
    assert_eq!(c.admin, "A");
    assert_eq!(c.accepted_token, x());
    assert_eq!(c.offered_token, y());
    assert_eq!(c.exchange_rate, 123);
    assert_eq!(c.total_raised, 0);
}

#[test]
fn deposit_from_ledger_pays_rate_times_amount() {
    let mut state = setup(ForwardPolicy::Accrue, 123);
    let out = receive(&mut state, &s("x_ledger"), s("U"), 333).unwrap();
    assert_eq!(out, vec![TransferInstruction { token: y(), recipient: s("U"), amount: 40959 }]);
    assert_eq!(state.total_raised, 333);
}

#[test]
fn deposit_with_immediate_forward_sends_amount_to_admin() {
    let mut state = setup(ForwardPolicy::ImmediateForward, 123);
    let out = handle(&mut state, &s("x_ledger"), HandleMsg::Deposit { from: s("U"), amount: 333 })
        .unwrap();
    assert_eq!(
        out,
        vec![
            TransferInstruction { token: y(), recipient: s("U"), amount: 40959 },
            TransferInstruction { token: x(), recipient: s("A"), amount: 333 },
        ]
    );
    assert_eq!(state.total_raised, 333);
}

#[test]
fn deposit_from_user_is_rejected() {
    let mut state = setup(ForwardPolicy::ImmediateForward, 123);
    let before = state.clone();
    let err = handle(
        &mut state,
        &s("U"),
        HandleMsg::Receive { sender: s("U"), from: s("U"), amount: 333, msg: vec![] },
    )
    .unwrap_err();
    assert_eq!(err, ContractError::UnsupportedToken { supported: s("x_ledger"), given: s("U") });
    assert_eq!(err.message(), "This token is not supported. Supported: x_ledger, given: U");
    assert_eq!(state, before);
    assert_eq!(state.total_raised, 0);
}

#[test]
fn deposit_product_overflow_changes_nothing() {
    let mut state = setup(ForwardPolicy::Accrue, 2);
    let before = state.clone();
    let err = receive(&mut state, &s("x_ledger"), s("U"), u128::MAX / 2 + 1).unwrap_err();
    assert_eq!(err, ContractError::Overflow);
    assert_eq!(state, before);
}

#[test]
fn deposit_total_overflow_changes_nothing() {
    let mut state = setup(ForwardPolicy::Accrue, 1);
    receive(&mut state, &s("x_ledger"), s("U"), u128::MAX).unwrap();
    let before = state.clone();
    let err = receive(&mut state, &s("x_ledger"), s("U"), 1).unwrap_err();
    assert_eq!(err, ContractError::Overflow);
    assert_eq!(state, before);
}

#[test]
fn deposit_of_zero_and_rate_zero() {
    let mut state = setup(ForwardPolicy::Accrue, 0);
    let out = receive(&mut state, &s("x_ledger"), s("U"), 5).unwrap();
    assert_eq!(out[0].amount, 0);
    let out = receive(&mut state, &s("x_ledger"), s("U"), 0).unwrap();
    assert_eq!(out[0].amount, 0);
    assert_eq!(state.total_raised, 5);
}

#[test]
fn withdrawal_by_non_admin_is_refused() {
    let state = setup(ForwardPolicy::Accrue, 123);
    let err = withdraw_funding(&state, &s("U"), 123).unwrap_err();
    assert_eq!(err, ContractError::Unauthorized { given: s("U") });
    assert_eq!(err.message(), "unauthorized");
}

#[test]
fn withdrawal_by_admin_ignores_total() {
    let mut state = setup(ForwardPolicy::Accrue, 123);
    let out = handle(&mut state, &s("A"), HandleMsg::WithdrawFunding { amount: 123 }).unwrap();
    assert_eq!(out, vec![TransferInstruction { token: x(), recipient: s("A"), amount: 123 }]);
    assert_eq!(state.total_raised, 0);
    let out = handle(&mut state, &s("A"), HandleMsg::WithdrawFunding { amount: u128::MAX }).unwrap();
    assert_eq!(out[0].amount, u128::MAX);
}

#[test]
fn terms_stay_fixed_over_many_calls() {
    let mut state = setup(ForwardPolicy::ImmediateForward, 7);
    let first = public_config(&state);
    let _ = handle(&mut state, &s("x_ledger"), HandleMsg::Deposit { from: s("U"), amount: 10 });
    let _ = handle(&mut state, &s("U"), HandleMsg::Deposit { from: s("U"), amount: 10 });
    let _ = handle(&mut state, &s("A"), HandleMsg::WithdrawFunding { amount: 3 });
    let _ = handle(&mut state, &s("U"), HandleMsg::WithdrawFunding { amount: 3 });
    let _ = handle(&mut state, &s("x_ledger"), HandleMsg::Deposit { from: s("V"), amount: 5 });
    let last = public_config(&state);
    assert_eq!(last.admin, first.admin);
    assert_eq!(last.accepted_token, first.accepted_token);
    assert_eq!(last.offered_token, first.offered_token);
    assert_eq!(last.exchange_rate, first.exchange_rate);
    assert_eq!(last.total_raised, 15);
    assert_eq!(state.viewing_key, "key");
}

#[test]
fn both_notification_shapes_normalize_alike() {
    let a = normalize(HandleMsg::Receive { sender: s("S"), from: s("U"), amount: 9, msg: vec![1] });
    assert_eq!(a, Request::Deposit(DepositEvent { from: s("U"), amount: 9, payload: Some(vec![1]) }));
    let b = normalize(HandleMsg::Deposit { from: s("U"), amount: 9 });
    assert_eq!(b, Request::Deposit(DepositEvent { from: s("U"), amount: 9, payload: None }));
    let c = normalize(HandleMsg::WithdrawFunding { amount: 4 });
    assert_eq!(c, Request::Withdraw { amount: 4 });
}

#[test]
fn authenticate_token_checks_caller_only() {
    let state = setup(ForwardPolicy::Accrue, 1);
    assert!(authenticate_token(&state, &s("x_ledger")).is_ok());
    assert!(authenticate_token(&state, &s("y_ledger")).is_err());
}

#[test]
fn balance_queries_use_viewing_key() {
    let state = setup(ForwardPolicy::Accrue, 1);
    let q = offered_token_available(&state);
    assert_eq!(q, BalanceQuery { holder: s("self"), key: s("key"), token: y() });
    let q = accepted_token_available(&state);
    assert_eq!(q, BalanceQuery { holder: s("self"), key: s("key"), token: x() });
    assert_eq!(
        query(&state, QueryMsg::OfferedTokenAvailable {}),
        QueryAction::Balance(BalanceQuery { holder: s("self"), key: s("key"), token: y() })
    );
    assert_eq!(
        query(&state, QueryMsg::AcceptedTokenAvailable {}),
        QueryAction::Balance(BalanceQuery { holder: s("self"), key: s("key"), token: x() })
    );
}

#[test]
fn error_texts() {
    assert_eq!(ContractError::Overflow.message(), "arithmetic overflow");
    assert_eq!(ContractError::ConfigNotFound.message(), "configuration not found");
    assert_eq!(
        ContractError::StorageCorruption { detail: s("bad") }.message(),
        "Stored configuration is corrupted: bad"
    );
}

#[test]
fn execute_encodes_transfers_to_the_right_ledgers() {
    let mut state = setup(ForwardPolicy::ImmediateForward, 123);
    let msgs = execute(&mut state, &s("x_ledger"), HandleMsg::Deposit { from: s("U"), amount: 333 })
        .unwrap();
    assert_eq!(msgs.len(), 2);
    assert_eq!(state.total_raised, 333);
    match &msgs[0].msg {
        CosmosMsg::Wasm(WasmMsg::Execute { contract_addr, callback_code_hash, msg, .. }) => {
            assert_eq!(contract_addr, &HumanAddr(s("y_ledger")));
            assert_eq!(callback_code_hash, "y_hash");
            let text = String::from_utf8(msg.0.clone()).unwrap();
            assert!(text.contains("\"recipient\":\"U\""));
            assert!(text.contains("\"amount\":\"40959\""));
            assert_eq!(msg.0.len() % RESPONSE_BLOCK_SIZE, 0);
        }
        other => panic!("unexpected message {:?}", other),
    }
    match &msgs[1].msg {
        CosmosMsg::Wasm(WasmMsg::Execute { contract_addr, .. }) => {
            assert_eq!(contract_addr, &HumanAddr(s("x_ledger")));
        }
        other => panic!("unexpected message {:?}", other),
    }
}

#[test]
fn execute_failure_leaves_record() {
    let mut state = setup(ForwardPolicy::ImmediateForward, 123);
    let before = state.clone();
    let err = execute(&mut state, &s("U"), HandleMsg::WithdrawFunding { amount: 1 }).unwrap_err();
    assert_eq!(err, ContractError::Unauthorized { given: s("U") });
    assert_eq!(state, before);
}

#[test]
fn transfer_messages_keep_count() {
    let t = vec![
        TransferInstruction { token: y(), recipient: s("U"), amount: 1 },
        TransferInstruction { token: x(), recipient: s("A"), amount: 2 },
        TransferInstruction { token: x(), recipient: s("B"), amount: 3 },
    ];
    let encoded = transfer_messages(&t, RESPONSE_BLOCK_SIZE);
    assert_eq!(encoded.len(), 3);
    let expected = [("y_ledger", "U", "1"), ("x_ledger", "A", "2"), ("x_ledger", "B", "3")];
    for (m, (ledger, recipient, amount)) in encoded.iter().zip(expected.iter()) {
        match &m.msg {
            CosmosMsg::Wasm(WasmMsg::Execute { contract_addr, msg, .. }) => {
                assert_eq!(contract_addr, &HumanAddr(s(ledger)));
                let text = String::from_utf8(msg.0.clone()).unwrap();
                assert!(text.contains(&format!("\"recipient\":\"{}\"", recipient)));
                assert!(text.contains(&format!("\"amount\":\"{}\"", amount)));
            }
            other => panic!("unexpected message {:?}", other),
        }
    }
    assert_eq!(transfer_messages(&vec![], RESPONSE_BLOCK_SIZE).len(), 0);
}
