//! Scenarios for the Result Interpreter: each revealed result kind, on both
//! the confirmed-success and the confirmed-failure path.

use lottery::actions::create_lottery;
use lottery::actions::create_lottery_complete;
use lottery::actions::initialize;
use lottery::actions::variable_opened;
use lottery::events::ContractContext;
use lottery::events::EventGroup;
use lottery::events::FailureReason;
use lottery::lottery::LotteryStatus;
use lottery::state::ContractState;
use lottery::zk::CalculationStatus;
use lottery::zk::SecretVarId;
use lottery::zk::VariableKind;
use lottery::zk::ZkState;
use lottery::zk::ZkStateChange;
use lottery::zk::ZkVariable;

const TOKEN: u128 = 800;
const API: u128 = 700;
const CONTRACT: u128 = 900;
const ALICE: u128 = 10;

fn interp_ctx(sender: u128) -> ContractContext {
    ContractContext { contract_address: CONTRACT, sender, block_production_time: 0 }
}

fn interp_zk(variables: Vec<ZkVariable>) -> ZkState {
    ZkState { calculation_state: CalculationStatus::Waiting, variables }
}

fn interp_fresh_state() -> ContractState {
    initialize(interp_ctx(ALICE), interp_zk(vec![]), TOKEN, API)
}

/// Sixteen little-endian bytes of `amount`, then one success byte.
fn encode_result(amount: u128, successful: bool) -> Vec<u8> {
    let mut bytes = amount.to_le_bytes().to_vec();
    bytes.push(if successful { 1 } else { 0 });
    bytes
}

/// Two sixteen-byte little-endian values, then one success byte.
fn encode_draw_result(lottery_id: u128, winner_id: u128, successful: bool) -> Vec<u8> {
    let mut bytes = lottery_id.to_le_bytes().to_vec();
    bytes.extend_from_slice(&winner_id.to_le_bytes());
    bytes.push(if successful { 1 } else { 0 });
    bytes
}

fn revealed_var(id: u32, owner: u128, metadata: VariableKind, data: Vec<u8>) -> ZkVariable {
    ZkVariable { variable_id: SecretVarId::new(id), owner, metadata, data: Some(data) }
}

fn assert_deletes_only(changes: &[ZkStateChange], id: u32) {
    assert_eq!(changes.len(), 1);
    match &changes[0] {
        ZkStateChange::DeleteVariables { variables_to_delete } => {
            assert_eq!(variables_to_delete.len(), 1);
            assert_eq!(variables_to_delete[0].raw_id, id);
        }
        other => panic!("expected a deletion of the revealed variable, got {:?}", other),
    }
}

/// A state holding one lottery whose pending secret state is installed, as
/// it stands right after the creation computation completed.
fn state_with_pending_lottery(lottery_id: u128) -> ContractState {
    let state = interp_fresh_state();
    let (state, _, _) =
        create_lottery(interp_ctx(ALICE), state, interp_zk(vec![]), lottery_id, 1000, 5, 100);
    // outputs: creator account, lottery account, secret state, result
    let outs = vec![
        ZkVariable {
            variable_id: SecretVarId::new(20),
            owner: ALICE,
            metadata: VariableKind::UserAccount { owner: ALICE },
            data: None,
        },
        ZkVariable {
            variable_id: SecretVarId::new(21),
            owner: ALICE,
            metadata: VariableKind::LotteryAccount { owner: ALICE, lottery_id },
            data: None,
        },
        ZkVariable {
            variable_id: SecretVarId::new(22),
            owner: ALICE,
            metadata: VariableKind::SecretLotteryStateData { lottery_id },
            data: None,
        },
        ZkVariable {
            variable_id: SecretVarId::new(23),
            owner: ALICE,
            metadata: VariableKind::LotteryCreationResult { owner: ALICE, lottery_id },
            data: None,
        },
    ];
    let ids = vec![
        SecretVarId::new(20),
        SecretVarId::new(21),
        SecretVarId::new(22),
        SecretVarId::new(23),
    ];
    let (state, _, _) =
        create_lottery_complete(interp_ctx(ALICE), state, interp_zk(outs), ids);
    state
}

#[test]
fn lottery_creation_completion_records_pending_handle() {
    let state = state_with_pending_lottery(5);
    let lottery = state.get_lottery(&5).unwrap();
    assert!(matches!(lottery.status, LotteryStatus::Pending));
    assert_eq!(lottery.secret_state_id, None);
    assert_eq!(lottery.pending_secret_state_id, Some(SecretVarId::new(22)));
}

#[test]
fn successful_creation_reveal_opens_lottery_and_promotes_pending() {
    let state = state_with_pending_lottery(5);
    let result_var = revealed_var(
        23,
        ALICE,
        VariableKind::LotteryCreationResult { owner: ALICE, lottery_id: 5 },
        encode_result(100, true),
    );
    let (state, events, changes) = variable_opened(
        interp_ctx(ALICE),
        state,
        interp_zk(vec![result_var]),
        vec![SecretVarId::new(23)],
    );
    assert_deletes_only(&changes, 23);
    assert!(events.is_empty());
    let lottery = state.get_lottery(&5).unwrap();
    assert!(matches!(lottery.status, LotteryStatus::Open));
    assert_eq!(lottery.secret_state_id, Some(SecretVarId::new(22)));
    assert_eq!(lottery.pending_secret_state_id, None);
}

#[test]
fn failed_creation_reveal_keeps_pending_status_and_discards_handle() {
    let state = state_with_pending_lottery(5);
    let result_var = revealed_var(
        23,
        ALICE,
        VariableKind::LotteryCreationResult { owner: ALICE, lottery_id: 5 },
        encode_result(100, false),
    );
    let (state, events, changes) = variable_opened(
        interp_ctx(ALICE),
        state,
        interp_zk(vec![result_var]),
        vec![SecretVarId::new(23)],
    );
    assert_deletes_only(&changes, 23);
    assert_eq!(events.len(), 1);
    assert!(matches!(
        events[0],
        EventGroup::DeferredFailure {
            target: CONTRACT,
            reason: FailureReason::LotteryCreationFailed { lottery_id: 5 }
        }
    ));
    let lottery = state.get_lottery(&5).unwrap();
    assert!(matches!(lottery.status, LotteryStatus::Pending));
    assert_eq!(lottery.secret_state_id, None);
    assert_eq!(lottery.pending_secret_state_id, None);
    // the discarded handle awaits deletion with the next cleanup
    assert!(state.redundant_variables.iter().any(|v| v.raw_id == 22));
}

#[test]
fn successful_account_creation_reveal_records_key_mapping() {
    let state = interp_fresh_state();
    let result_var = revealed_var(
        4,
        ALICE,
        VariableKind::AccountCreationResult { owner: ALICE, account_key: 42 },
        encode_result(0, true),
    );
    let (state, events, changes) = variable_opened(
        interp_ctx(ALICE),
        state,
        interp_zk(vec![result_var]),
        vec![SecretVarId::new(4)],
    );
    assert_deletes_only(&changes, 4);
    assert!(events.is_empty());
    assert_eq!(state.ua_account_key_map.get(42).copied(), Some(ALICE));
}

#[test]
fn failed_account_creation_reveal_is_isolated() {
    let state = interp_fresh_state();
    let result_var = revealed_var(
        4,
        ALICE,
        VariableKind::AccountCreationResult { owner: ALICE, account_key: 42 },
        encode_result(0, false),
    );
    let (state, events, changes) = variable_opened(
        interp_ctx(ALICE),
        state,
        interp_zk(vec![result_var]),
        vec![SecretVarId::new(4)],
    );
    assert_deletes_only(&changes, 4);
    assert_eq!(events.len(), 1);
    assert!(matches!(
        events[0],
        EventGroup::DeferredFailure {
            target: CONTRACT,
            reason: FailureReason::AccountCreationFailed
        }
    ));
    assert_eq!(state.ua_account_key_map.get(42), None);
}

#[test]
fn successful_withdraw_reveal_pays_the_recorded_owner() {
    let state = interp_fresh_state();
    let result_var = revealed_var(
        6,
        ALICE,
        VariableKind::WithdrawResult { owner: ALICE },
        encode_result(33, true),
    );
    let (_state, events, changes) = variable_opened(
        interp_ctx(ALICE),
        state,
        interp_zk(vec![result_var]),
        vec![SecretVarId::new(6)],
    );
    assert_deletes_only(&changes, 6);
    assert_eq!(events.len(), 1);
    assert!(matches!(
        events[0],
        EventGroup::TokenTransfer { token: TOKEN, receiver: ALICE, amount: 33 }
    ));
}

#[test]
fn failed_withdraw_reveal_reports_the_attempted_amount() {
    let state = interp_fresh_state();
    let result_var = revealed_var(
        6,
        ALICE,
        VariableKind::WithdrawResult { owner: ALICE },
        encode_result(33, false),
    );
    let (_state, events, changes) = variable_opened(
        interp_ctx(ALICE),
        state,
        interp_zk(vec![result_var]),
        vec![SecretVarId::new(6)],
    );
    assert_deletes_only(&changes, 6);
    assert_eq!(events.len(), 1);
    assert!(matches!(
        events[0],
        EventGroup::DeferredFailure {
            target: CONTRACT,
            reason: FailureReason::InsufficientBalance { amount: 33 }
        }
    ));
}

#[test]
fn failed_draw_reveal_leaves_lottery_open() {
    // Open lottery, then reveal an unsuccessful draw: the failure is
    // isolated and the status stays Open.
    let state = state_with_pending_lottery(5);
    let ok_var = revealed_var(
        23,
        ALICE,
        VariableKind::LotteryCreationResult { owner: ALICE, lottery_id: 5 },
        encode_result(100, true),
    );
    let (state, _, _) = variable_opened(
        interp_ctx(ALICE),
        state,
        interp_zk(vec![ok_var]),
        vec![SecretVarId::new(23)],
    );
    assert!(matches!(state.get_lottery(&5).unwrap().status, LotteryStatus::Open));
    let draw_var = revealed_var(
        30,
        ALICE,
        VariableKind::LotteryWinnerDrawResult { lottery_id: 5 },
        encode_draw_result(77, 0, false),
    );
    let (state, events, changes) = variable_opened(
        interp_ctx(ALICE),
        state,
        interp_zk(vec![draw_var]),
        vec![SecretVarId::new(30)],
    );
    assert_deletes_only(&changes, 30);
    assert_eq!(events.len(), 1);
    assert!(matches!(
        events[0],
        EventGroup::DeferredFailure {
            target: CONTRACT,
            reason: FailureReason::WinnerDrawFailed { lottery_id: 5 }
        }
    ));
    let lottery = state.get_lottery(&5).unwrap();
    assert!(matches!(lottery.status, LotteryStatus::Open));
    assert_eq!(lottery.winner, None);
}

#[test]
fn successful_draw_reveal_closes_lottery_with_resolved_winner() {
    let state = state_with_pending_lottery(5);
    let ok_var = revealed_var(
        23,
        ALICE,
        VariableKind::LotteryCreationResult { owner: ALICE, lottery_id: 5 },
        encode_result(100, true),
    );
    let (mut state, _, _) = variable_opened(
        interp_ctx(ALICE),
        state,
        interp_zk(vec![ok_var]),
        vec![SecretVarId::new(23)],
    );
    state.add_user_account_id(ALICE, 42);
    let draw_var = revealed_var(
        30,
        ALICE,
        VariableKind::LotteryWinnerDrawResult { lottery_id: 5 },
        encode_draw_result(77, 42, true),
    );
    let (state, events, changes) = variable_opened(
        interp_ctx(ALICE),
        state,
        interp_zk(vec![draw_var]),
        vec![SecretVarId::new(30)],
    );
    assert_deletes_only(&changes, 30);
    assert!(events.is_empty());
    let lottery = state.get_lottery(&5).unwrap();
    assert!(matches!(lottery.status, LotteryStatus::Closed));
    assert_eq!(lottery.winner, Some(ALICE));
}

#[test]
fn successful_ticket_purchase_reveal_promotes_pending_state() {
    // The lottery is open with a current secret state; a ticket purchase
    // completed and installed a replacement as pending.
    let state = state_with_pending_lottery(5);
    let ok_var = revealed_var(
        23,
        ALICE,
        VariableKind::LotteryCreationResult { owner: ALICE, lottery_id: 5 },
        encode_result(100, true),
    );
    let (mut state, _, _) = variable_opened(
        interp_ctx(ALICE),
        state,
        interp_zk(vec![ok_var]),
        vec![SecretVarId::new(23)],
    );
    state.set_lottery_pending_secret_state_id(5, SecretVarId::new(32));
    let result_var = revealed_var(
        33,
        ALICE,
        VariableKind::LotteryTicketPurchaseResult { owner: ALICE, lottery_id: 5 },
        encode_result(0, true),
    );
    let (state, events, changes) = variable_opened(
        interp_ctx(ALICE),
        state,
        interp_zk(vec![result_var]),
        vec![SecretVarId::new(33)],
    );
    assert_deletes_only(&changes, 33);
    assert!(events.is_empty());
    let lottery = state.get_lottery(&5).unwrap();
    assert_eq!(lottery.secret_state_id, Some(SecretVarId::new(32)));
    assert_eq!(lottery.pending_secret_state_id, None);
    // the replaced secret state awaits deletion
    assert!(state.redundant_variables.iter().any(|v| v.raw_id == 22));
}

#[test]
fn failed_ticket_purchase_reveal_discards_pending_state() {
    let state = state_with_pending_lottery(5);
    let ok_var = revealed_var(
        23,
        ALICE,
        VariableKind::LotteryCreationResult { owner: ALICE, lottery_id: 5 },
        encode_result(100, true),
    );
    let (mut state, _, _) = variable_opened(
        interp_ctx(ALICE),
        state,
        interp_zk(vec![ok_var]),
        vec![SecretVarId::new(23)],
    );
    state.set_lottery_pending_secret_state_id(5, SecretVarId::new(32));
    let result_var = revealed_var(
        33,
        ALICE,
        VariableKind::LotteryTicketPurchaseResult { owner: ALICE, lottery_id: 5 },
        encode_result(0, false),
    );
    let (state, events, changes) = variable_opened(
        interp_ctx(ALICE),
        state,
        interp_zk(vec![result_var]),
        vec![SecretVarId::new(33)],
    );
    assert_deletes_only(&changes, 33);
    assert_eq!(events.len(), 1);
    assert!(matches!(
        events[0],
        EventGroup::DeferredFailure {
            target: CONTRACT,
            reason: FailureReason::TicketPurchaseFailed { lottery_id: 5 }
        }
    ));
    let lottery = state.get_lottery(&5).unwrap();
    // the current secret state survives; only the pending handle is dropped
    assert_eq!(lottery.secret_state_id, Some(SecretVarId::new(22)));
    assert_eq!(lottery.pending_secret_state_id, None);
    assert!(state.redundant_variables.iter().any(|v| v.raw_id == 32));
}
