//! End-to-end action flows, the result decoders, and the registry methods.

use lottery::actions::continue_queue;
use lottery::actions::draw_winner;
use lottery::actions::initialize;
use lottery::actions::purchase_credits;
use lottery::actions::redeem_credits;
use lottery::actions::ticket_purchase_inputted;
use lottery::events::ContractContext;
use lottery::events::EventGroup;
use lottery::events::FailureReason;
use lottery::lottery::LotteryState;
use lottery::lottery::LotteryStatus;
use lottery::results::read_draw_result;
use lottery::results::read_result;
use lottery::state::ContractState;
use lottery::zk::CalculationStatus;
use lottery::zk::ComputationKind;
use lottery::zk::SecretVarId;
use lottery::zk::VariableKind;
use lottery::zk::ZkState;
use lottery::zk::ZkStateChange;
use lottery::zk::ZkVariable;

const TOKEN: u128 = 800;
const API: u128 = 700;
const CONTRACT: u128 = 900;
const ALICE: u128 = 10;
const BOB: u128 = 11;

fn flow_ctx(sender: u128, time: i64) -> ContractContext {
    ContractContext { contract_address: CONTRACT, sender, block_production_time: time }
}

fn flow_zk(status: CalculationStatus, variables: Vec<ZkVariable>) -> ZkState {
    ZkState { calculation_state: status, variables }
}

fn flow_fresh_state() -> ContractState {
    initialize(flow_ctx(ALICE, 0), flow_zk(CalculationStatus::Waiting, vec![]), TOKEN, API)
}

fn open_lottery(lottery_id: u128) -> LotteryState {
    LotteryState {
        lottery_id,
        creator: ALICE,
        status: LotteryStatus::Open,
        deadline: 1000,
        winner: None,
        entry_cost: 5,
        prize_pool: 100,
        secret_state_id: Some(SecretVarId::new(22)),
        pending_secret_state_id: None,
        winner_index: None,
    }
}

#[test]
fn purchase_credits_schedules_an_escrow_pull() {
    let state = flow_fresh_state();
    let (state, events, changes) = purchase_credits(
        flow_ctx(ALICE, 0),
        state,
        flow_zk(CalculationStatus::Waiting, vec![]),
        25,
    );
    assert!(changes.is_empty());
    assert_eq!(events.len(), 1);
    assert!(matches!(
        events[0],
        EventGroup::TokenTransferFrom {
            token: TOKEN,
            sender: ALICE,
            receiver: CONTRACT,
            amount: 25
        }
    ));
    assert_eq!(state.work_queue.len(), 0);
}

#[test]
fn redeem_for_missing_account_fails_at_pop_time() {
    let state = flow_fresh_state();
    let (state, events, changes) = redeem_credits(
        flow_ctx(BOB, 0),
        state,
        flow_zk(CalculationStatus::Waiting, vec![]),
        40,
    );
    assert!(changes.is_empty());
    assert_eq!(events.len(), 1);
    assert!(matches!(
        events[0],
        EventGroup::DeferredFailure {
            target: CONTRACT,
            reason: FailureReason::RedeemForMissingAccount
        }
    ));
    assert_eq!(state.work_queue.len(), 0);
}

#[test]
fn redeem_with_account_submits_a_burn() {
    let mut state = flow_fresh_state();
    state.add_user_account(ALICE, SecretVarId::new(3));
    let (state, events, changes) = redeem_credits(
        flow_ctx(ALICE, 0),
        state,
        flow_zk(CalculationStatus::Waiting, vec![]),
        40,
    );
    assert!(events.is_empty());
    assert_eq!(changes.len(), 1);
    match &changes[0] {
        ZkStateChange::StartComputation { computation, input_handles, output_metadata, .. } => {
            assert_eq!(*computation, ComputationKind::BurnCredits { amount: 40 });
            assert_eq!(input_handles.len(), 1);
            assert_eq!(input_handles[0].raw_id, 3);
            assert_eq!(output_metadata.len(), 2);
            assert_eq!(output_metadata[1], VariableKind::WithdrawResult { owner: ALICE });
        }
        other => panic!("expected a submission, got {:?}", other),
    }
    assert_eq!(state.work_queue.len(), 0);
}

#[test]
fn ticket_purchase_for_closed_lottery_is_rejected_at_input_time() {
    let mut state = flow_fresh_state();
    let mut lottery = open_lottery(5);
    lottery.status = LotteryStatus::Closed;
    state.add_lottery(&lottery);
    let purchase_var = ZkVariable {
        variable_id: SecretVarId::new(40),
        owner: BOB,
        metadata: VariableKind::LotteryTicketPurchaseSecretData { owner: BOB, lottery_id: 5 },
        data: None,
    };
    let (state, events, changes) = ticket_purchase_inputted(
        flow_ctx(BOB, 0),
        state,
        flow_zk(CalculationStatus::Waiting, vec![purchase_var]),
        SecretVarId::new(40),
    );
    assert!(changes.is_empty());
    assert_eq!(events.len(), 1);
    assert!(matches!(
        events[0],
        EventGroup::DeferredFailure {
            target: CONTRACT,
            reason: FailureReason::TicketPurchaseOnLotteryNotOpen
        }
    ));
    // nothing was queued and the lottery record is untouched
    assert_eq!(state.work_queue.len(), 0);
    assert!(matches!(state.get_lottery(&5).unwrap().status, LotteryStatus::Closed));
    // the queue keeps draining other work unaffected
    let (state, events, changes) = continue_queue(
        flow_ctx(CONTRACT, 0),
        state,
        flow_zk(CalculationStatus::Waiting, vec![]),
    );
    assert!(events.is_empty());
    assert!(changes.is_empty());
    assert_eq!(state.work_queue.len(), 0);
}

#[test]
fn ticket_purchase_queued_behind_closure_is_rejected_at_pop_time() {
    // The purchase is accepted and queued while the lottery is open and the
    // engine is busy; by the time it is popped, the winner has been drawn
    // and the lottery is Closed.
    let mut state = flow_fresh_state();
    state.add_user_account(BOB, SecretVarId::new(3));
    state.add_lottery(&open_lottery(5));
    state.add_lottery_account(5, SecretVarId::new(21));
    let purchase_var = ZkVariable {
        variable_id: SecretVarId::new(40),
        owner: BOB,
        metadata: VariableKind::LotteryTicketPurchaseSecretData { owner: BOB, lottery_id: 5 },
        data: None,
    };
    let (mut state, events, changes) = ticket_purchase_inputted(
        flow_ctx(BOB, 0),
        state,
        flow_zk(CalculationStatus::Calculating, vec![purchase_var]),
        SecretVarId::new(40),
    );
    assert!(events.is_empty());
    assert!(changes.is_empty());
    assert_eq!(state.work_queue.len(), 1);
    state.mark_lottery_as_closed(5, ALICE);
    let (state, events, changes) = continue_queue(
        flow_ctx(CONTRACT, 0),
        state,
        flow_zk(CalculationStatus::Waiting, vec![]),
    );
    // rejected at pop time with an isolated failure; nothing is submitted
    assert!(changes.is_empty());
    assert_eq!(events.len(), 1);
    assert!(matches!(
        events[0],
        EventGroup::DeferredFailure {
            target: CONTRACT,
            reason: FailureReason::TicketPurchaseOnLotteryNotOpen
        }
    ));
    // the lottery, the registries and the queue keep draining unaffected
    assert_eq!(state.work_queue.len(), 0);
    assert!(matches!(state.get_lottery(&5).unwrap().status, LotteryStatus::Closed));
    assert_eq!(state.get_user_account_var_id(&BOB), Some(SecretVarId::new(3)));
    assert_eq!(state.redundant_variables.len(), 0);
}

#[test]
fn open_ticket_purchase_submits_with_lottery_inputs() {
    let mut state = flow_fresh_state();
    state.add_user_account(BOB, SecretVarId::new(3));
    state.add_lottery(&open_lottery(5));
    state.add_lottery_account(5, SecretVarId::new(21));
    let purchase_var = ZkVariable {
        variable_id: SecretVarId::new(40),
        owner: BOB,
        metadata: VariableKind::LotteryTicketPurchaseSecretData { owner: BOB, lottery_id: 5 },
        data: None,
    };
    let (state, events, changes) = ticket_purchase_inputted(
        flow_ctx(BOB, 0),
        state,
        flow_zk(CalculationStatus::Waiting, vec![purchase_var]),
        SecretVarId::new(40),
    );
    assert!(events.is_empty());
    assert_eq!(changes.len(), 1);
    match &changes[0] {
        ZkStateChange::StartComputation { computation, input_handles, .. } => {
            assert_eq!(*computation, ComputationKind::PurchaseLotteryTicket { ticket_price: 5 });
            let ids: Vec<u32> = input_handles.iter().map(|h| h.raw_id).collect();
            assert_eq!(ids, vec![40, 3, 21, 22]);
        }
        other => panic!("expected a submission, got {:?}", other),
    }
    assert_eq!(state.redundant_variables.len(), 1);
    assert_eq!(state.redundant_variables[0].raw_id, 40);
}

#[test]
fn draw_winner_submits_with_lottery_inputs() {
    let mut state = flow_fresh_state();
    state.add_user_account(ALICE, SecretVarId::new(3));
    state.add_lottery(&open_lottery(5));
    state.add_lottery_account(5, SecretVarId::new(21));
    let (state, events, changes) = draw_winner(
        flow_ctx(ALICE, 2000),
        state,
        flow_zk(CalculationStatus::Waiting, vec![]),
        5,
    );
    assert!(events.is_empty());
    assert_eq!(changes.len(), 1);
    match &changes[0] {
        ZkStateChange::StartComputation { computation, input_handles, output_metadata, .. } => {
            assert_eq!(
                *computation,
                ComputationKind::DrawLotteryWinner { entry_cost: 5, prize_pool: 100 }
            );
            let ids: Vec<u32> = input_handles.iter().map(|h| h.raw_id).collect();
            assert_eq!(ids, vec![22, 21, 3]);
            assert_eq!(
                output_metadata[2],
                VariableKind::LotteryWinnerDrawResult { lottery_id: 5 }
            );
        }
        other => panic!("expected a submission, got {:?}", other),
    }
    assert_eq!(state.work_queue.len(), 0);
}

#[test]
fn lottery_creation_without_creator_account_fails_at_pop_time() {
    let mut state = flow_fresh_state();
    let mut lottery = open_lottery(5);
    lottery.status = LotteryStatus::Pending;
    lottery.secret_state_id = None;
    state.add_lottery(&lottery);
    let creation_var = ZkVariable {
        variable_id: SecretVarId::new(41),
        owner: ALICE,
        metadata: VariableKind::LotteryCreationData { creator: ALICE, lottery_id: 5 },
        data: None,
    };
    let (state, events, changes) = lottery::actions::create_lottery_inputted(
        flow_ctx(ALICE, 0),
        state,
        flow_zk(CalculationStatus::Waiting, vec![creation_var]),
        SecretVarId::new(41),
    );
    assert!(changes.is_empty());
    assert_eq!(events.len(), 1);
    assert!(matches!(
        events[0],
        EventGroup::DeferredFailure {
            target: CONTRACT,
            reason: FailureReason::CreatorHasNoAccount
        }
    ));
    assert_eq!(state.work_queue.len(), 0);
}

#[test]
fn ticket_purchase_without_account_fails_at_pop_time() {
    let mut state = flow_fresh_state();
    state.add_lottery(&open_lottery(5));
    state.add_lottery_account(5, SecretVarId::new(21));
    let purchase_var = ZkVariable {
        variable_id: SecretVarId::new(40),
        owner: BOB,
        metadata: VariableKind::LotteryTicketPurchaseSecretData { owner: BOB, lottery_id: 5 },
        data: None,
    };
    let (state, events, changes) = ticket_purchase_inputted(
        flow_ctx(BOB, 0),
        state,
        flow_zk(CalculationStatus::Waiting, vec![purchase_var]),
        SecretVarId::new(40),
    );
    assert!(changes.is_empty());
    assert_eq!(events.len(), 1);
    assert!(matches!(
        events[0],
        EventGroup::DeferredFailure {
            target: CONTRACT,
            reason: FailureReason::TicketPurchaseForMissingAccount
        }
    ));
    assert_eq!(state.work_queue.len(), 0);
}

#[test]
fn draw_queued_behind_closure_fails_at_pop_time() {
    // The draw is enqueued while the engine is busy; by the time it is
    // popped, the lottery is no longer open.
    let mut state = flow_fresh_state();
    state.add_user_account(ALICE, SecretVarId::new(3));
    state.add_lottery(&open_lottery(5));
    state.add_lottery_account(5, SecretVarId::new(21));
    let (mut state, events, changes) = draw_winner(
        flow_ctx(ALICE, 2000),
        state,
        flow_zk(CalculationStatus::Calculating, vec![]),
        5,
    );
    assert!(events.is_empty());
    assert!(changes.is_empty());
    assert_eq!(state.work_queue.len(), 1);
    state.mark_lottery_as_closed(5, BOB);
    let (state, events, changes) = continue_queue(
        flow_ctx(CONTRACT, 2000),
        state,
        flow_zk(CalculationStatus::Waiting, vec![]),
    );
    assert!(changes.is_empty());
    assert_eq!(events.len(), 1);
    assert!(matches!(
        events[0],
        EventGroup::DeferredFailure {
            target: CONTRACT,
            reason: FailureReason::DrawOnLotteryNotOpen
        }
    ));
    assert_eq!(state.work_queue.len(), 0);
}

#[test]
fn account_creation_input_of_wrong_kind_is_isolated() {
    let state = flow_fresh_state();
    let stray = ZkVariable {
        variable_id: SecretVarId::new(1),
        owner: ALICE,
        metadata: VariableKind::WorkItemData { owner: ALICE },
        data: None,
    };
    let (state, events, changes) = lottery::actions::create_account_inputted(
        flow_ctx(ALICE, 0),
        state,
        flow_zk(CalculationStatus::Waiting, vec![stray]),
        SecretVarId::new(1),
    );
    assert!(changes.is_empty());
    assert_eq!(events.len(), 1);
    assert!(matches!(
        events[0],
        EventGroup::DeferredFailure {
            target: CONTRACT,
            reason: FailureReason::InvalidAccountCreationKind
        }
    ));
    assert_eq!(state.work_queue.len(), 0);
}

#[test]
fn read_result_decodes_little_endian_amount_and_flag() {
    let mut data = 7u128.to_le_bytes().to_vec();
    data.push(1);
    let var = ZkVariable {
        variable_id: SecretVarId::new(1),
        owner: ALICE,
        metadata: VariableKind::WithdrawResult { owner: ALICE },
        data: Some(data),
    };
    let result = read_result(&var);
    assert_eq!(result.amount, 7);
    assert!(result.successful);
    let mut data = 0x0102030405060708090a0b0c0d0e0f10u128.to_le_bytes().to_vec();
    data.push(0);
    let var = ZkVariable {
        variable_id: SecretVarId::new(1),
        owner: ALICE,
        metadata: VariableKind::WithdrawResult { owner: ALICE },
        data: Some(data),
    };
    let result = read_result(&var);
    assert_eq!(result.amount, 0x0102030405060708090a0b0c0d0e0f10);
    assert!(!result.successful);
}

#[test]
fn read_draw_result_decodes_both_keys() {
    let mut data = 77u128.to_le_bytes().to_vec();
    data.extend_from_slice(&42u128.to_le_bytes());
    data.push(1);
    let var = ZkVariable {
        variable_id: SecretVarId::new(1),
        owner: ALICE,
        metadata: VariableKind::LotteryWinnerDrawResult { lottery_id: 5 },
        data: Some(data),
    };
    let result = read_draw_result(&var);
    assert_eq!(result.lottery_id, 77);
    assert_eq!(result.winner_id, 42);
    assert!(result.successful);
}

#[test]
fn registry_tracks_one_handle_per_entity() {
    let mut state = flow_fresh_state();
    assert!(!state.has_user_account(&ALICE));
    state.add_user_account(ALICE, SecretVarId::new(3));
    assert!(state.has_user_account(&ALICE));
    assert_eq!(state.get_user_account_var_id(&ALICE), Some(SecretVarId::new(3)));
    state.add_user_account(ALICE, SecretVarId::new(9));
    assert_eq!(state.get_user_account_var_id(&ALICE), Some(SecretVarId::new(9)));
    assert!(!state.has_lottery_account(&5));
    state.add_lottery_account(5, SecretVarId::new(21));
    assert_eq!(state.get_lottery_account_var_id(&5), Some(SecretVarId::new(21)));
}

#[test]
fn promote_retires_the_old_secret_state_handle() {
    let mut state = flow_fresh_state();
    state.add_lottery(&open_lottery(5));
    state.set_lottery_pending_secret_state_id(5, SecretVarId::new(30));
    let lottery = state.get_lottery(&5).unwrap();
    assert_eq!(lottery.secret_state_id, Some(SecretVarId::new(22)));
    assert_eq!(lottery.pending_secret_state_id, Some(SecretVarId::new(30)));
    state.promote_lottery_pending_secret_state_id(5);
    let lottery = state.get_lottery(&5).unwrap();
    assert_eq!(lottery.secret_state_id, Some(SecretVarId::new(30)));
    assert_eq!(lottery.pending_secret_state_id, None);
    assert_eq!(state.redundant_variables.len(), 1);
    assert_eq!(state.redundant_variables[0].raw_id, 22);
}

#[test]
fn mark_closed_records_the_winner() {
    let mut state = flow_fresh_state();
    state.add_lottery(&open_lottery(5));
    state.mark_lottery_as_closed(5, BOB);
    let lottery = state.get_lottery(&5).unwrap();
    assert!(matches!(lottery.status, LotteryStatus::Closed));
    assert_eq!(lottery.winner, Some(BOB));
}
