//! Scenarios for the work-queue scheduler: single-flight submission,
//! idempotent no-ops, and failure isolation while draining.

use lottery::actions::continue_queue;
use lottery::actions::create_account_inputted;
use lottery::actions::deposit_callback;
use lottery::actions::initialize;
use lottery::events::CallbackContext;
use lottery::events::ContractContext;
use lottery::events::EventGroup;
use lottery::events::FailureReason;
use lottery::state::ContractState;
use lottery::zk::CalculationStatus;
use lottery::zk::ComputationKind;
use lottery::zk::SecretVarId;
use lottery::zk::VariableKind;
use lottery::zk::ZkState;
use lottery::zk::ZkStateChange;
use lottery::zk::ZkVariable;

const TOKEN: u128 = 800;
const API: u128 = 700;
const CONTRACT: u128 = 900;
const ALICE: u128 = 10;
const BOB: u128 = 11;

fn sched_ctx(sender: u128) -> ContractContext {
    ContractContext { contract_address: CONTRACT, sender, block_production_time: 0 }
}

fn sched_zk(status: CalculationStatus, variables: Vec<ZkVariable>) -> ZkState {
    ZkState { calculation_state: status, variables }
}

fn sched_fresh_state() -> ContractState {
    initialize(sched_ctx(ALICE), sched_zk(CalculationStatus::Waiting, vec![]), TOKEN, API)
}

fn account_creation_var(id: u32, owner: u128, account_key: u128) -> ZkVariable {
    ZkVariable {
        variable_id: SecretVarId::new(id),
        owner,
        metadata: VariableKind::AccountCreationSecret { owner, account_key },
        data: None,
    }
}

fn count_submissions(changes: &[ZkStateChange]) -> usize {
    changes
        .iter()
        .filter(|c| matches!(c, ZkStateChange::StartComputation { .. }))
        .count()
}

fn count_deferred_failures(events: &[EventGroup]) -> usize {
    events
        .iter()
        .filter(|e| matches!(e, EventGroup::DeferredFailure { .. }))
        .count()
}

#[test]
fn idle_engine_submits_inputted_account_creation() {
    let state = sched_fresh_state();
    let zk = sched_zk(CalculationStatus::Waiting, vec![account_creation_var(1, ALICE, 42)]);
    let (state, events, changes) =
        create_account_inputted(sched_ctx(ALICE), state, zk, SecretVarId::new(1));
    assert_eq!(changes.len(), 1);
    match &changes[0] {
        ZkStateChange::StartComputation { computation, input_handles, output_metadata, .. } => {
            assert_eq!(*computation, ComputationKind::CreateAccount { account_key: 42 });
            assert_eq!(input_handles.len(), 1);
            assert_eq!(input_handles[0].raw_id, 1);
            assert_eq!(output_metadata.len(), 2);
            assert_eq!(output_metadata[0], VariableKind::UserAccount { owner: ALICE });
        }
        other => panic!("expected a submission, got {:?}", other),
    }
    assert!(events.is_empty());
    assert_eq!(state.work_queue.len(), 0);
    // the secret input handle is retired for the next cleanup
    assert_eq!(state.redundant_variables.len(), 1);
    assert_eq!(state.redundant_variables[0].raw_id, 1);
}

#[test]
fn busy_engine_queues_without_submitting() {
    let state = sched_fresh_state();
    let zk = sched_zk(CalculationStatus::Calculating, vec![account_creation_var(1, ALICE, 42)]);
    let (state, events, changes) =
        create_account_inputted(sched_ctx(ALICE), state, zk, SecretVarId::new(1));
    assert_eq!(count_submissions(&changes), 0);
    assert!(events.is_empty());
    assert_eq!(state.work_queue.len(), 1);
}

#[test]
fn continue_queue_on_empty_queue_is_noop() {
    let state = sched_fresh_state();
    let zk = sched_zk(CalculationStatus::Waiting, vec![]);
    let (state, events, changes) = continue_queue(sched_ctx(CONTRACT), state, zk);
    assert!(events.is_empty());
    assert!(changes.is_empty());
    assert_eq!(state.work_queue.len(), 0);
    assert_eq!(state.redundant_variables.len(), 0);
}

#[test]
fn continue_queue_while_busy_is_noop() {
    let state = sched_fresh_state();
    // queue one item behind a busy engine
    let zk_busy = sched_zk(CalculationStatus::Calculating, vec![account_creation_var(1, ALICE, 42)]);
    let (state, _, _) = create_account_inputted(sched_ctx(ALICE), state, zk_busy, SecretVarId::new(1));
    assert_eq!(state.work_queue.len(), 1);
    // the engine is still busy: nothing moves
    let zk_busy2 = sched_zk(CalculationStatus::Calculating, vec![]);
    let (state, events, changes) = continue_queue(sched_ctx(CONTRACT), state, zk_busy2);
    assert!(events.is_empty());
    assert!(changes.is_empty());
    assert_eq!(state.work_queue.len(), 1);
}

#[test]
fn duplicate_account_creation_is_isolated_once_account_exists() {
    // First creation goes through and installs an account for ALICE.
    let state = sched_fresh_state();
    let zk = sched_zk(CalculationStatus::Waiting, vec![account_creation_var(1, ALICE, 42)]);
    let (state, _, changes) =
        create_account_inputted(sched_ctx(ALICE), state, zk, SecretVarId::new(1));
    assert_eq!(count_submissions(&changes), 1);
    // Second creation for the same account arrives while the engine runs.
    let zk_busy = sched_zk(CalculationStatus::Calculating, vec![account_creation_var(2, ALICE, 43)]);
    let (state, events, changes) =
        create_account_inputted(sched_ctx(ALICE), state, zk_busy, SecretVarId::new(2));
    assert_eq!(count_submissions(&changes), 0);
    assert!(events.is_empty());
    assert_eq!(state.work_queue.len(), 1);
    // The first computation completes and installs ALICE's account handle.
    let mut state = state;
    state.add_user_account(ALICE, SecretVarId::new(3));
    // Draining now rejects the duplicate at pop time with an isolated failure.
    let zk_idle = sched_zk(CalculationStatus::Waiting, vec![]);
    let (state, events, changes) = continue_queue(sched_ctx(CONTRACT), state, zk_idle);
    assert_eq!(count_submissions(&changes), 0);
    assert_eq!(events.len(), 1);
    assert!(matches!(
        events[0],
        EventGroup::DeferredFailure { target: CONTRACT, reason: FailureReason::AccountAlreadyExists }
    ));
    assert_eq!(state.work_queue.len(), 0);
    // Exactly one live handle for ALICE survives.
    assert_eq!(state.get_user_account_var_id(&ALICE), Some(SecretVarId::new(3)));
}

#[test]
fn failed_item_never_stalls_the_next_one() {
    // Job A: credit purchase for BOB, who has no account -> fails at pop.
    // Job B: account creation for ALICE -> succeeds.
    let state = sched_fresh_state();
    let zk_busy = sched_zk(CalculationStatus::Calculating, vec![]);
    let (state, events, changes) = deposit_callback(
        sched_ctx(BOB),
        CallbackContext { success: true },
        state,
        zk_busy,
        BOB,
        25,
    );
    assert!(events.is_empty());
    assert!(changes.is_empty());
    let zk_busy2 = sched_zk(CalculationStatus::Calculating, vec![account_creation_var(7, ALICE, 42)]);
    let (state, events, changes) =
        create_account_inputted(sched_ctx(ALICE), state, zk_busy2, SecretVarId::new(7));
    assert!(events.is_empty());
    assert!(changes.is_empty());
    assert_eq!(state.work_queue.len(), 2);
    // Drain: A is rejected with one isolated failure, B is submitted.
    let zk_idle = sched_zk(CalculationStatus::Waiting, vec![account_creation_var(7, ALICE, 42)]);
    let (state, events, changes) = continue_queue(sched_ctx(CONTRACT), state, zk_idle);
    assert_eq!(count_deferred_failures(&events), 1);
    assert!(matches!(
        events[0],
        EventGroup::DeferredFailure {
            target: CONTRACT,
            reason: FailureReason::PurchaseForMissingAccount
        }
    ));
    assert_eq!(count_submissions(&changes), 1);
    assert!(matches!(
        &changes[0],
        ZkStateChange::StartComputation {
            computation: ComputationKind::CreateAccount { account_key: 42 },
            ..
        }
    ));
    assert_eq!(state.work_queue.len(), 0);
}

#[test]
fn at_most_one_submission_per_pass() {
    // Two runnable account creations are queued; one pass submits only the
    // first.
    let state = sched_fresh_state();
    let zk_busy = sched_zk(
        CalculationStatus::Calculating,
        vec![account_creation_var(1, ALICE, 42), account_creation_var(2, BOB, 43)],
    );
    let (state, _, _) = create_account_inputted(sched_ctx(ALICE), state, zk_busy, SecretVarId::new(1));
    let zk_busy2 = sched_zk(
        CalculationStatus::Calculating,
        vec![account_creation_var(1, ALICE, 42), account_creation_var(2, BOB, 43)],
    );
    let (state, _, _) =
        create_account_inputted(sched_ctx(BOB), state, zk_busy2, SecretVarId::new(2));
    assert_eq!(state.work_queue.len(), 2);
    let zk_idle = sched_zk(CalculationStatus::Waiting, vec![]);
    let (state, events, changes) = continue_queue(sched_ctx(CONTRACT), state, zk_idle);
    assert!(events.is_empty());
    assert_eq!(count_submissions(&changes), 1);
    assert_eq!(state.work_queue.len(), 1);
}

#[test]
fn completion_supersedes_previous_handle_and_deletes_it() {
    let mut state = sched_fresh_state();
    state.add_user_account(ALICE, SecretVarId::new(3));
    // an input handle retired by an earlier submission awaits cleanup
    state.redundant_variables.push(SecretVarId::new(1));
    let output = ZkVariable {
        variable_id: SecretVarId::new(5),
        owner: ALICE,
        metadata: VariableKind::UserAccount { owner: ALICE },
        data: None,
    };
    let zk = sched_zk(CalculationStatus::Waiting, vec![output]);
    let (state, events, changes) = lottery::actions::simple_work_item_complete(
        sched_ctx(ALICE),
        state,
        zk,
        vec![SecretVarId::new(5)],
    );
    // the new handle is installed and the superseded one joins this
    // completion's delete batch; the older redundant set is flushed after
    assert_eq!(state.get_user_account_var_id(&ALICE), Some(SecretVarId::new(5)));
    assert_eq!(state.redundant_variables.len(), 0);
    assert!(events.is_empty());
    assert_eq!(changes.len(), 3);
    assert!(matches!(
        changes[0],
        ZkStateChange::TransferVariable { variable: SecretVarId { raw_id: 5 }, new_owner: API }
    ));
    match &changes[1] {
        ZkStateChange::DeleteVariables { variables_to_delete } => {
            assert_eq!(variables_to_delete.len(), 1);
            assert_eq!(variables_to_delete[0].raw_id, 3);
        }
        other => panic!("expected the superseded-handle batch, got {:?}", other),
    }
    match &changes[2] {
        ZkStateChange::DeleteVariables { variables_to_delete } => {
            assert_eq!(variables_to_delete.len(), 1);
            assert_eq!(variables_to_delete[0].raw_id, 1);
        }
        other => panic!("expected the redundant-set batch, got {:?}", other),
    }
}

#[test]
fn completion_requests_reveal_and_queue_continuation() {
    let state = sched_fresh_state();
    // a second job sits in the queue behind the running computation
    let zk_busy = sched_zk(CalculationStatus::Calculating, vec![account_creation_var(2, BOB, 43)]);
    let (state, _, _) = create_account_inputted(sched_ctx(BOB), state, zk_busy, SecretVarId::new(2));
    assert_eq!(state.work_queue.len(), 1);
    // the running account creation completes with its two outputs
    let outputs = vec![
        ZkVariable {
            variable_id: SecretVarId::new(5),
            owner: ALICE,
            metadata: VariableKind::UserAccount { owner: ALICE },
            data: None,
        },
        ZkVariable {
            variable_id: SecretVarId::new(6),
            owner: ALICE,
            metadata: VariableKind::AccountCreationResult { owner: ALICE, account_key: 42 },
            data: None,
        },
    ];
    let zk = sched_zk(CalculationStatus::Waiting, outputs);
    let (state, events, changes) = lottery::actions::create_account_complete(
        sched_ctx(ALICE),
        state,
        zk,
        vec![SecretVarId::new(5), SecretVarId::new(6)],
    );
    // the queue is not advanced here; a separate continuation is scheduled
    assert_eq!(state.work_queue.len(), 1);
    assert_eq!(events.len(), 1);
    assert!(matches!(events[0], EventGroup::ContinueQueue { target: CONTRACT }));
    assert_eq!(count_submissions(&changes), 0);
    // the result variable is asked to be revealed, last of all requests
    match changes.last().unwrap() {
        ZkStateChange::OpenVariables { variables } => {
            assert_eq!(variables.len(), 1);
            assert_eq!(variables[0].raw_id, 6);
        }
        other => panic!("expected a reveal request, got {:?}", other),
    }
    assert_eq!(state.get_user_account_var_id(&ALICE), Some(SecretVarId::new(5)));
}

#[test]
fn flush_of_empty_redundant_set_deletes_nothing() {
    let mut state = sched_fresh_state();
    let mut changes: Vec<ZkStateChange> = Vec::new();
    state.clean_up_redundant_secret_variables(&mut changes);
    assert_eq!(changes.len(), 1);
    match &changes[0] {
        ZkStateChange::DeleteVariables { variables_to_delete } => {
            assert!(variables_to_delete.is_empty());
        }
        other => panic!("expected a deletion batch, got {:?}", other),
    }
    assert_eq!(state.redundant_variables.len(), 0);
    assert_eq!(state.work_queue.len(), 0);
}
