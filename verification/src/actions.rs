//! The contract's invocation surface.
//!
//! Each function here is one host-dispatched invocation: it takes the
//! persisted state and the engine's visible state, and returns the new
//! state together with the interactions to dispatch and the engine
//! state-change requests to apply.  Nothing blocks: a submitted computation
//! completes in a later invocation, and its results arrive through the
//! completion and reveal handlers below.

use vstd::prelude::*;

use crate::events::Address;
use crate::events::CallbackContext;
use crate::events::ContractContext;
use crate::events::EventGroup;
use crate::events::FailureReason;
use crate::events::fail_safely;
use crate::lottery::LotteryId;
use crate::lottery::LotteryState;
use crate::lottery::LotteryStatus;
use crate::mpc_20::MPC20Contract;
use crate::results::is_computation_result;
use crate::results::is_draw_result;
use crate::results::read_draw_result;
use crate::results::read_result;
use crate::results::spec_computation_result;
use crate::results::spec_draw_result;
use crate::state::ContractState;
use crate::state::WorkListItem;
use crate::state::advance_post;
use crate::state::ownership_fold;
use crate::state::ownership_init;
use crate::state::queue_wf;
use crate::state::transfer_change_seq;
use crate::zk::CalculationStatus;
use crate::zk::InputTag;
use crate::zk::SecretVarId;
use crate::zk::VariableKind;
use crate::zk::ZkInputDef;
use crate::zk::ZkState;
use crate::zk::ZkStateChange;
use crate::zk::outputs_present;

verus! {

/// The queue-continuation events a completion handler schedules: one
/// self-call if work is left in the queue, none otherwise.
pub open spec fn continuation_events(pre: ContractState, ctx: ContractContext) -> Seq<
    EventGroup,
> {
    if pre.work_queue@.len() > 0 {
        seq![EventGroup::ContinueQueue { target: ctx.contract_address }]
    } else {
        Seq::<EventGroup>::empty()
    }
}

/// Set up a fresh contract instance bound to a token contract and a
/// substitute read-rights recipient.
pub fn initialize(
    _context: ContractContext,
    _zk_state: ZkState,
    token: Address,
    api: Address,
) -> (s: ContractState)
    ensures
        s.wf(),
        s.token == token,
        s.api == api,
        s.user_accounts@ == Map::<u128, SecretVarId>::empty(),
        s.ua_account_key_map@ == Map::<u128, Address>::empty(),
        s.lottery_accounts@ == Map::<u128, SecretVarId>::empty(),
        s.lotteries@ == Map::<u128, LotteryState>::empty(),
        s.work_queue@ == Seq::<WorkListItem>::empty(),
        s.redundant_variables@ == Seq::<SecretVarId>::empty(),
{
    ContractState::new(token, api)
}

/// Request the secret input for creating an account: the state is untouched
/// and the engine is asked for an account-creation secret tagged with the
/// sender and the public copy of the key.
pub fn create_account(
    context: ContractContext,
    state: ContractState,
    _zk_state: ZkState,
    account_key: u128,
) -> (r: (ContractState, Vec<EventGroup>, ZkInputDef))
    ensures
        r.0 == state,
        r.1@ == Seq::<EventGroup>::empty(),
        r.2 == (ZkInputDef {
            on_inputted: InputTag::CreateAccountInputted,
            metadata: VariableKind::AccountCreationSecret {
                owner: context.sender,
                account_key,
            },
        }),
{
    let input_def = ZkInputDef::with_metadata(
        InputTag::CreateAccountInputted,
        VariableKind::AccountCreationSecret { owner: context.sender, account_key },
    );
    let event_groups: Vec<EventGroup> = Vec::new();
    proof {
        assert(event_groups@ =~= Seq::<EventGroup>::empty());
    }
    (state, event_groups, input_def)
}

/// Queue the account creation once its secret input has arrived.
///
/// The inputted variable must carry account-creation metadata; any other
/// kind is reported as an isolated failure and nothing is queued.
pub fn create_account_inputted(
    context: ContractContext,
    state: ContractState,
    zk_state: ZkState,
    account_creation_id: SecretVarId,
) -> (r: (ContractState, Vec<EventGroup>, Vec<ZkStateChange>))
    requires
        state.wf(),
        queue_wf(state),
        zk_state.spec_get_variable(account_creation_id) is Some,
    ensures
        r.0.wf(),
        ({
            let v = zk_state.spec_get_variable(account_creation_id).unwrap();
            match v.metadata {
                VariableKind::AccountCreationSecret { owner: _, account_key } => advance_post(
                    state,
                    state.work_queue@.push(
                        WorkListItem::PendingAccountCreation {
                            account: v.owner,
                            account_key,
                            account_creation_id,
                        },
                    ),
                    r.0,
                    context,
                    zk_state.calculation_state != CalculationStatus::Waiting,
                    Seq::<EventGroup>::empty(),
                    r.1@,
                    Seq::<ZkStateChange>::empty(),
                    r.2@,
                ),
                _ => {
                    &&& r.0 == state
                    &&& r.1@ == seq![
                        EventGroup::DeferredFailure {
                            target: context.contract_address,
                            reason: FailureReason::InvalidAccountCreationKind,
                        },
                    ]
                    &&& r.2@ == Seq::<ZkStateChange>::empty()
                },
            }
        }),
{
    let mut zk_state_change: Vec<ZkStateChange> = Vec::new();
    let mut event_groups: Vec<EventGroup> = Vec::new();
    proof {
        assert(zk_state_change@ =~= Seq::<ZkStateChange>::empty());
        assert(event_groups@ =~= Seq::<EventGroup>::empty());
    }
    let variable = match zk_state.get_variable(account_creation_id) {
        Some(v) => v,
        None => unreached(),
    };
    match variable.metadata {
        VariableKind::AccountCreationSecret { owner: _, account_key } => {
            let account = variable.owner;
            let mut st = state;
            st.schedule_new_work_item(
                &context,
                &zk_state,
                &mut zk_state_change,
                &mut event_groups,
                WorkListItem::PendingAccountCreation { account, account_key, account_creation_id },
            );
            (st, event_groups, zk_state_change)
        },
        _ => {
            fail_safely(&context, &mut event_groups, FailureReason::InvalidAccountCreationKind);
            proof {
                assert(event_groups@ =~= seq![
                    EventGroup::DeferredFailure {
                        target: context.contract_address,
                        reason: FailureReason::InvalidAccountCreationKind,
                    },
                ]);
            }
            (state, event_groups, zk_state_change)
        },
    }
}

/// Pull the purchase amount into escrow: schedule a `transfer_from` on the
/// token contract; the host reports its outcome to the deposit callback,
/// and only a successful escrow enqueues the credit purchase.
pub fn purchase_credits(
    context: ContractContext,
    state: ContractState,
    _zk_state: ZkState,
    _credits: u128,
) -> (r: (ContractState, Vec<EventGroup>, Vec<ZkStateChange>))
    ensures
        r.0 == state,
        r.1@ == seq![
            EventGroup::TokenTransferFrom {
                token: state.token,
                sender: context.sender,
                receiver: context.contract_address,
                amount: _credits,
            },
        ],
        r.2@ == Seq::<ZkStateChange>::empty(),
{
    let zk_state_change: Vec<ZkStateChange> = Vec::new();
    let mut event_groups: Vec<EventGroup> = Vec::new();
    let token = MPC20Contract::at_address(state.token);
    token.transfer_from(&mut event_groups, &context.sender, &context.contract_address, _credits);
    proof {
        assert(zk_state_change@ =~= Seq::<ZkStateChange>::empty());
        assert(event_groups@ =~= seq![
            EventGroup::TokenTransferFrom {
                token: state.token,
                sender: context.sender,
                receiver: context.contract_address,
                amount: _credits,
            },
        ]);
    }
    (state, event_groups, zk_state_change)
}

/// Queue the credit purchase once the escrow transfer has succeeded.
///
/// An unsuccessful escrow aborts the invocation outright instead of
/// entering the queue, so this requires a successful callback.
pub fn deposit_callback(
    context: ContractContext,
    callback_context: CallbackContext,
    state: ContractState,
    zk_state: ZkState,
    account: Address,
    amount: u128,
) -> (r: (ContractState, Vec<EventGroup>, Vec<ZkStateChange>))
    requires
        callback_context.success,
        state.wf(),
        queue_wf(state),
    ensures
        r.0.wf(),
        advance_post(
            state,
            state.work_queue@.push(
                WorkListItem::PendingPurchaseCredits { account, credits: amount },
            ),
            r.0,
            context,
            zk_state.calculation_state != CalculationStatus::Waiting,
            Seq::<EventGroup>::empty(),
            r.1@,
            Seq::<ZkStateChange>::empty(),
            r.2@,
        ),
{
    let mut zk_state_change: Vec<ZkStateChange> = Vec::new();
    let mut event_groups: Vec<EventGroup> = Vec::new();
    proof {
        assert(zk_state_change@ =~= Seq::<ZkStateChange>::empty());
        assert(event_groups@ =~= Seq::<EventGroup>::empty());
    }
    let mut st = state;
    st.schedule_new_work_item(
        &context,
        &zk_state,
        &mut zk_state_change,
        &mut event_groups,
        WorkListItem::PendingPurchaseCredits { account, credits: amount },
    );
    (st, event_groups, zk_state_change)
}

/// Queue a credit redemption for the sender.
pub fn redeem_credits(
    context: ContractContext,
    state: ContractState,
    zk_state: ZkState,
    _credits: u128,
) -> (r: (ContractState, Vec<EventGroup>, Vec<ZkStateChange>))
    requires
        state.wf(),
        queue_wf(state),
    ensures
        r.0.wf(),
        advance_post(
            state,
            state.work_queue@.push(
                WorkListItem::PendingRedeemCredits { account: context.sender, credits: _credits },
            ),
            r.0,
            context,
            zk_state.calculation_state != CalculationStatus::Waiting,
            Seq::<EventGroup>::empty(),
            r.1@,
            Seq::<ZkStateChange>::empty(),
            r.2@,
        ),
{
    let mut zk_state_change: Vec<ZkStateChange> = Vec::new();
    let mut event_groups: Vec<EventGroup> = Vec::new();
    proof {
        assert(zk_state_change@ =~= Seq::<ZkStateChange>::empty());
        assert(event_groups@ =~= Seq::<EventGroup>::empty());
    }
    let mut st = state;
    st.schedule_new_work_item(
        &context,
        &zk_state,
        &mut zk_state_change,
        &mut event_groups,
        WorkListItem::PendingRedeemCredits { account: context.sender, credits: _credits },
    );
    (st, event_groups, zk_state_change)
}

/// Schedule a follow-up queue-continuation self-call if work is left in the
/// queue.  The queue is otherwise only advanced reactively, and never in
/// the same processing step as the redundant-variable cleanup.
pub fn trigger_continue_queue_if_needed(
    context: ContractContext,
    state: &ContractState,
    event_groups: &mut Vec<EventGroup>,
)
    ensures
        final(event_groups)@ == old(event_groups)@ + continuation_events(*state, context),
{
    if state.work_queue.len() > 0 {
        event_groups.push(EventGroup::ContinueQueue { target: context.contract_address });
        proof {
            assert(event_groups@ =~= old(event_groups)@ + continuation_events(*state, context));
        }
    } else {
        proof {
            assert(event_groups@ =~= old(event_groups)@ + continuation_events(*state, context));
        }
    }
}

/// Resume draining the queue.  Only the contract itself may invoke this:
/// it is the target of the continuation self-calls.
pub fn continue_queue(
    context: ContractContext,
    state: ContractState,
    zk_state: ZkState,
) -> (r: (ContractState, Vec<EventGroup>, Vec<ZkStateChange>))
    requires
        context.sender == context.contract_address,
        state.wf(),
        queue_wf(state),
    ensures
        r.0.wf(),
        advance_post(
            state,
            state.work_queue@,
            r.0,
            context,
            zk_state.calculation_state != CalculationStatus::Waiting,
            Seq::<EventGroup>::empty(),
            r.1@,
            Seq::<ZkStateChange>::empty(),
            r.2@,
        ),
{
    let mut zk_state_change: Vec<ZkStateChange> = Vec::new();
    let mut event_groups: Vec<EventGroup> = Vec::new();
    proof {
        assert(zk_state_change@ =~= Seq::<ZkStateChange>::empty());
        assert(event_groups@ =~= Seq::<EventGroup>::empty());
    }
    let mut st = state;
    st.attempt_to_start_next_in_queue(&context, &zk_state, &mut zk_state_change, &mut event_groups);
    (st, event_groups, zk_state_change)
}

/// Record a new lottery in `Pending` status and request the secret input
/// for its creation.
pub fn create_lottery(
    context: ContractContext,
    state: ContractState,
    _zk_state: ZkState,
    lottery_id: LotteryId,
    deadline: i64,
    entry_cost: u128,
    prize_pool: u128,
) -> (r: (ContractState, Vec<EventGroup>, ZkInputDef))
    requires
        state.wf(),
    ensures
        r.0.wf(),
        r.0.lotteries@ == state.lotteries@.insert(
            lottery_id,
            (LotteryState {
                lottery_id,
                creator: context.sender,
                status: LotteryStatus::Pending,
                deadline,
                winner: None,
                entry_cost,
                prize_pool,
                secret_state_id: None,
                pending_secret_state_id: None,
                winner_index: None,
            }),
        ),
        (r.0 == (ContractState { lotteries: r.0.lotteries, ..state })),
        r.1@ == Seq::<EventGroup>::empty(),
        r.2 == (ZkInputDef {
            on_inputted: InputTag::CreateLotteryInputted,
            metadata: VariableKind::LotteryCreationData { creator: context.sender, lottery_id },
        }),
{
    let lstate = LotteryState {
        lottery_id,
        creator: context.sender,
        status: LotteryStatus::Pending,
        deadline,
        winner: None,
        entry_cost,
        prize_pool,
        secret_state_id: None,
        pending_secret_state_id: None,
        winner_index: None,
    };
    let mut st = state;
    st.add_lottery(&lstate);
    let input_def = ZkInputDef::with_metadata(
        InputTag::CreateLotteryInputted,
        VariableKind::LotteryCreationData { creator: lstate.creator, lottery_id: lstate.lottery_id },
    );
    let event_groups: Vec<EventGroup> = Vec::new();
    proof {
        assert(event_groups@ =~= Seq::<EventGroup>::empty());
    }
    (st, event_groups, input_def)
}

/// Queue the lottery creation once its secret input has arrived.  The
/// inputted variable must carry lottery-creation metadata for a lottery
/// already recorded in the directory.
pub fn create_lottery_inputted(
    context: ContractContext,
    state: ContractState,
    zk_state: ZkState,
    lottery_creation_id: SecretVarId,
) -> (r: (ContractState, Vec<EventGroup>, Vec<ZkStateChange>))
    requires
        state.wf(),
        queue_wf(state),
        zk_state.spec_get_variable(lottery_creation_id) is Some,
        zk_state.spec_get_variable(lottery_creation_id).unwrap().metadata matches (
        VariableKind::LotteryCreationData { creator: _, lottery_id }) && state.lotteries@.contains_key(
            lottery_id,
        ),
    ensures
        r.0.wf(),
        ({
            let v = zk_state.spec_get_variable(lottery_creation_id).unwrap();
            v.metadata matches VariableKind::LotteryCreationData { creator, lottery_id }
                ==> advance_post(
                state,
                state.work_queue@.push(
                    WorkListItem::PendingLotteryCreation {
                        account: creator,
                        lottery_id,
                        prize_pool: state.lotteries@[lottery_id].prize_pool,
                        lottery_creation_id,
                    },
                ),
                r.0,
                context,
                zk_state.calculation_state != CalculationStatus::Waiting,
                Seq::<EventGroup>::empty(),
                r.1@,
                Seq::<ZkStateChange>::empty(),
                r.2@,
            )
        }),
{
    let mut zk_state_change: Vec<ZkStateChange> = Vec::new();
    let mut event_groups: Vec<EventGroup> = Vec::new();
    proof {
        assert(zk_state_change@ =~= Seq::<ZkStateChange>::empty());
        assert(event_groups@ =~= Seq::<EventGroup>::empty());
    }
    let variable = match zk_state.get_variable(lottery_creation_id) {
        Some(v) => v,
        None => unreached(),
    };
    match variable.metadata {
        VariableKind::LotteryCreationData { creator, lottery_id } => {
            let mut st = state;
            let lstate = match st.get_lottery(&lottery_id) {
                Some(l) => l,
                None => unreached(),
            };
            st.schedule_new_work_item(
                &context,
                &zk_state,
                &mut zk_state_change,
                &mut event_groups,
                WorkListItem::PendingLotteryCreation {
                    account: creator,
                    lottery_id,
                    prize_pool: lstate.prize_pool,
                    lottery_creation_id,
                },
            );
            (st, event_groups, zk_state_change)
        },
        _ => unreached(),
    }
}

/// Request the secret input for purchasing tickets in an open lottery.
pub fn purchase_tickets(
    context: ContractContext,
    state: ContractState,
    _zk_state: ZkState,
    lottery_id: LotteryId,
) -> (r: (ContractState, Vec<EventGroup>, ZkInputDef))
    requires
        state.wf(),
        state.lotteries@.contains_key(lottery_id),
        state.lotteries@[lottery_id].status is Open,
    ensures
        r.0 == state,
        r.1@ == Seq::<EventGroup>::empty(),
        r.2 == (ZkInputDef {
            on_inputted: InputTag::TicketPurchaseInputted,
            metadata: VariableKind::LotteryTicketPurchaseSecretData {
                owner: context.sender,
                lottery_id,
            },
        }),
{
    let lottery = match state.get_lottery(&lottery_id) {
        Some(l) => l,
        None => unreached(),
    };
    let input_def = ZkInputDef::with_metadata(
        InputTag::TicketPurchaseInputted,
        VariableKind::LotteryTicketPurchaseSecretData { owner: context.sender, lottery_id },
    );
    let event_groups: Vec<EventGroup> = Vec::new();
    proof {
        assert(event_groups@ =~= Seq::<EventGroup>::empty());
    }
    (state, event_groups, input_def)
}

/// Queue the ticket purchase once its secret input has arrived, if the
/// lottery is still open; otherwise report an isolated failure and queue
/// nothing.
pub fn ticket_purchase_inputted(
    context: ContractContext,
    state: ContractState,
    zk_state: ZkState,
    ticket_purchase_id: SecretVarId,
) -> (r: (ContractState, Vec<EventGroup>, Vec<ZkStateChange>))
    requires
        state.wf(),
        queue_wf(state),
        zk_state.spec_get_variable(ticket_purchase_id) is Some,
        zk_state.spec_get_variable(ticket_purchase_id).unwrap().metadata matches (
        VariableKind::LotteryTicketPurchaseSecretData { owner: _, lottery_id }) && {
            &&& state.lotteries@.contains_key(lottery_id)
            &&& (state.lotteries@[lottery_id].status is Open ==> {
                &&& state.lotteries@[lottery_id].secret_state_id is Some
                &&& state.lottery_accounts@.contains_key(lottery_id)
            })
        },
    ensures
        r.0.wf(),
        ({
            let v = zk_state.spec_get_variable(ticket_purchase_id).unwrap();
            v.metadata matches VariableKind::LotteryTicketPurchaseSecretData { owner, lottery_id }
                ==> if state.lotteries@[lottery_id].status is Open {
                advance_post(
                    state,
                    state.work_queue@.push(
                        WorkListItem::PendingLotteryTicketPurchase {
                            account: owner,
                            lottery_id,
                            ticket_purchase_id,
                        },
                    ),
                    r.0,
                    context,
                    zk_state.calculation_state != CalculationStatus::Waiting,
                    Seq::<EventGroup>::empty(),
                    r.1@,
                    Seq::<ZkStateChange>::empty(),
                    r.2@,
                )
            } else {
                &&& r.0 == state
                &&& r.1@ == seq![
                    EventGroup::DeferredFailure {
                        target: context.contract_address,
                        reason: FailureReason::TicketPurchaseOnLotteryNotOpen,
                    },
                ]
                &&& r.2@ == Seq::<ZkStateChange>::empty()
            }
        }),
{
    let mut zk_state_change: Vec<ZkStateChange> = Vec::new();
    let mut event_groups: Vec<EventGroup> = Vec::new();
    proof {
        assert(zk_state_change@ =~= Seq::<ZkStateChange>::empty());
        assert(event_groups@ =~= Seq::<EventGroup>::empty());
    }
    let variable = match zk_state.get_variable(ticket_purchase_id) {
        Some(v) => v,
        None => unreached(),
    };
    match variable.metadata {
        VariableKind::LotteryTicketPurchaseSecretData { owner, lottery_id } => {
            let lstate = match state.get_lottery(&lottery_id) {
                Some(l) => l,
                None => unreached(),
            };
            match lstate.status {
                LotteryStatus::Open => {
                    let mut st = state;
                    st.schedule_new_work_item(
                        &context,
                        &zk_state,
                        &mut zk_state_change,
                        &mut event_groups,
                        WorkListItem::PendingLotteryTicketPurchase {
                            account: owner,
                            lottery_id,
                            ticket_purchase_id,
                        },
                    );
                    (st, event_groups, zk_state_change)
                },
                _ => {
                    fail_safely(
                        &context,
                        &mut event_groups,
                        FailureReason::TicketPurchaseOnLotteryNotOpen,
                    );
                    proof {
                        assert(event_groups@ =~= seq![
                            EventGroup::DeferredFailure {
                                target: context.contract_address,
                                reason: FailureReason::TicketPurchaseOnLotteryNotOpen,
                            },
                        ]);
                    }
                    (state, event_groups, zk_state_change)
                },
            }
        },
        _ => unreached(),
    }
}

/// Queue a winner draw.  Only the creator may draw, only for an open
/// lottery, and only after the deadline has passed.
pub fn draw_winner(
    context: ContractContext,
    state: ContractState,
    zk_state: ZkState,
    lottery_id: LotteryId,
) -> (r: (ContractState, Vec<EventGroup>, Vec<ZkStateChange>))
    requires
        state.wf(),
        queue_wf(state),
        state.lotteries@.contains_key(lottery_id),
        state.lotteries@[lottery_id].status is Open,
        state.lotteries@[lottery_id].creator == context.sender,
        state.lotteries@[lottery_id].deadline < context.block_production_time,
        state.lotteries@[lottery_id].secret_state_id is Some,
        state.lottery_accounts@.contains_key(lottery_id),
        state.user_accounts@.contains_key(state.lotteries@[lottery_id].creator),
    ensures
        r.0.wf(),
        advance_post(
            state,
            state.work_queue@.push(WorkListItem::PendingDrawWinner { lottery_id }),
            r.0,
            context,
            zk_state.calculation_state != CalculationStatus::Waiting,
            Seq::<EventGroup>::empty(),
            r.1@,
            Seq::<ZkStateChange>::empty(),
            r.2@,
        ),
{
    let lottery = match state.get_lottery(&lottery_id) {
        Some(l) => l,
        None => unreached(),
    };
    let mut zk_state_change: Vec<ZkStateChange> = Vec::new();
    let mut event_groups: Vec<EventGroup> = Vec::new();
    proof {
        assert(zk_state_change@ =~= Seq::<ZkStateChange>::empty());
        assert(event_groups@ =~= Seq::<EventGroup>::empty());
    }
    let mut st = state;
    st.schedule_new_work_item(
        &context,
        &zk_state,
        &mut zk_state_change,
        &mut event_groups,
        WorkListItem::PendingDrawWinner { lottery_id },
    );
    (st, event_groups, zk_state_change)
}

/// How a completion handler leaves the registries: ownership transferred as
/// the fold says, and the redundant set emptied.
pub open spec fn completion_registries(
    pre: ContractState,
    zk: ZkState,
    outs: Seq<SecretVarId>,
    post: ContractState,
) -> bool {
    let out = ownership_fold(zk, outs, ownership_init(pre));
    &&& post.user_accounts@ == out.user_accounts
    &&& post.lottery_accounts@ == out.lottery_accounts
    &&& post.redundant_variables@ == Seq::<SecretVarId>::empty()
    &&& post.token == pre.token
    &&& post.api == pre.api
    &&& post.ua_account_key_map == pre.ua_account_key_map
    &&& post.work_queue@ == pre.work_queue@
}

/// The engine requests a completion handler emits, as a prefix of
/// `changes`: one rights transfer per installed variable, then the batch
/// deletion of the handles superseded within this completion, then —
/// strictly after ownership transfer — the batch deletion of the redundant
/// set accumulated by prior completions.
pub open spec fn completion_changes(
    pre: ContractState,
    zk: ZkState,
    outs: Seq<SecretVarId>,
    changes: Seq<ZkStateChange>,
) -> bool {
    let out = ownership_fold(zk, outs, ownership_init(pre));
    &&& changes.len() >= out.transfers.len() + 2
    &&& changes.take(out.transfers.len() as int) == transfer_change_seq(out.transfers, pre.api)
    &&& (changes[out.transfers.len() as int] matches ZkStateChange::DeleteVariables {
        variables_to_delete,
    } && variables_to_delete@ == out.previous)
    &&& (changes[out.transfers.len() as int + 1] matches ZkStateChange::DeleteVariables {
        variables_to_delete,
    } && variables_to_delete@ == pre.redundant_variables@)
}

/// The request prefix a completion handler built — the transfers and the
/// two batch deletions — survives whatever the handler appends afterwards.
proof fn lemma_completion_changes(
    pre: ContractState,
    zk: ZkState,
    outs: Seq<SecretVarId>,
    mid: Seq<ZkStateChange>,
    fin: Seq<ZkStateChange>,
)
    requires
        ({
            let out = ownership_fold(zk, outs, ownership_init(pre));
            &&& mid.len() == out.transfers.len() + 1
            &&& mid.drop_last() == Seq::<ZkStateChange>::empty() + transfer_change_seq(
                out.transfers,
                pre.api,
            )
            &&& (mid.last() matches ZkStateChange::DeleteVariables { variables_to_delete }
                && variables_to_delete@ == out.previous)
            &&& fin.len() >= mid.len() + 1
            &&& (forall|i: int| 0 <= i < mid.len() ==> #[trigger] fin[i] == mid[i])
            &&& (fin[mid.len() as int] matches ZkStateChange::DeleteVariables {
                variables_to_delete,
            } && variables_to_delete@ == pre.redundant_variables@)
        }),
    ensures
        completion_changes(pre, zk, outs, fin),
{
    let out = ownership_fold(zk, outs, ownership_init(pre));
    let n = out.transfers.len() as int;
    let ts = transfer_change_seq(out.transfers, pre.api);
    assert forall|k: int| 0 <= k < n implies fin.take(n)[k] == ts[k] by {
        assert(fin[k] == mid[k]);
        assert(mid[k] == mid.drop_last()[k]);
        assert(mid.drop_last()[k] == (Seq::<ZkStateChange>::empty() + ts)[k]);
    }
    assert(fin.take(n) =~= ts);
    assert(fin[n] == mid[n]);
    assert(mid[n] == mid.last());
}

/// Completion of a computation with no public result to reveal: transfer
/// ownership of the outputs, clean the redundant set, and re-trigger the
/// queue.
pub fn simple_work_item_complete(
    context: ContractContext,
    state: ContractState,
    zk_state: ZkState,
    output_variables: Vec<SecretVarId>,
) -> (r: (ContractState, Vec<EventGroup>, Vec<ZkStateChange>))
    requires
        state.wf(),
        outputs_present(zk_state, output_variables@),
    ensures
        r.0.wf(),
        completion_registries(state, zk_state, output_variables@, r.0),
        r.0.lotteries == state.lotteries,
        r.1@ == continuation_events(state, context),
        completion_changes(state, zk_state, output_variables@, r.2@),
        r.2@.len() == ownership_fold(zk_state, output_variables@, ownership_init(state)).transfers.len()
            + 2,
{
    let mut zk_state_change: Vec<ZkStateChange> = Vec::new();
    proof {
        assert(zk_state_change@ =~= Seq::<ZkStateChange>::empty());
    }
    let mut st = state;
    st.transfer_variables_to_owner(&zk_state, output_variables, &mut zk_state_change);
    let ghost changes_mid = zk_state_change@;
    st.clean_up_redundant_secret_variables(&mut zk_state_change);
    let mut event_groups: Vec<EventGroup> = Vec::new();
    proof {
        assert(event_groups@ =~= Seq::<EventGroup>::empty());
    }
    trigger_continue_queue_if_needed(context, &st, &mut event_groups);
    proof {
        assert(event_groups@ =~= continuation_events(state, context));
        lemma_completion_changes(state, zk_state, output_variables@, changes_mid, zk_state_change@);
    }
    (st, event_groups, zk_state_change)
}

/// Completion of an account creation: as the simple completion, and then
/// ask the engine to reveal the result variable (the second output).
pub fn create_account_complete(
    context: ContractContext,
    state: ContractState,
    zk_state: ZkState,
    output_variables: Vec<SecretVarId>,
) -> (r: (ContractState, Vec<EventGroup>, Vec<ZkStateChange>))
    requires
        state.wf(),
        outputs_present(zk_state, output_variables@),
        output_variables@.len() >= 2,
    ensures
        r.0.wf(),
        completion_registries(state, zk_state, output_variables@, r.0),
        r.0.lotteries == state.lotteries,
        r.1@ == continuation_events(state, context),
        completion_changes(state, zk_state, output_variables@, r.2@),
        r.2@.len() == ownership_fold(zk_state, output_variables@, ownership_init(state)).transfers.len()
            + 3,
        (r.2@.last() matches ZkStateChange::OpenVariables { variables } && variables@ == seq![
            output_variables@[1],
        ]),
{
    let result_id = output_variables[1];
    let mut zk_state_change: Vec<ZkStateChange> = Vec::new();
    proof {
        assert(zk_state_change@ =~= Seq::<ZkStateChange>::empty());
    }
    let mut st = state;
    st.transfer_variables_to_owner(&zk_state, output_variables, &mut zk_state_change);
    let ghost changes_mid = zk_state_change@;
    st.clean_up_redundant_secret_variables(&mut zk_state_change);
    let ghost changes_cu = zk_state_change@;
    let mut event_groups: Vec<EventGroup> = Vec::new();
    proof {
        assert(event_groups@ =~= Seq::<EventGroup>::empty());
    }
    trigger_continue_queue_if_needed(context, &st, &mut event_groups);
    proof {
        assert(event_groups@ =~= continuation_events(state, context));
    }
    let mut to_open: Vec<SecretVarId> = Vec::new();
    to_open.push(result_id);
    proof {
        assert(to_open@ =~= seq![output_variables@[1]]);
    }
    zk_state_change.push(ZkStateChange::OpenVariables { variables: to_open });
    proof {
        assert forall|i: int| 0 <= i < changes_mid.len() implies #[trigger] zk_state_change@[i]
            == changes_mid[i] by {
            assert(zk_state_change@[i] == changes_cu[i]);
        }
        assert(zk_state_change@[changes_mid.len() as int] == changes_cu[changes_mid.len() as int]);
        lemma_completion_changes(state, zk_state, output_variables@, changes_mid, zk_state_change@);
    }
    (st, event_groups, zk_state_change)
}

/// Completion of a credit redemption: as the simple completion, and then
/// ask the engine to reveal the withdraw result (the second output).
pub fn withdraw_complete(
    context: ContractContext,
    state: ContractState,
    zk_state: ZkState,
    output_variables: Vec<SecretVarId>,
) -> (r: (ContractState, Vec<EventGroup>, Vec<ZkStateChange>))
    requires
        state.wf(),
        outputs_present(zk_state, output_variables@),
        output_variables@.len() >= 2,
    ensures
        r.0.wf(),
        completion_registries(state, zk_state, output_variables@, r.0),
        r.0.lotteries == state.lotteries,
        r.1@ == continuation_events(state, context),
        completion_changes(state, zk_state, output_variables@, r.2@),
        r.2@.len() == ownership_fold(zk_state, output_variables@, ownership_init(state)).transfers.len()
            + 3,
        (r.2@.last() matches ZkStateChange::OpenVariables { variables } && variables@ == seq![
            output_variables@[1],
        ]),
{
    let result_id = output_variables[1];
    let mut zk_state_change: Vec<ZkStateChange> = Vec::new();
    proof {
        assert(zk_state_change@ =~= Seq::<ZkStateChange>::empty());
    }
    let mut st = state;
    st.transfer_variables_to_owner(&zk_state, output_variables, &mut zk_state_change);
    let ghost changes_mid = zk_state_change@;
    st.clean_up_redundant_secret_variables(&mut zk_state_change);
    let ghost changes_cu = zk_state_change@;
    let mut event_groups: Vec<EventGroup> = Vec::new();
    proof {
        assert(event_groups@ =~= Seq::<EventGroup>::empty());
    }
    trigger_continue_queue_if_needed(context, &st, &mut event_groups);
    proof {
        assert(event_groups@ =~= continuation_events(state, context));
    }
    let mut to_open: Vec<SecretVarId> = Vec::new();
    to_open.push(result_id);
    proof {
        assert(to_open@ =~= seq![output_variables@[1]]);
    }
    zk_state_change.push(ZkStateChange::OpenVariables { variables: to_open });
    proof {
        assert forall|i: int| 0 <= i < changes_mid.len() implies #[trigger] zk_state_change@[i]
            == changes_mid[i] by {
            assert(zk_state_change@[i] == changes_cu[i]);
        }
        assert(zk_state_change@[changes_mid.len() as int] == changes_cu[changes_mid.len() as int]);
        lemma_completion_changes(state, zk_state, output_variables@, changes_mid, zk_state_change@);
    }
    (st, event_groups, zk_state_change)
}

/// Completion of a lottery creation: record the replacement secret-state
/// handle (the third output) as pending — never as current, which only a
/// confirmed public result may do — then as the simple completion, and ask
/// the engine to reveal the creation result (the fourth output).
pub fn create_lottery_complete(
    context: ContractContext,
    state: ContractState,
    zk_state: ZkState,
    output_variables: Vec<SecretVarId>,
) -> (r: (ContractState, Vec<EventGroup>, Vec<ZkStateChange>))
    requires
        state.wf(),
        outputs_present(zk_state, output_variables@),
        output_variables@.len() >= 4,
        zk_state.spec_get_variable(output_variables@[2]).unwrap().metadata matches (
        VariableKind::SecretLotteryStateData { lottery_id }) && state.lotteries@.contains_key(
            lottery_id,
        ),
    ensures
        r.0.wf(),
        ({
            let v2 = zk_state.spec_get_variable(output_variables@[2]).unwrap();
            v2.metadata matches VariableKind::SecretLotteryStateData { lottery_id } ==> {
                &&& completion_registries(state, zk_state, output_variables@, r.0)
                &&& r.0.lotteries@ == state.lotteries@.insert(
                    lottery_id,
                    (LotteryState {
                        pending_secret_state_id: Some(output_variables@[2]),
                        ..state.lotteries@[lottery_id]
                    }),
                )
                &&& r.1@ == continuation_events(state, context)
                &&& completion_changes(state, zk_state, output_variables@, r.2@)
                &&& r.2@.len() == ownership_fold(
                    zk_state,
                    output_variables@,
                    ownership_init(state),
                ).transfers.len() + 3
                &&& (r.2@.last() matches ZkStateChange::OpenVariables { variables } && variables@
                    == seq![output_variables@[3]])
            }
        }),
{
    let result_id = output_variables[3];
    let secret_state_id = output_variables[2];
    let mut zk_state_change: Vec<ZkStateChange> = Vec::new();
    proof {
        assert(zk_state_change@ =~= Seq::<ZkStateChange>::empty());
    }
    let mut st = state;
    let state_var = match zk_state.get_variable(secret_state_id) {
        Some(v) => v,
        None => unreached(),
    };
    match state_var.metadata {
        VariableKind::SecretLotteryStateData { lottery_id } => {
            st.set_lottery_pending_secret_state_id(lottery_id, secret_state_id);
        },
        _ => unreached(),
    }
    let ghost st_mid = st;
    st.transfer_variables_to_owner(&zk_state, output_variables, &mut zk_state_change);
    let ghost changes_mid = zk_state_change@;
    st.clean_up_redundant_secret_variables(&mut zk_state_change);
    let ghost changes_cu = zk_state_change@;
    let mut event_groups: Vec<EventGroup> = Vec::new();
    proof {
        assert(event_groups@ =~= Seq::<EventGroup>::empty());
    }
    trigger_continue_queue_if_needed(context, &st, &mut event_groups);
    proof {
        assert(event_groups@ =~= continuation_events(state, context));
        assert(ownership_init(st_mid) == ownership_init(state));
    }
    let mut to_open: Vec<SecretVarId> = Vec::new();
    to_open.push(result_id);
    proof {
        assert(to_open@ =~= seq![output_variables@[3]]);
    }
    zk_state_change.push(ZkStateChange::OpenVariables { variables: to_open });
    proof {
        assert forall|i: int| 0 <= i < changes_mid.len() implies #[trigger] zk_state_change@[i]
            == changes_mid[i] by {
            assert(zk_state_change@[i] == changes_cu[i]);
        }
        assert(zk_state_change@[changes_mid.len() as int] == changes_cu[changes_mid.len() as int]);
        lemma_completion_changes(state, zk_state, output_variables@, changes_mid, zk_state_change@);
    }
    (st, event_groups, zk_state_change)
}

/// Completion of a ticket purchase: record the replacement secret-state
/// handle (the third output) as pending, then as the simple completion, and
/// ask the engine to reveal the purchase result (the fourth output).
pub fn ticket_purchase_complete(
    context: ContractContext,
    state: ContractState,
    zk_state: ZkState,
    output_variables: Vec<SecretVarId>,
) -> (r: (ContractState, Vec<EventGroup>, Vec<ZkStateChange>))
    requires
        state.wf(),
        outputs_present(zk_state, output_variables@),
        output_variables@.len() >= 4,
        zk_state.spec_get_variable(output_variables@[2]).unwrap().metadata matches (
        VariableKind::SecretLotteryStateData { lottery_id }) && state.lotteries@.contains_key(
            lottery_id,
        ),
    ensures
        r.0.wf(),
        ({
            let v2 = zk_state.spec_get_variable(output_variables@[2]).unwrap();
            v2.metadata matches VariableKind::SecretLotteryStateData { lottery_id } ==> {
                &&& completion_registries(state, zk_state, output_variables@, r.0)
                &&& r.0.lotteries@ == state.lotteries@.insert(
                    lottery_id,
                    (LotteryState {
                        pending_secret_state_id: Some(output_variables@[2]),
                        ..state.lotteries@[lottery_id]
                    }),
                )
                &&& r.1@ == continuation_events(state, context)
                &&& completion_changes(state, zk_state, output_variables@, r.2@)
                &&& r.2@.len() == ownership_fold(
                    zk_state,
                    output_variables@,
                    ownership_init(state),
                ).transfers.len() + 3
                &&& (r.2@.last() matches ZkStateChange::OpenVariables { variables } && variables@
                    == seq![output_variables@[3]])
            }
        }),
{
    let result_id = output_variables[3];
    let secret_state_id = output_variables[2];
    let mut zk_state_change: Vec<ZkStateChange> = Vec::new();
    proof {
        assert(zk_state_change@ =~= Seq::<ZkStateChange>::empty());
    }
    let mut st = state;
    let state_var = match zk_state.get_variable(secret_state_id) {
        Some(v) => v,
        None => unreached(),
    };
    match state_var.metadata {
        VariableKind::SecretLotteryStateData { lottery_id } => {
            st.set_lottery_pending_secret_state_id(lottery_id, secret_state_id);
        },
        _ => unreached(),
    }
    let ghost st_mid = st;
    st.transfer_variables_to_owner(&zk_state, output_variables, &mut zk_state_change);
    let ghost changes_mid = zk_state_change@;
    st.clean_up_redundant_secret_variables(&mut zk_state_change);
    let ghost changes_cu = zk_state_change@;
    let mut event_groups: Vec<EventGroup> = Vec::new();
    proof {
        assert(event_groups@ =~= Seq::<EventGroup>::empty());
    }
    trigger_continue_queue_if_needed(context, &st, &mut event_groups);
    proof {
        assert(event_groups@ =~= continuation_events(state, context));
        assert(ownership_init(st_mid) == ownership_init(state));
    }
    let mut to_open: Vec<SecretVarId> = Vec::new();
    to_open.push(result_id);
    proof {
        assert(to_open@ =~= seq![output_variables@[3]]);
    }
    zk_state_change.push(ZkStateChange::OpenVariables { variables: to_open });
    proof {
        assert forall|i: int| 0 <= i < changes_mid.len() implies #[trigger] zk_state_change@[i]
            == changes_mid[i] by {
            assert(zk_state_change@[i] == changes_cu[i]);
        }
        assert(zk_state_change@[changes_mid.len() as int] == changes_cu[changes_mid.len() as int]);
        lemma_completion_changes(state, zk_state, output_variables@, changes_mid, zk_state_change@);
    }
    (st, event_groups, zk_state_change)
}

/// Completion of a winner draw: as the simple completion, and then ask the
/// engine to reveal the draw result (the third output).
pub fn draw_winner_complete(
    context: ContractContext,
    state: ContractState,
    zk_state: ZkState,
    output_variables: Vec<SecretVarId>,
) -> (r: (ContractState, Vec<EventGroup>, Vec<ZkStateChange>))
    requires
        state.wf(),
        outputs_present(zk_state, output_variables@),
        output_variables@.len() >= 3,
    ensures
        r.0.wf(),
        completion_registries(state, zk_state, output_variables@, r.0),
        r.0.lotteries == state.lotteries,
        r.1@ == continuation_events(state, context),
        completion_changes(state, zk_state, output_variables@, r.2@),
        r.2@.len() == ownership_fold(zk_state, output_variables@, ownership_init(state)).transfers.len()
            + 3,
        (r.2@.last() matches ZkStateChange::OpenVariables { variables } && variables@ == seq![
            output_variables@[2],
        ]),
{
    let result_id = output_variables[2];
    let mut zk_state_change: Vec<ZkStateChange> = Vec::new();
    proof {
        assert(zk_state_change@ =~= Seq::<ZkStateChange>::empty());
    }
    let mut st = state;
    st.transfer_variables_to_owner(&zk_state, output_variables, &mut zk_state_change);
    let ghost changes_mid = zk_state_change@;
    st.clean_up_redundant_secret_variables(&mut zk_state_change);
    let ghost changes_cu = zk_state_change@;
    let mut event_groups: Vec<EventGroup> = Vec::new();
    proof {
        assert(event_groups@ =~= Seq::<EventGroup>::empty());
    }
    trigger_continue_queue_if_needed(context, &st, &mut event_groups);
    proof {
        assert(event_groups@ =~= continuation_events(state, context));
    }
    let mut to_open: Vec<SecretVarId> = Vec::new();
    to_open.push(result_id);
    proof {
        assert(to_open@ =~= seq![output_variables@[2]]);
    }
    zk_state_change.push(ZkStateChange::OpenVariables { variables: to_open });
    proof {
        assert forall|i: int| 0 <= i < changes_mid.len() implies #[trigger] zk_state_change@[i]
            == changes_mid[i] by {
            assert(zk_state_change@[i] == changes_cu[i]);
        }
        assert(zk_state_change@[changes_mid.len() as int] == changes_cu[changes_mid.len() as int]);
        lemma_completion_changes(state, zk_state, output_variables@, changes_mid, zk_state_change@);
    }
    (st, event_groups, zk_state_change)
}

/// Interpret a publicly revealed computation result.
///
/// The revealed variable is single-use: it is always deleted.  The
/// interpreter branches only on the revealed success flag — it never
/// re-derives the outcome — and routes every confirmed failure through an
/// isolated deferred failure, so confidential state is never corrupted by a
/// failed attempt:
///
/// - account creation: on success, record the public key-to-address
///   mapping; a key collision is isolated.
/// - withdrawal: on success, pay the confirmed amount to the recorded
///   owner; an insufficient balance is isolated, with the attempted amount.
/// - lottery creation: on success, open the lottery and promote its pending
///   secret state to current; on failure the status stays `Pending`, the
///   current handle stays, and the pending handle is discarded into the
///   redundant set.
/// - ticket purchase: on success, promote the pending secret state; on
///   failure the pending handle is discarded.
/// - winner draw: on success, resolve the winner's key to an address and
///   close the lottery with that winner; on failure the lottery stays as it
///   was.
///
/// A revealed variable of any other kind is an invariant breach — a
/// structural error, not a business condition — so such inputs are excluded
/// outright and the unverified shell aborts the invocation on them.
pub fn variable_opened(
    context: ContractContext,
    state: ContractState,
    zk_state: ZkState,
    opened_variables: Vec<SecretVarId>,
) -> (r: (ContractState, Vec<EventGroup>, Vec<ZkStateChange>))
    requires
        state.wf(),
        opened_variables@.len() > 0,
        zk_state.spec_get_variable(opened_variables@[0]) is Some,
        ({
            let v = zk_state.spec_get_variable(opened_variables@[0]).unwrap();
            match v.metadata {
                VariableKind::AccountCreationResult { .. } => v.data matches Some(d)
                    && is_computation_result(d@),
                VariableKind::WithdrawResult { .. } => v.data matches Some(d)
                    && is_computation_result(d@),
                VariableKind::LotteryCreationResult { owner: _, lottery_id } => {
                    &&& v.data matches Some(d) && is_computation_result(d@)
                    &&& state.lotteries@.contains_key(lottery_id)
                },
                VariableKind::LotteryTicketPurchaseResult { owner: _, lottery_id } => {
                    &&& v.data matches Some(d) && is_computation_result(d@)
                    &&& state.lotteries@.contains_key(lottery_id)
                },
                VariableKind::LotteryWinnerDrawResult { lottery_id } => {
                    &&& v.data matches Some(d) && is_draw_result(d@)
                    &&& (spec_draw_result(v.data.unwrap()@).successful ==> {
                        &&& state.ua_account_key_map@.contains_key(
                            spec_draw_result(v.data.unwrap()@).winner_id,
                        )
                        &&& state.lotteries@.contains_key(lottery_id)
                    })
                },
                _ => false,
            }
        }),
    ensures
        r.0.wf(),
        r.2@.len() == 1,
        (r.2@[0] matches ZkStateChange::DeleteVariables { variables_to_delete }
            && variables_to_delete@ == seq![opened_variables@[0]]),
        ({
            let v = zk_state.spec_get_variable(opened_variables@[0]).unwrap();
            match v.metadata {
                VariableKind::AccountCreationResult { owner, account_key } => {
                    let result = spec_computation_result(v.data.unwrap()@);
                    if result.successful {
                        &&& r.0.ua_account_key_map@ == state.ua_account_key_map@.insert(
                            account_key,
                            owner,
                        )
                        &&& (r.0 == (ContractState {
                            ua_account_key_map: r.0.ua_account_key_map,
                            ..state
                        }))
                        &&& r.1@ == Seq::<EventGroup>::empty()
                    } else {
                        &&& r.0 == state
                        &&& r.1@ == seq![
                            EventGroup::DeferredFailure {
                                target: context.contract_address,
                                reason: FailureReason::AccountCreationFailed,
                            },
                        ]
                    }
                },
                VariableKind::WithdrawResult { owner: _ } => {
                    let result = spec_computation_result(v.data.unwrap()@);
                    &&& r.0 == state
                    &&& r.1@ == if result.successful {
                        seq![
                            EventGroup::TokenTransfer {
                                token: state.token,
                                receiver: v.owner,
                                amount: result.amount,
                            },
                        ]
                    } else {
                        seq![
                            EventGroup::DeferredFailure {
                                target: context.contract_address,
                                reason: FailureReason::InsufficientBalance {
                                    amount: result.amount,
                                },
                            },
                        ]
                    }
                },
                VariableKind::LotteryCreationResult { owner: _, lottery_id } => {
                    let result = spec_computation_result(v.data.unwrap()@);
                    let l = state.lotteries@[lottery_id];
                    if result.successful {
                        &&& r.0.lotteries@ == state.lotteries@.insert(
                            lottery_id,
                            (LotteryState {
                                status: LotteryStatus::Open,
                                secret_state_id: l.pending_secret_state_id,
                                pending_secret_state_id: None,
                                ..l
                            }),
                        )
                        &&& r.0.redundant_variables@ == (match l.secret_state_id {
                            Some(old_id) => state.redundant_variables@.push(old_id),
                            None => state.redundant_variables@,
                        })
                        &&& (r.0 == (ContractState {
                            lotteries: r.0.lotteries,
                            redundant_variables: r.0.redundant_variables,
                            ..state
                        }))
                        &&& r.1@ == Seq::<EventGroup>::empty()
                    } else {
                        &&& r.0.lotteries@ == state.lotteries@.insert(
                            lottery_id,
                            (LotteryState { pending_secret_state_id: None, ..l }),
                        )
                        &&& r.0.redundant_variables@ == (match l.pending_secret_state_id {
                            Some(pending_id) => state.redundant_variables@.push(pending_id),
                            None => state.redundant_variables@,
                        })
                        &&& (r.0 == (ContractState {
                            lotteries: r.0.lotteries,
                            redundant_variables: r.0.redundant_variables,
                            ..state
                        }))
                        &&& r.1@ == seq![
                            EventGroup::DeferredFailure {
                                target: context.contract_address,
                                reason: FailureReason::LotteryCreationFailed { lottery_id },
                            },
                        ]
                    }
                },
                VariableKind::LotteryTicketPurchaseResult { owner: _, lottery_id } => {
                    let result = spec_computation_result(v.data.unwrap()@);
                    let l = state.lotteries@[lottery_id];
                    if result.successful {
                        &&& r.0.lotteries@ == state.lotteries@.insert(
                            lottery_id,
                            (LotteryState {
                                secret_state_id: l.pending_secret_state_id,
                                pending_secret_state_id: None,
                                ..l
                            }),
                        )
                        &&& r.0.redundant_variables@ == (match l.secret_state_id {
                            Some(old_id) => state.redundant_variables@.push(old_id),
                            None => state.redundant_variables@,
                        })
                        &&& (r.0 == (ContractState {
                            lotteries: r.0.lotteries,
                            redundant_variables: r.0.redundant_variables,
                            ..state
                        }))
                        &&& r.1@ == Seq::<EventGroup>::empty()
                    } else {
                        &&& r.0.lotteries@ == state.lotteries@.insert(
                            lottery_id,
                            (LotteryState { pending_secret_state_id: None, ..l }),
                        )
                        &&& r.0.redundant_variables@ == (match l.pending_secret_state_id {
                            Some(pending_id) => state.redundant_variables@.push(pending_id),
                            None => state.redundant_variables@,
                        })
                        &&& (r.0 == (ContractState {
                            lotteries: r.0.lotteries,
                            redundant_variables: r.0.redundant_variables,
                            ..state
                        }))
                        &&& r.1@ == seq![
                            EventGroup::DeferredFailure {
                                target: context.contract_address,
                                reason: FailureReason::TicketPurchaseFailed { lottery_id },
                            },
                        ]
                    }
                },
                VariableKind::LotteryWinnerDrawResult { lottery_id } => {
                    let result = spec_draw_result(v.data.unwrap()@);
                    if result.successful {
                        &&& r.0.lotteries@ == state.lotteries@.insert(
                            lottery_id,
                            (LotteryState {
                                status: LotteryStatus::Closed,
                                winner: Some(state.ua_account_key_map@[result.winner_id]),
                                ..state.lotteries@[lottery_id]
                            }),
                        )
                        &&& (r.0 == (ContractState { lotteries: r.0.lotteries, ..state }))
                        &&& r.1@ == Seq::<EventGroup>::empty()
                    } else {
                        &&& r.0 == state
                        &&& r.1@ == seq![
                            EventGroup::DeferredFailure {
                                target: context.contract_address,
                                reason: FailureReason::WinnerDrawFailed { lottery_id },
                            },
                        ]
                    }
                },
                _ => true,
            }
        }),
{
    let result_id = opened_variables[0];
    let result_variable = match zk_state.get_variable(result_id) {
        Some(v) => v,
        None => unreached(),
    };
    let mut to_delete: Vec<SecretVarId> = Vec::new();
    to_delete.push(result_id);
    proof {
        assert(to_delete@ =~= seq![opened_variables@[0]]);
    }
    let mut zk_state_change: Vec<ZkStateChange> = Vec::new();
    zk_state_change.push(ZkStateChange::DeleteVariables { variables_to_delete: to_delete });
    let mut event_groups: Vec<EventGroup> = Vec::new();
    proof {
        assert(event_groups@ =~= Seq::<EventGroup>::empty());
    }
    let mut st = state;
    match result_variable.metadata {
        VariableKind::AccountCreationResult { owner, account_key } => {
            let result = read_result(result_variable);
            if !result.successful {
                fail_safely(&context, &mut event_groups, FailureReason::AccountCreationFailed);
                proof {
                    assert(event_groups@ =~= seq![
                        EventGroup::DeferredFailure {
                            target: context.contract_address,
                            reason: FailureReason::AccountCreationFailed,
                        },
                    ]);
                }
            } else {
                st.add_user_account_id(owner, account_key);
            }
        },
        VariableKind::WithdrawResult { owner: _ } => {
            let result = read_result(result_variable);
            if !result.successful {
                fail_safely(
                    &context,
                    &mut event_groups,
                    FailureReason::InsufficientBalance { amount: result.amount },
                );
                proof {
                    assert(event_groups@ =~= seq![
                        EventGroup::DeferredFailure {
                            target: context.contract_address,
                            reason: FailureReason::InsufficientBalance { amount: result.amount },
                        },
                    ]);
                }
            } else {
                let recipient = result_variable.owner;
                let token = MPC20Contract::at_address(st.token);
                token.transfer(&mut event_groups, &recipient, result.amount);
                proof {
                    assert(event_groups@ =~= seq![
                        EventGroup::TokenTransfer {
                            token: state.token,
                            receiver: result_variable.owner,
                            amount: result.amount,
                        },
                    ]);
                }
            }
        },
        VariableKind::LotteryCreationResult { owner: _, lottery_id } => {
            let result = read_result(result_variable);
            if !result.successful {
                fail_safely(
                    &context,
                    &mut event_groups,
                    FailureReason::LotteryCreationFailed { lottery_id },
                );
                st.discard_lottery_pending_secret_state_id(lottery_id);
                proof {
                    assert(event_groups@ =~= seq![
                        EventGroup::DeferredFailure {
                            target: context.contract_address,
                            reason: FailureReason::LotteryCreationFailed { lottery_id },
                        },
                    ]);
                }
            } else {
                st.mark_lottery_as_open(lottery_id);
                st.promote_lottery_pending_secret_state_id(lottery_id);
                proof {
                    let l = state.lotteries@[lottery_id];
                    assert(st.lotteries@ =~= state.lotteries@.insert(
                        lottery_id,
                        (LotteryState {
                            status: LotteryStatus::Open,
                            secret_state_id: l.pending_secret_state_id,
                            pending_secret_state_id: None,
                            ..l
                        }),
                    ));
                }
            }
        },
        VariableKind::LotteryTicketPurchaseResult { owner: _, lottery_id } => {
            let result = read_result(result_variable);
            if !result.successful {
                fail_safely(
                    &context,
                    &mut event_groups,
                    FailureReason::TicketPurchaseFailed { lottery_id },
                );
                st.discard_lottery_pending_secret_state_id(lottery_id);
                proof {
                    assert(event_groups@ =~= seq![
                        EventGroup::DeferredFailure {
                            target: context.contract_address,
                            reason: FailureReason::TicketPurchaseFailed { lottery_id },
                        },
                    ]);
                }
            } else {
                st.promote_lottery_pending_secret_state_id(lottery_id);
            }
        },
        VariableKind::LotteryWinnerDrawResult { lottery_id } => {
            let result = read_draw_result(result_variable);
            if !result.successful {
                fail_safely(
                    &context,
                    &mut event_groups,
                    FailureReason::WinnerDrawFailed { lottery_id },
                );
                proof {
                    assert(event_groups@ =~= seq![
                        EventGroup::DeferredFailure {
                            target: context.contract_address,
                            reason: FailureReason::WinnerDrawFailed { lottery_id },
                        },
                    ]);
                }
            } else {
                let winner = match st.ua_account_key_map.get(result.winner_id) {
                    Some(w) => *w,
                    None => unreached(),
                };
                st.mark_lottery_as_closed(lottery_id, winner);
            }
        },
        _ => unreached(),
    }
    (st, event_groups, zk_state_change)
}

} // verus!
