//! The library's cross-cutting guarantees, stated and proved once over the
//! scheduler's and interpreter's specifications.

use vstd::prelude::*;

use crate::actions::completion_changes;
use crate::events::ContractContext;
use crate::events::EventGroup;
use crate::lottery::LotteryState;
use crate::lottery::LotteryStatus;
use crate::state::ContractState;
use crate::state::OwnershipOutcome;
use crate::state::WorkListItem;
use crate::state::advance_post;
use crate::state::ownership_fold;
use crate::state::ownership_init;
use crate::state::ownership_step;
use crate::state::transfer_change_seq;
use crate::zk::SecretVarId;
use crate::zk::VariableKind;
use crate::zk::ZkState;
use crate::zk::ZkStateChange;
use crate::zk::lookup_var;
use crate::zk_compute::DrawScan;
use crate::zk_compute::SecretVar;
use crate::zk_compute::draw_scan;
use crate::zk_compute::ticket_secret_of;

verus! {

/// Number of computation submissions among the emitted requests.
pub open spec fn submission_count(changes: Seq<ZkStateChange>) -> int
    decreases changes.len(),
{
    if changes.len() == 0 {
        0
    } else {
        submission_count(changes.drop_last()) + (if changes.last() is StartComputation {
            1int
        } else {
            0int
        })
    }
}

/// At most one job is ever in flight: a queue-advance pass submits nothing
/// while the engine reports a running computation, and at most one
/// computation — for the first runnable item — once it reports idle.  Since
/// every submission in the library goes through a queue-advance pass, and
/// the engine stays busy from a submission until the matching completion,
/// no two submissions can ever be outstanding together.
pub proof fn lemma_single_flight(
    pre: ContractState,
    q: Seq<WorkListItem>,
    post: ContractState,
    ctx: ContractContext,
    busy: bool,
    events_pre: Seq<EventGroup>,
    events_post: Seq<EventGroup>,
    changes_pre: Seq<ZkStateChange>,
    changes_post: Seq<ZkStateChange>,
)
    requires
        advance_post(pre, q, post, ctx, busy, events_pre, events_post, changes_pre, changes_post),
    ensures
        submission_count(changes_post) <= submission_count(changes_pre) + 1,
        busy ==> changes_post == changes_pre,
{
    if !busy {
        let k = crate::state::first_ready_index(pre, q);
        if k < q.len() {
            assert(changes_post.drop_last() =~= changes_pre);
        }
    }
}

/// A completion handler never submits a computation: everything it emits is
/// an ownership transfer, a batch deletion, or a reveal request.  Together
/// with [`lemma_single_flight`] this keeps the single-flight property
/// across the whole completion cycle: the queue is only re-entered through
/// a separate continuation invocation.
pub proof fn lemma_completion_no_submission(
    pre: ContractState,
    zk: ZkState,
    outs: Seq<SecretVarId>,
    changes: Seq<ZkStateChange>,
)
    requires
        completion_changes(pre, zk, outs, changes),
        changes.len() <= ownership_fold(zk, outs, ownership_init(pre)).transfers.len() + 3,
        changes.len() == ownership_fold(zk, outs, ownership_init(pre)).transfers.len() + 3
            ==> changes.last() is OpenVariables,
    ensures
        forall|i: int| 0 <= i < changes.len() ==> !((#[trigger] changes[i]) is StartComputation),
{
    let out = ownership_fold(zk, outs, ownership_init(pre));
    let n = out.transfers.len() as int;
    let ts = transfer_change_seq(out.transfers, pre.api);
    assert forall|i: int| 0 <= i < changes.len() implies !((#[trigger] changes[i])
        is StartComputation) by {
        if i < n {
            assert(changes[i] == changes.take(n)[i]);
            assert(ts[i] == (ZkStateChange::TransferVariable {
                variable: out.transfers[i],
                new_owner: pre.api,
            }));
        } else if i == n + 2 {
            assert(changes[i] == changes.last());
        }
    }
}

/// The handle installed for an entity by a completion is the last output
/// the batch produced for that entity, if any.
pub open spec fn last_user_output(zk: ZkState, outs: Seq<SecretVarId>, a: u128) -> Option<
    SecretVarId,
>
    decreases outs.len(),
{
    if outs.len() == 0 {
        None
    } else {
        match lookup_var(zk.variables@, outs.last()) {
            Some(v) => {
                if v.metadata matches VariableKind::UserAccount { owner } && owner == a {
                    Some(v.variable_id)
                } else {
                    last_user_output(zk, outs.drop_last(), a)
                }
            },
            None => last_user_output(zk, outs.drop_last(), a),
        }
    }
}

/// One live handle per entity, and superseded handles join the delete
/// batch.  After the ownership-transfer pass of a completed job cycle, a
/// user entity touched by the batch is registered to exactly the last
/// handle produced for it — the registry is a map, so it never holds two —
/// and the handle that was live before the pass appears in the very delete
/// batch this completion emits.  An entity the batch did not touch keeps
/// its handle.
pub proof fn lemma_one_live_handle(zk: ZkState, outs: Seq<SecretVarId>, init: OwnershipOutcome, a: u128)
    ensures
        ({
            let out = ownership_fold(zk, outs, init);
            match last_user_output(zk, outs, a) {
                Some(id) => {
                    &&& out.user_accounts.contains_key(a)
                    &&& out.user_accounts[a] == id
                    &&& (init.user_accounts.contains_key(a) ==> out.previous.contains(
                        init.user_accounts[a],
                    ))
                },
                None => {
                    &&& out.user_accounts.contains_key(a) == init.user_accounts.contains_key(a)
                    &&& (init.user_accounts.contains_key(a) ==> out.user_accounts[a]
                        == init.user_accounts[a])
                },
            }
        }),
    decreases outs.len(),
{
    if outs.len() > 0 {
        lemma_one_live_handle(zk, outs.drop_last(), init, a);
        let prev = ownership_fold(zk, outs.drop_last(), init);
        let out = ownership_fold(zk, outs, init);
        match lookup_var(zk.variables@, outs.last()) {
            Some(v) => {
                assert(out == ownership_step(prev, v));
                match v.metadata {
                    VariableKind::UserAccount { owner } => {
                        if owner == a {
                            if prev.user_accounts.contains_key(a) {
                                assert(out.previous.contains(prev.user_accounts[a])) by {
                                    assert(out.previous[out.previous.len() - 1]
                                        == prev.user_accounts[a]);
                                }
                                if init.user_accounts.contains_key(a) {
                                    match last_user_output(zk, outs.drop_last(), a) {
                                        Some(_) => {
                                            lemma_previous_monotonic_step(prev, v);
                                        },
                                        None => {
                                            assert(prev.user_accounts[a]
                                                == init.user_accounts[a]);
                                        },
                                    }
                                }
                            }
                        } else {
                            lemma_previous_monotonic_step(prev, v);
                        }
                    },
                    VariableKind::LotteryAccount { .. } => {
                        lemma_previous_monotonic_step(prev, v);
                    },
                    _ => {},
                }
            },
            None => {},
        }
    }
}

/// Number of occurrences of `id` in a handle sequence.
pub open spec fn id_count(s: Seq<SecretVarId>, id: SecretVarId) -> int
    decreases s.len(),
{
    if s.len() == 0 {
        0
    } else {
        id_count(s.drop_last(), id) + (if s.last() == id {
            1int
        } else {
            0int
        })
    }
}

/// No output of the batch carries the handle `h`.
pub open spec fn outputs_avoid(zk: ZkState, outs: Seq<SecretVarId>, h: SecretVarId) -> bool {
    forall|i: int|
        0 <= i < outs.len() ==> match lookup_var(zk.variables@, #[trigger] outs[i]) {
            Some(v) => v.variable_id != h,
            None => true,
        }
}

/// The previously live handle appears in the delete batch exactly once.
///
/// Before the pass, entity `a` holds handle `h`, no other entity holds `h`,
/// and — since the engine mints a fresh identifier for every output — no
/// output of the batch carries `h`.  Then the batch's delete set contains
/// `h` exactly once if the batch touched `a`, and not at all otherwise; and
/// after the pass `a`'s registered handle is `h` exactly when the batch did
/// not touch `a`.
pub proof fn lemma_superseded_exactly_once(
    zk: ZkState,
    outs: Seq<SecretVarId>,
    init: OwnershipOutcome,
    a: u128,
)
    requires
        init.previous == Seq::<SecretVarId>::empty(),
        init.user_accounts.contains_key(a),
        outputs_avoid(zk, outs, init.user_accounts[a]),
        forall|b: u128|
            b != a && init.user_accounts.contains_key(b) ==> #[trigger] init.user_accounts[b]
                != init.user_accounts[a],
        forall|lid: u128|
            init.lottery_accounts.contains_key(lid) ==> #[trigger] init.lottery_accounts[lid]
                != init.user_accounts[a],
    ensures
        ({
            let h = init.user_accounts[a];
            let out = ownership_fold(zk, outs, init);
            &&& id_count(out.previous, h) == (if last_user_output(zk, outs, a) is Some {
                1int
            } else {
                0int
            })
            &&& out.user_accounts.contains_key(a)
            &&& (last_user_output(zk, outs, a) is None ==> out.user_accounts[a] == h)
            &&& (last_user_output(zk, outs, a) is Some ==> out.user_accounts[a] != h)
            &&& (forall|b: u128|
                b != a && out.user_accounts.contains_key(b) ==> #[trigger] out.user_accounts[b]
                    != h)
            &&& (forall|lid: u128|
                out.lottery_accounts.contains_key(lid) ==> #[trigger] out.lottery_accounts[lid]
                    != h)
        }),
    decreases outs.len(),
{
    let h = init.user_accounts[a];
    if outs.len() == 0 {
    } else {
        assert forall|i: int|
            0 <= i < outs.drop_last().len() implies match lookup_var(
            zk.variables@,
            #[trigger] outs.drop_last()[i],
        ) {
            Some(v) => v.variable_id != h,
            None => true,
        } by {
            assert(outs.drop_last()[i] == outs[i]);
        }
        lemma_superseded_exactly_once(zk, outs.drop_last(), init, a);
        let prev = ownership_fold(zk, outs.drop_last(), init);
        let out = ownership_fold(zk, outs, init);
        match lookup_var(zk.variables@, outs.last()) {
            Some(v) => {
                assert(out == ownership_step(prev, v));
                assert(v.variable_id != h);
                match v.metadata {
                    VariableKind::UserAccount { owner } => {
                        if prev.user_accounts.contains_key(owner) {
                            assert(out.previous == prev.previous.push(
                                prev.user_accounts[owner],
                            ));
                            assert(out.previous.drop_last() =~= prev.previous);
                            if owner == a {
                                match last_user_output(zk, outs.drop_last(), a) {
                                    Some(_) => {
                                        assert(prev.user_accounts[a] != h);
                                    },
                                    None => {
                                        assert(prev.user_accounts[a] == h);
                                    },
                                }
                            } else {
                                assert(prev.user_accounts[owner] != h);
                            }
                        }
                    },
                    VariableKind::LotteryAccount { owner: _, lottery_id } => {
                        if prev.lottery_accounts.contains_key(lottery_id) {
                            assert(out.previous == prev.previous.push(
                                prev.lottery_accounts[lottery_id],
                            ));
                            assert(out.previous.drop_last() =~= prev.previous);
                            assert(prev.lottery_accounts[lottery_id] != h);
                        }
                    },
                    _ => {},
                }
            },
            None => {},
        }
    }
}

/// One ownership step never removes anything from the delete batch.
proof fn lemma_previous_monotonic_step(o: OwnershipOutcome, v: crate::zk::ZkVariable)
    ensures
        forall|id: SecretVarId|
            o.previous.contains(id) ==> ownership_step(o, v).previous.contains(id),
{
    let out = ownership_step(o, v);
    assert forall|id: SecretVarId| o.previous.contains(id) implies out.previous.contains(id) by {
        let j = choose|j: int| 0 <= j < o.previous.len() && o.previous[j] == id;
        assert(out.previous[j] == id);
    }
}

/// Advancing the queue while a computation is running is a no-op: the
/// state, the scheduled interactions and the engine requests all stay as
/// they were.
pub proof fn lemma_advance_busy_noop(
    pre: ContractState,
    q: Seq<WorkListItem>,
    post: ContractState,
    ctx: ContractContext,
    events_pre: Seq<EventGroup>,
    events_post: Seq<EventGroup>,
    changes_pre: Seq<ZkStateChange>,
    changes_post: Seq<ZkStateChange>,
)
    requires
        advance_post(pre, q, post, ctx, true, events_pre, events_post, changes_pre, changes_post),
    ensures
        post.work_queue@ == q,
        post.user_accounts == pre.user_accounts,
        post.ua_account_key_map == pre.ua_account_key_map,
        post.lottery_accounts == pre.lottery_accounts,
        post.lotteries == pre.lotteries,
        post.redundant_variables == pre.redundant_variables,
        events_post == events_pre,
        changes_post == changes_pre,
{
}

/// Advancing an empty queue while the engine is idle is equally a no-op.
pub proof fn lemma_advance_empty_noop(
    pre: ContractState,
    post: ContractState,
    ctx: ContractContext,
    events_pre: Seq<EventGroup>,
    events_post: Seq<EventGroup>,
    changes_pre: Seq<ZkStateChange>,
    changes_post: Seq<ZkStateChange>,
)
    requires
        advance_post(
            pre,
            Seq::<WorkListItem>::empty(),
            post,
            ctx,
            false,
            events_pre,
            events_post,
            changes_pre,
            changes_post,
        ),
    ensures
        post.work_queue@ == Seq::<WorkListItem>::empty(),
        post.user_accounts == pre.user_accounts,
        post.ua_account_key_map == pre.ua_account_key_map,
        post.lottery_accounts == pre.lottery_accounts,
        post.lotteries == pre.lotteries,
        post.redundant_variables == pre.redundant_variables,
        events_post == events_pre,
        changes_post == changes_pre,
{
    let q = Seq::<WorkListItem>::empty();
    assert(crate::state::first_ready_index(pre, q) == 0);
    assert(events_pre + crate::state::failure_events(pre, ctx, q.take(0)) =~= events_pre);
}

/// Flushing an empty redundant set is a no-op: nothing in the state moves
/// and the one emitted batch deletes nothing.
pub proof fn lemma_flush_empty_noop(
    pre: ContractState,
    post: ContractState,
    changes_pre: Seq<ZkStateChange>,
    changes_post: Seq<ZkStateChange>,
)
    requires
        pre.redundant_variables@ == Seq::<SecretVarId>::empty(),
        post.redundant_variables@ == Seq::<SecretVarId>::empty(),
        (post == (ContractState { redundant_variables: post.redundant_variables, ..pre })),
        changes_post.len() == changes_pre.len() + 1,
        (changes_post.last() matches ZkStateChange::DeleteVariables { variables_to_delete }
            && variables_to_delete@ == pre.redundant_variables@),
    ensures
        post.redundant_variables@ == pre.redundant_variables@,
        post.user_accounts == pre.user_accounts,
        post.ua_account_key_map == pre.ua_account_key_map,
        post.lottery_accounts == pre.lottery_accounts,
        post.lotteries == pre.lotteries,
        post.work_queue == pre.work_queue,
        (changes_post.last() matches ZkStateChange::DeleteVariables { variables_to_delete }
            && variables_to_delete@ == Seq::<SecretVarId>::empty()),
{
}

/// Round trip of a lottery creation through the interpreter: a successful
/// reveal moves the status from `Pending` to `Open` and replaces the
/// current secret-state handle with the pending one, exactly once; a failed
/// reveal leaves the status at `Pending` and the current handle untouched,
/// and only discards the pending handle.
pub proof fn lemma_lottery_creation_round_trip(
    state: ContractState,
    post: ContractState,
    lottery_id: u128,
    pending: SecretVarId,
    successful: bool,
)
    requires
        state.lotteries@.contains_key(lottery_id),
        state.lotteries@[lottery_id].status is Pending,
        state.lotteries@[lottery_id].pending_secret_state_id == Some(pending),
        ({
            let l = state.lotteries@[lottery_id];
            if successful {
                post.lotteries@ == state.lotteries@.insert(
                    lottery_id,
                    (LotteryState {
                        status: LotteryStatus::Open,
                        secret_state_id: l.pending_secret_state_id,
                        pending_secret_state_id: None,
                        ..l
                    }),
                )
            } else {
                post.lotteries@ == state.lotteries@.insert(
                    lottery_id,
                    (LotteryState { pending_secret_state_id: None, ..l }),
                )
            }
        }),
    ensures
        successful ==> {
            &&& post.lotteries@[lottery_id].status is Open
            &&& post.lotteries@[lottery_id].secret_state_id == Some(pending)
            &&& post.lotteries@[lottery_id].pending_secret_state_id is None
        },
        !successful ==> {
            &&& post.lotteries@[lottery_id].status is Pending
            &&& post.lotteries@[lottery_id].secret_state_id == state.lotteries@[
                lottery_id
            ].secret_state_id
            &&& post.lotteries@[lottery_id].pending_secret_state_id is None
        },
{
}


/// The winning index falls inside this ticket's cumulative run at the given
/// scan position.
pub open spec fn ticket_covers(
    s: DrawScan,
    v: SecretVar,
    lottery_account_key: u128,
    winner_index: u128,
) -> bool {
    &&& v.kind is LotteryTicketPurchaseSecretData
    &&& ticket_secret_of(v).lottery_account_key == lottery_account_key
    &&& winner_index >= s.cidx
    &&& winner_index < vstd::wrapping::u128_specs::wrapping_add(
        s.cidx,
        ticket_secret_of(v).tickets,
    )
}

/// If the winning index falls inside no recorded ticket's cumulative run,
/// the winner scan finds nobody and moves no funds; the draw then reports a
/// confirmed failure with winner key zero and refunds the whole lottery
/// balance to the creator, exactly as `draw_lottery_winner` ensures for a
/// zero scan result — a computation-confirmed failure for the Result
/// Interpreter to isolate.
pub proof fn lemma_draw_no_cover(
    vars: Seq<SecretVar>,
    init: DrawScan,
    lottery_account_key: u128,
    winner_index: u128,
    prize_pool: u128,
)
    requires
        init.winner_id == 0,
        forall|i: int|
            0 <= i < vars.len() ==> !ticket_covers(
                draw_scan(vars.take(i), init, lottery_account_key, winner_index, prize_pool),
                #[trigger] vars[i],
                lottery_account_key,
                winner_index,
            ),
    ensures
        ({
            let out = draw_scan(vars, init, lottery_account_key, winner_index, prize_pool);
            &&& out.winner_id == 0
            &&& out.lottery_balance == init.lottery_balance
            &&& out.creator_balance == init.creator_balance
        }),
    decreases vars.len(),
{
    if vars.len() > 0 {
        let shorter = vars.drop_last();
        assert forall|i: int|
            0 <= i < shorter.len() implies !ticket_covers(
            draw_scan(shorter.take(i), init, lottery_account_key, winner_index, prize_pool),
            #[trigger] shorter[i],
            lottery_account_key,
            winner_index,
        ) by {
            assert(shorter.take(i) =~= vars.take(i));
            assert(shorter[i] == vars[i]);
        }
        lemma_draw_no_cover(shorter, init, lottery_account_key, winner_index, prize_pool);
        assert(vars.take(vars.len() - 1) =~= shorter);
        assert(!ticket_covers(
            draw_scan(shorter, init, lottery_account_key, winner_index, prize_pool),
            vars.last(),
            lottery_account_key,
            winner_index,
        ));
    }
}

/// A lottery no ticket purchase was ever recorded for — in particular one
/// whose secret ticket count is zero — offers no cover for any winning
/// index, so its draw always fails and refunds the creator.
pub proof fn lemma_draw_no_tickets(
    vars: Seq<SecretVar>,
    init: DrawScan,
    lottery_account_key: u128,
    winner_index: u128,
    prize_pool: u128,
)
    requires
        init.winner_id == 0,
        forall|i: int|
            0 <= i < vars.len() ==> !((#[trigger] vars[i]).kind
                is LotteryTicketPurchaseSecretData && ticket_secret_of(vars[i]).lottery_account_key
                == lottery_account_key),
    ensures
        ({
            let out = draw_scan(vars, init, lottery_account_key, winner_index, prize_pool);
            &&& out.winner_id == 0
            &&& out.lottery_balance == init.lottery_balance
            &&& out.creator_balance == init.creator_balance
        }),
{
    assert forall|i: int|
        0 <= i < vars.len() implies !ticket_covers(
        draw_scan(vars.take(i), init, lottery_account_key, winner_index, prize_pool),
        #[trigger] vars[i],
        lottery_account_key,
        winner_index,
    ) by {}
    lemma_draw_no_cover(vars, init, lottery_account_key, winner_index, prize_pool);
}

} // verus!
