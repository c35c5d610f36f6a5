//! The contract's aggregate state and the scheduler around it: the
//! confidential-variable registries, the lottery directory, the FIFO work
//! queue, and the set of superseded variables awaiting deletion.

use vstd::prelude::*;

use std::collections::VecDeque;

use crate::events::Address;
use crate::events::ContractContext;
use crate::events::EventGroup;
use crate::events::FailureReason;
use crate::events::fail_safely;
use crate::keymap::KeyMap;
use crate::lottery::LotteryId;
use crate::lottery::LotteryState;
use crate::lottery::LotteryStatus;
use crate::zk::CalculationStatus;
use crate::zk::CompletionTag;
use crate::zk::ComputationKind;
use crate::zk::SecretVarId;
use crate::zk::VariableKind;
use crate::zk::ZkState;
use crate::zk::ZkStateChange;
use crate::zk::ZkVariable;
use crate::zk::lookup_var;
use crate::zk::outputs_present;

verus! {

/// A queued logical operation, carrying everything needed to submit its
/// computation once it reaches the head of the queue.
#[derive(Clone, Copy, PartialEq, Eq, Structural, Debug)]
pub enum WorkListItem {
    /// Created by the account-creation secret input.
    PendingAccountCreation {
        /// Account to create.
        account: Address,
        /// Public copy of the account key, echoed into the result metadata.
        account_key: u128,
        /// Identifier of the secret-shared account-creation input.
        account_creation_id: SecretVarId,
    },
    /// Created by the credit-purchase escrow callback.
    PendingPurchaseCredits {
        /// Account to credit.
        account: Address,
        /// Amount of credits to add.
        credits: u128,
    },
    /// Created by the credit-redemption action.
    PendingRedeemCredits {
        /// Account to debit.
        account: Address,
        /// Amount of credits to redeem.
        credits: u128,
    },
    /// Created by the lottery-creation secret input.
    PendingLotteryCreation {
        /// Account of the lottery creator.
        account: Address,
        /// Lottery being created.
        lottery_id: LotteryId,
        /// Prize pool to move into the lottery account.
        prize_pool: u128,
        /// Identifier of the secret-shared lottery-creation input.
        lottery_creation_id: SecretVarId,
    },
    /// Created by the ticket-purchase secret input.
    PendingLotteryTicketPurchase {
        /// Account of the purchaser.
        account: Address,
        /// Lottery being entered.
        lottery_id: LotteryId,
        /// Identifier of the secret-shared ticket-purchase input.
        ticket_purchase_id: SecretVarId,
    },
    /// Created by the winner-draw action.
    PendingDrawWinner {
        /// Lottery to draw a winner for.
        lottery_id: LotteryId,
    },
}

/// The complete persistent state of one contract instance.
pub struct ContractState {
    /// Address of the token contract used for escrow and payouts.
    pub token: Address,
    /// Principal granted read rights on transferred variables, standing in
    /// for the real owner where the deployment cannot read confidential data
    /// directly.
    pub api: Address,
    /// Registry: each user account's current balance variable.
    pub user_accounts: KeyMap<SecretVarId>,
    /// Public map from revealed account keys to addresses.
    pub ua_account_key_map: KeyMap<Address>,
    /// Registry: each lottery account's current balance variable.
    pub lottery_accounts: KeyMap<SecretVarId>,
    /// Directory of lottery records.
    pub lotteries: KeyMap<LotteryState>,
    /// FIFO queue of operations awaiting their computation.
    pub work_queue: VecDeque<WorkListItem>,
    /// Handles superseded by earlier completions, to be deleted in the next
    /// cleanup step.
    pub redundant_variables: Vec<SecretVarId>,
}

impl ContractState {
    /// All registries are well-formed.
    pub open spec fn wf(&self) -> bool {
        &&& self.user_accounts.wf()
        &&& self.ua_account_key_map.wf()
        &&& self.lottery_accounts.wf()
        &&& self.lotteries.wf()
    }

    /// A fresh contract state with empty registries and an empty queue.
    pub fn new(token: Address, api: Address) -> (s: Self)
        ensures
            s.wf(),
            s.token == token,
            s.api == api,
            s.user_accounts@ == Map::<u128, SecretVarId>::empty(),
            s.ua_account_key_map@ == Map::<u128, Address>::empty(),
            s.lottery_accounts@ == Map::<u128, SecretVarId>::empty(),
            s.lotteries@ == Map::<u128, LotteryState>::empty(),
            s.work_queue@ == Seq::<WorkListItem>::empty(),
            s.redundant_variables@ == Seq::<SecretVarId>::empty(),
    {
        let s = ContractState {
            token,
            api,
            user_accounts: KeyMap::new(),
            ua_account_key_map: KeyMap::new(),
            lottery_accounts: KeyMap::new(),
            lotteries: KeyMap::new(),
            work_queue: VecDeque::new(),
            redundant_variables: Vec::new(),
        };
        proof {
            assert(s.work_queue@ =~= Seq::<WorkListItem>::empty());
            assert(s.redundant_variables@ =~= Seq::<SecretVarId>::empty());
        }
        s
    }

    /// Whether a user account exists.
    pub fn has_user_account(&self, address: &Address) -> (b: bool)
        ensures
            b == self.user_accounts@.contains_key(*address),
    {
        self.user_accounts.contains_key(*address)
    }

    /// Record `secret_var_id` as the user account's current variable.
    pub fn add_user_account(&mut self, address: Address, secret_var_id: SecretVarId)
        requires
            old(self).wf(),
        ensures
            final(self).wf(),
            final(self).user_accounts@ == old(self).user_accounts@.insert(address, secret_var_id),
            (*final(self) == (ContractState {
                user_accounts: final(self).user_accounts,
                ..*old(self)
            })),
    {
        self.user_accounts.insert(address, secret_var_id);
    }

    /// Record the public mapping from a revealed account key to its address.
    pub fn add_user_account_id(&mut self, address: Address, account_key: u128)
        requires
            old(self).wf(),
        ensures
            final(self).wf(),
            final(self).ua_account_key_map@ == old(self).ua_account_key_map@.insert(
                account_key,
                address,
            ),
            (*final(self) == (ContractState {
                ua_account_key_map: final(self).ua_account_key_map,
                ..*old(self)
            })),
    {
        self.ua_account_key_map.insert(account_key, address);
    }

    /// The user account's current variable, if the account exists.
    pub fn get_user_account_var_id(&self, address: &Address) -> (r: Option<SecretVarId>)
        requires
            self.wf(),
        ensures
            match r {
                Some(id) => self.user_accounts@.contains_key(*address) && id
                    == self.user_accounts@[*address],
                None => !self.user_accounts@.contains_key(*address),
            },
    {
        match self.user_accounts.get(*address) {
            Some(id) => Some(*id),
            None => None,
        }
    }

    /// Add or replace the record of a lottery.
    pub fn add_lottery(&mut self, lottery_state: &LotteryState)
        requires
            old(self).wf(),
        ensures
            final(self).wf(),
            final(self).lotteries@ == old(self).lotteries@.insert(
                lottery_state.lottery_id,
                *lottery_state,
            ),
            (*final(self) == (ContractState { lotteries: final(self).lotteries, ..*old(self) })),
    {
        self.lotteries.insert(lottery_state.lottery_id, *lottery_state);
    }

    /// The record of a lottery, if it exists.
    pub fn get_lottery(&self, lottery_id: &LotteryId) -> (r: Option<LotteryState>)
        requires
            self.wf(),
        ensures
            match r {
                Some(l) => self.lotteries@.contains_key(*lottery_id) && l
                    == self.lotteries@[*lottery_id],
                None => !self.lotteries@.contains_key(*lottery_id),
            },
    {
        match self.lotteries.get(*lottery_id) {
            Some(l) => Some(*l),
            None => None,
        }
    }

    /// Whether a lottery account exists.
    pub fn has_lottery_account(&self, lottery_id: &LotteryId) -> (b: bool)
        ensures
            b == self.lottery_accounts@.contains_key(*lottery_id),
    {
        self.lottery_accounts.contains_key(*lottery_id)
    }

    /// Record `secret_var_id` as the lottery account's current variable.
    pub fn add_lottery_account(&mut self, lottery_id: LotteryId, secret_var_id: SecretVarId)
        requires
            old(self).wf(),
        ensures
            final(self).wf(),
            final(self).lottery_accounts@ == old(self).lottery_accounts@.insert(
                lottery_id,
                secret_var_id,
            ),
            (*final(self) == (ContractState {
                lottery_accounts: final(self).lottery_accounts,
                ..*old(self)
            })),
    {
        self.lottery_accounts.insert(lottery_id, secret_var_id);
    }

    /// The lottery account's current variable, if it exists.
    pub fn get_lottery_account_var_id(&self, lottery_id: &LotteryId) -> (r: Option<SecretVarId>)
        requires
            self.wf(),
        ensures
            match r {
                Some(id) => self.lottery_accounts@.contains_key(*lottery_id) && id
                    == self.lottery_accounts@[*lottery_id],
                None => !self.lottery_accounts@.contains_key(*lottery_id),
            },
    {
        match self.lottery_accounts.get(*lottery_id) {
            Some(id) => Some(*id),
            None => None,
        }
    }

    /// Move a lottery to `Open` once its creation funds are confirmed.
    pub fn mark_lottery_as_open(&mut self, lottery_id: LotteryId)
        requires
            old(self).wf(),
            old(self).lotteries@.contains_key(lottery_id),
        ensures
            final(self).wf(),
            final(self).lotteries@ == old(self).lotteries@.insert(
                lottery_id,
                (LotteryState {
                    status: LotteryStatus::Open,
                    ..old(self).lotteries@[lottery_id]
                }),
            ),
            (*final(self) == (ContractState { lotteries: final(self).lotteries, ..*old(self) })),
    {
        let lottery = match self.lotteries.get(lottery_id) {
            Some(l) => *l,
            None => unreached(),
        };
        let updated = LotteryState { status: LotteryStatus::Open, ..lottery };
        self.lotteries.insert(lottery_id, updated);
    }

    /// Move a lottery to `Closed`, recording the drawn winner.
    pub fn mark_lottery_as_closed(&mut self, lottery_id: LotteryId, winner: Address)
        requires
            old(self).wf(),
            old(self).lotteries@.contains_key(lottery_id),
        ensures
            final(self).wf(),
            final(self).lotteries@ == old(self).lotteries@.insert(
                lottery_id,
                (LotteryState {
                    status: LotteryStatus::Closed,
                    winner: Some(winner),
                    ..old(self).lotteries@[lottery_id]
                }),
            ),
            (*final(self) == (ContractState { lotteries: final(self).lotteries, ..*old(self) })),
    {
        let lottery = match self.lotteries.get(lottery_id) {
            Some(l) => *l,
            None => unreached(),
        };
        let updated = LotteryState {
            status: LotteryStatus::Closed,
            winner: Some(winner),
            ..lottery
        };
        self.lotteries.insert(lottery_id, updated);
    }

    /// Record the handle of a freshly produced replacement secret state,
    /// without touching the current one.
    pub fn set_lottery_pending_secret_state_id(
        &mut self,
        lottery_id: LotteryId,
        secret_var_id: SecretVarId,
    )
        requires
            old(self).wf(),
            old(self).lotteries@.contains_key(lottery_id),
        ensures
            final(self).wf(),
            final(self).lotteries@ == old(self).lotteries@.insert(
                lottery_id,
                (LotteryState {
                    pending_secret_state_id: Some(secret_var_id),
                    ..old(self).lotteries@[lottery_id]
                }),
            ),
            (*final(self) == (ContractState { lotteries: final(self).lotteries, ..*old(self) })),
    {
        let lottery = match self.lotteries.get(lottery_id) {
            Some(l) => *l,
            None => unreached(),
        };
        let updated = LotteryState { pending_secret_state_id: Some(secret_var_id), ..lottery };
        self.lotteries.insert(lottery_id, updated);
    }

    /// Promote the pending secret-state handle to current, marking the old
    /// current handle redundant.  Runs only after the corresponding public
    /// result is confirmed successful.
    pub fn promote_lottery_pending_secret_state_id(&mut self, lottery_id: LotteryId)
        requires
            old(self).wf(),
            old(self).lotteries@.contains_key(lottery_id),
        ensures
            final(self).wf(),
            final(self).lotteries@ == old(self).lotteries@.insert(
                lottery_id,
                (LotteryState {
                    secret_state_id: old(self).lotteries@[lottery_id].pending_secret_state_id,
                    pending_secret_state_id: None,
                    ..old(self).lotteries@[lottery_id]
                }),
            ),
            final(self).redundant_variables@ == (match old(
                self,
            ).lotteries@[lottery_id].secret_state_id {
                Some(old_id) => old(self).redundant_variables@.push(old_id),
                None => old(self).redundant_variables@,
            }),
            (*final(self) == (ContractState {
                lotteries: final(self).lotteries,
                redundant_variables: final(self).redundant_variables,
                ..*old(self)
            })),
    {
        let lottery = match self.lotteries.get(lottery_id) {
            Some(l) => *l,
            None => unreached(),
        };
        if let Some(old_secret_state_id) = lottery.secret_state_id {
            self.redundant_variables.push(old_secret_state_id);
        }
        let updated = LotteryState {
            secret_state_id: lottery.pending_secret_state_id,
            pending_secret_state_id: None,
            ..lottery
        };
        self.lotteries.insert(lottery_id, updated);
    }

    /// Drop the pending secret-state handle after a failed attempt: the
    /// current handle stays untouched, and the discarded handle joins the
    /// redundant set so the next cleanup deletes it.
    pub fn discard_lottery_pending_secret_state_id(&mut self, lottery_id: LotteryId)
        requires
            old(self).wf(),
            old(self).lotteries@.contains_key(lottery_id),
        ensures
            final(self).wf(),
            final(self).lotteries@ == old(self).lotteries@.insert(
                lottery_id,
                (LotteryState {
                    pending_secret_state_id: None,
                    ..old(self).lotteries@[lottery_id]
                }),
            ),
            final(self).redundant_variables@ == (match old(
                self,
            ).lotteries@[lottery_id].pending_secret_state_id {
                Some(pending_id) => old(self).redundant_variables@.push(pending_id),
                None => old(self).redundant_variables@,
            }),
            (*final(self) == (ContractState {
                lotteries: final(self).lotteries,
                redundant_variables: final(self).redundant_variables,
                ..*old(self)
            })),
    {
        let lottery = match self.lotteries.get(lottery_id) {
            Some(l) => *l,
            None => unreached(),
        };
        if let Some(pending_id) = lottery.pending_secret_state_id {
            self.redundant_variables.push(pending_id);
        }
        let updated = LotteryState { pending_secret_state_id: None, ..lottery };
        self.lotteries.insert(lottery_id, updated);
    }
}

/// Registry contents and emitted requests accumulated while processing the
/// output variables of one completed computation.
pub struct OwnershipOutcome {
    /// The user-account registry after the outputs processed so far.
    pub user_accounts: Map<u128, SecretVarId>,
    /// The lottery-account registry after the outputs processed so far.
    pub lottery_accounts: Map<u128, SecretVarId>,
    /// Handles superseded within this batch, in the order they were found;
    /// they are deleted together once the whole batch is processed.
    pub previous: Seq<SecretVarId>,
    /// Variables whose read rights were reassigned, in order.
    pub transfers: Seq<SecretVarId>,
}

/// Starting point of the ownership-transfer pass: the current registries,
/// nothing superseded, nothing transferred.
pub open spec fn ownership_init(s: ContractState) -> OwnershipOutcome {
    OwnershipOutcome {
        user_accounts: s.user_accounts@,
        lottery_accounts: s.lottery_accounts@,
        previous: Seq::empty(),
        transfers: Seq::empty(),
    }
}

/// Process one output variable: an account variable supersedes the entity's
/// previous handle (which joins the delete batch), is installed as current,
/// and has its read rights reassigned; any other output is left alone.
pub open spec fn ownership_step(o: OwnershipOutcome, v: ZkVariable) -> OwnershipOutcome {
    match v.metadata {
        VariableKind::UserAccount { owner } => OwnershipOutcome {
            user_accounts: o.user_accounts.insert(owner, v.variable_id),
            lottery_accounts: o.lottery_accounts,
            previous: if o.user_accounts.contains_key(owner) {
                o.previous.push(o.user_accounts[owner])
            } else {
                o.previous
            },
            transfers: o.transfers.push(v.variable_id),
        },
        VariableKind::LotteryAccount { owner: _, lottery_id } => OwnershipOutcome {
            user_accounts: o.user_accounts,
            lottery_accounts: o.lottery_accounts.insert(lottery_id, v.variable_id),
            previous: if o.lottery_accounts.contains_key(lottery_id) {
                o.previous.push(o.lottery_accounts[lottery_id])
            } else {
                o.previous
            },
            transfers: o.transfers.push(v.variable_id),
        },
        _ => o,
    }
}

/// The ownership-transfer pass over a whole batch of output variables, in
/// order.
pub open spec fn ownership_fold(
    zk: ZkState,
    outs: Seq<SecretVarId>,
    init: OwnershipOutcome,
) -> OwnershipOutcome
    decreases outs.len(),
{
    if outs.len() == 0 {
        init
    } else {
        match lookup_var(zk.variables@, outs.last()) {
            Some(v) => ownership_step(ownership_fold(zk, outs.drop_last(), init), v),
            None => ownership_fold(zk, outs.drop_last(), init),
        }
    }
}

/// The rights-transfer requests for the given variables, in order.
pub open spec fn transfer_change_seq(ids: Seq<SecretVarId>, api: Address) -> Seq<ZkStateChange> {
    ids.map_values(
        |id: SecretVarId| ZkStateChange::TransferVariable { variable: id, new_owner: api },
    )
}

impl ContractState {
    /// Install the newly produced account variables of a completed
    /// computation as the current handles of their entities, superseding and
    /// collecting the previous handles, and reassign read rights on each
    /// installed variable.
    ///
    /// The deployment cannot read confidential data through the real owner,
    /// so rights go to the configured substitute recipient `api` instead of
    /// the owner recorded in the metadata.
    ///
    /// The superseded handles — including handles superseded by a later
    /// output of this same batch — are deleted together, strictly after all
    /// installs.
    pub fn transfer_variables_to_owner(
        &mut self,
        zk_state: &ZkState,
        output_variables: Vec<SecretVarId>,
        zk_state_change: &mut Vec<ZkStateChange>,
    )
        requires
            old(self).wf(),
            outputs_present(*zk_state, output_variables@),
        ensures
            final(self).wf(),
            ({
                let out = ownership_fold(*zk_state, output_variables@, ownership_init(*old(self)));
                &&& final(self).user_accounts@ == out.user_accounts
                &&& final(self).lottery_accounts@ == out.lottery_accounts
                &&& (*final(self) == (ContractState {
                    user_accounts: final(self).user_accounts,
                    lottery_accounts: final(self).lottery_accounts,
                    ..*old(self)
                }))
                &&& final(zk_state_change)@.len() == old(zk_state_change)@.len()
                    + out.transfers.len() + 1
                &&& final(zk_state_change)@.drop_last() == old(zk_state_change)@
                    + transfer_change_seq(out.transfers, old(self).api)
                &&& (final(zk_state_change)@.last() matches ZkStateChange::DeleteVariables {
                    variables_to_delete,
                } && variables_to_delete@ == out.previous)
            }),
    {
        let ghost pre = *self;
        let ghost changes0 = zk_state_change@;
        let mut previous_variable_ids: Vec<SecretVarId> = Vec::new();
        proof {
            assert(changes0 + transfer_change_seq(
                Seq::<SecretVarId>::empty(),
                pre.api,
            ) =~= changes0);
        }
        let mut i: usize = 0;
        while i < output_variables.len()
            invariant
                self.wf(),
                0 <= i <= output_variables@.len(),
                ({
                    let out = ownership_fold(
                        *zk_state,
                        output_variables@.take(i as int),
                        ownership_init(pre),
                    );
                    &&& self.user_accounts@ == out.user_accounts
                    &&& self.lottery_accounts@ == out.lottery_accounts
                    &&& previous_variable_ids@ == out.previous
                    &&& zk_state_change@ == changes0 + transfer_change_seq(
                        out.transfers,
                        pre.api,
                    )
                }),
                (*self == (ContractState {
                    user_accounts: self.user_accounts,
                    lottery_accounts: self.lottery_accounts,
                    ..pre
                })),
            decreases output_variables@.len() - i,
        {
            let variable_id = output_variables[i];
            let variable = match zk_state.get_variable(variable_id) {
                Some(v) => v,
                None => unreached(),
            };
            match variable.metadata {
                VariableKind::UserAccount { owner } => {
                    if let Some(previous_variable_id) = self.get_user_account_var_id(&owner) {
                        previous_variable_ids.push(previous_variable_id);
                    }
                    self.add_user_account(owner, variable.variable_id);
                    zk_state_change.push(
                        ZkStateChange::TransferVariable {
                            variable: variable.variable_id,
                            new_owner: self.api,
                        },
                    );
                    proof {
                        let o = ownership_fold(
                            *zk_state,
                            output_variables@.take(i as int),
                            ownership_init(pre),
                        );
                        assert(transfer_change_seq(
                            o.transfers.push(variable.variable_id),
                            pre.api,
                        ) =~= transfer_change_seq(o.transfers, pre.api).push(
                            ZkStateChange::TransferVariable {
                                variable: variable.variable_id,
                                new_owner: pre.api,
                            },
                        ));
                        assert(zk_state_change@ =~= changes0 + transfer_change_seq(
                            o.transfers.push(variable.variable_id),
                            pre.api,
                        ));
                    }
                },
                VariableKind::LotteryAccount { owner: _, lottery_id } => {
                    if let Some(previous_variable_id) = self.get_lottery_account_var_id(
                        &lottery_id,
                    ) {
                        previous_variable_ids.push(previous_variable_id);
                    }
                    self.add_lottery_account(lottery_id, variable.variable_id);
                    zk_state_change.push(
                        ZkStateChange::TransferVariable {
                            variable: variable.variable_id,
                            new_owner: self.api,
                        },
                    );
                    proof {
                        let o = ownership_fold(
                            *zk_state,
                            output_variables@.take(i as int),
                            ownership_init(pre),
                        );
                        assert(transfer_change_seq(
                            o.transfers.push(variable.variable_id),
                            pre.api,
                        ) =~= transfer_change_seq(o.transfers, pre.api).push(
                            ZkStateChange::TransferVariable {
                                variable: variable.variable_id,
                                new_owner: pre.api,
                            },
                        ));
                        assert(zk_state_change@ =~= changes0 + transfer_change_seq(
                            o.transfers.push(variable.variable_id),
                            pre.api,
                        ));
                    }
                },
                _ => {},
            }
            proof {
                assert(output_variables@.take(i as int + 1).drop_last() =~= output_variables@.take(
                    i as int,
                ));
                assert(output_variables@.take(i as int + 1).last() == output_variables@[i as int]);
            }
            i = i + 1;
        }
        proof {
            assert(output_variables@.take(output_variables@.len() as int) =~= output_variables@);
        }
        let ghost loop_changes = zk_state_change@;
        zk_state_change.push(
            ZkStateChange::DeleteVariables { variables_to_delete: previous_variable_ids },
        );
        proof {
            assert(zk_state_change@.drop_last() =~= loop_changes);
        }
    }

    /// Emit one batch deletion of every handle accumulated as redundant by
    /// prior completions, and empty the set.  Runs strictly after the
    /// ownership transfer of the same completion, and never in the same
    /// processing step as a queue advance.
    pub fn clean_up_redundant_secret_variables(&mut self, state_changes: &mut Vec<ZkStateChange>)
        ensures
            final(self).redundant_variables@ == Seq::<SecretVarId>::empty(),
            (*final(self) == (ContractState {
                redundant_variables: final(self).redundant_variables,
                ..*old(self)
            })),
            final(state_changes)@.len() == old(state_changes)@.len() + 1,
            (forall|i: int|
                0 <= i < old(state_changes)@.len() ==> final(state_changes)@[i] == old(
                    state_changes,
                )@[i]),
            (final(state_changes)@.last() matches ZkStateChange::DeleteVariables {
                variables_to_delete,
            } && variables_to_delete@ == old(self).redundant_variables@),
    {
        let ghost pre = *self;
        let mut batch: Vec<SecretVarId> = Vec::new();
        let mut i: usize = 0;
        while i < self.redundant_variables.len()
            invariant
                0 <= i <= self.redundant_variables@.len(),
                *self == pre,
                batch@ == self.redundant_variables@.take(i as int),
            decreases self.redundant_variables@.len() - i,
        {
            batch.push(self.redundant_variables[i]);
            proof {
                assert(self.redundant_variables@.take(i as int + 1) =~= self.redundant_variables@
                    .take(i as int).push(self.redundant_variables@[i as int]));
            }
            i = i + 1;
        }
        proof {
            assert(self.redundant_variables@.take(self.redundant_variables@.len() as int)
                =~= self.redundant_variables@);
        }
        self.redundant_variables = Vec::new();
        proof {
            assert(self.redundant_variables@ =~= Seq::<SecretVarId>::empty());
        }
        state_changes.push(ZkStateChange::DeleteVariables { variables_to_delete: batch });
    }
}

/// Whether a popped item passes its submission-time precondition.
///
/// Preconditions are checked when the item is popped, not when it was
/// enqueued, so a job may legitimately sit behind another that changes the
/// precondition's truth value.
pub open spec fn item_ready(s: ContractState, item: WorkListItem) -> bool {
    match item {
        WorkListItem::PendingAccountCreation { account, .. } => !s.user_accounts@.contains_key(
            account,
        ),
        WorkListItem::PendingPurchaseCredits { account, .. } => s.user_accounts@.contains_key(
            account,
        ),
        WorkListItem::PendingRedeemCredits { account, .. } => s.user_accounts@.contains_key(
            account,
        ),
        WorkListItem::PendingLotteryCreation { account, .. } => s.user_accounts@.contains_key(
            account,
        ),
        WorkListItem::PendingLotteryTicketPurchase { account, lottery_id, .. } => (
        s.user_accounts@.contains_key(account) && s.lotteries@[lottery_id].status is Open),
        WorkListItem::PendingDrawWinner { lottery_id } => s.lotteries@[lottery_id].status
            is Open,
    }
}

/// The isolated-failure reason reported when an item fails its
/// submission-time precondition in state `s`.
pub open spec fn failure_reason_for(s: ContractState, item: WorkListItem) -> FailureReason {
    match item {
        WorkListItem::PendingAccountCreation { .. } => FailureReason::AccountAlreadyExists,
        WorkListItem::PendingPurchaseCredits { .. } => FailureReason::PurchaseForMissingAccount,
        WorkListItem::PendingRedeemCredits { .. } => FailureReason::RedeemForMissingAccount,
        WorkListItem::PendingLotteryCreation { .. } => FailureReason::CreatorHasNoAccount,
        WorkListItem::PendingLotteryTicketPurchase { account, .. } => (
        if s.user_accounts@.contains_key(account) {
            FailureReason::TicketPurchaseOnLotteryNotOpen
        } else {
            FailureReason::TicketPurchaseForMissingAccount
        }),
        WorkListItem::PendingDrawWinner { .. } => FailureReason::DrawOnLotteryNotOpen,
    }
}

/// Structural facts the scheduler relies on when submitting an item.  Their
/// absence would be a programmer error — an invariant breach, not a
/// recoverable business condition — so entry points require them.
pub open spec fn item_wf(s: ContractState, item: WorkListItem) -> bool {
    match item {
        WorkListItem::PendingLotteryTicketPurchase { account, lottery_id, .. } => (
        s.user_accounts@.contains_key(account) ==> {
            &&& s.lotteries@.contains_key(lottery_id)
            &&& (s.lotteries@[lottery_id].status is Open ==> {
                &&& s.lotteries@[lottery_id].secret_state_id is Some
                &&& s.lottery_accounts@.contains_key(lottery_id)
            })
        }),
        WorkListItem::PendingDrawWinner { lottery_id } => {
            &&& s.lotteries@.contains_key(lottery_id)
            &&& (s.lotteries@[lottery_id].status is Open ==> {
                &&& s.lotteries@[lottery_id].secret_state_id is Some
                &&& s.lottery_accounts@.contains_key(lottery_id)
                &&& s.user_accounts@.contains_key(s.lotteries@[lottery_id].creator)
            })
        },
        _ => true,
    }
}

/// Every queued item satisfies its structural facts.
pub open spec fn queue_wf(s: ContractState) -> bool {
    forall|i: int| 0 <= i < s.work_queue@.len() ==> item_wf(s, #[trigger] s.work_queue@[i])
}

/// What the scheduler submits to the engine for a ready item.
pub struct SubmissionModel {
    /// The computation with its public scalar arguments.
    pub computation: ComputationKind,
    /// Confidential inputs, in the computation's parameter order.
    pub input_handles: Seq<SecretVarId>,
    /// Metadata to attach to each output variable, in output order.
    pub output_metadata: Seq<VariableKind>,
    /// Completion handler to invoke once the computation finishes.
    pub on_complete: CompletionTag,
}

/// The submission built for a ready item, given the registries at pop time.
pub open spec fn submission_for(s: ContractState, item: WorkListItem) -> SubmissionModel {
    match item {
        WorkListItem::PendingAccountCreation { account, account_key, account_creation_id } => (
        SubmissionModel {
            computation: ComputationKind::CreateAccount { account_key },
            input_handles: seq![account_creation_id],
            output_metadata: seq![
                VariableKind::UserAccount { owner: account },
                VariableKind::AccountCreationResult { owner: account, account_key },
            ],
            on_complete: CompletionTag::CreateAccountComplete,
        }),
        WorkListItem::PendingPurchaseCredits { account, credits } => (SubmissionModel {
            computation: ComputationKind::MintCredits { amount: credits },
            input_handles: seq![s.user_accounts@[account]],
            output_metadata: seq![VariableKind::UserAccount { owner: account }],
            on_complete: CompletionTag::SimpleWorkItemComplete,
        }),
        WorkListItem::PendingRedeemCredits { account, credits } => (SubmissionModel {
            computation: ComputationKind::BurnCredits { amount: credits },
            input_handles: seq![s.user_accounts@[account]],
            output_metadata: seq![
                VariableKind::UserAccount { owner: account },
                VariableKind::WithdrawResult { owner: account },
            ],
            on_complete: CompletionTag::WithdrawComplete,
        }),
        WorkListItem::PendingLotteryCreation {
            account,
            lottery_id,
            prize_pool,
            lottery_creation_id,
        } => (SubmissionModel {
            computation: ComputationKind::CreateLottery { prize_pool },
            input_handles: seq![lottery_creation_id, s.user_accounts@[account]],
            output_metadata: seq![
                VariableKind::UserAccount { owner: account },
                VariableKind::LotteryAccount { owner: account, lottery_id },
                VariableKind::SecretLotteryStateData { lottery_id },
                VariableKind::LotteryCreationResult { owner: account, lottery_id },
            ],
            on_complete: CompletionTag::CreateLotteryComplete,
        }),
        WorkListItem::PendingLotteryTicketPurchase { account, lottery_id, ticket_purchase_id } => (
        SubmissionModel {
            computation: ComputationKind::PurchaseLotteryTicket {
                ticket_price: s.lotteries@[lottery_id].entry_cost,
            },
            input_handles: seq![
                ticket_purchase_id,
                s.user_accounts@[account],
                s.lottery_accounts@[lottery_id],
                s.lotteries@[lottery_id].secret_state_id.unwrap(),
            ],
            output_metadata: seq![
                VariableKind::UserAccount { owner: account },
                VariableKind::LotteryAccount { owner: account, lottery_id },
                VariableKind::SecretLotteryStateData { lottery_id },
                VariableKind::LotteryTicketPurchaseResult { owner: account, lottery_id },
            ],
            on_complete: CompletionTag::TicketPurchaseComplete,
        }),
        WorkListItem::PendingDrawWinner { lottery_id } => (SubmissionModel {
            computation: ComputationKind::DrawLotteryWinner {
                entry_cost: s.lotteries@[lottery_id].entry_cost,
                prize_pool: s.lotteries@[lottery_id].prize_pool,
            },
            input_handles: seq![
                s.lotteries@[lottery_id].secret_state_id.unwrap(),
                s.lottery_accounts@[lottery_id],
                s.user_accounts@[s.lotteries@[lottery_id].creator],
            ],
            output_metadata: seq![
                VariableKind::LotteryAccount {
                    owner: s.lotteries@[lottery_id].creator,
                    lottery_id,
                },
                VariableKind::UserAccount { owner: s.lotteries@[lottery_id].creator },
                VariableKind::LotteryWinnerDrawResult { lottery_id },
            ],
            on_complete: CompletionTag::DrawWinnerComplete,
        }),
    }
}

/// The input handles an item retires at submission time; they join the
/// redundant set and are deleted by the next cleanup step.
pub open spec fn retired_handles(item: WorkListItem) -> Seq<SecretVarId> {
    match item {
        WorkListItem::PendingAccountCreation { account_creation_id, .. } => seq![
            account_creation_id,
        ],
        WorkListItem::PendingLotteryCreation { lottery_creation_id, .. } => seq![
            lottery_creation_id,
        ],
        WorkListItem::PendingLotteryTicketPurchase { ticket_purchase_id, .. } => seq![
            ticket_purchase_id,
        ],
        _ => Seq::empty(),
    }
}

/// A submission request equals the given model.
pub open spec fn change_is_submission(change: ZkStateChange, m: SubmissionModel) -> bool {
    &&& change matches ZkStateChange::StartComputation {
        computation,
        input_handles,
        output_metadata,
        on_complete,
    }
    &&& computation == m.computation
    &&& input_handles@ == m.input_handles
    &&& output_metadata@ == m.output_metadata
    &&& on_complete == m.on_complete
}

/// Index of the first queued item that passes its precondition; the queue
/// length if every item fails.
pub open spec fn first_ready_index(s: ContractState, q: Seq<WorkListItem>) -> int
    decreases q.len(),
{
    if q.len() == 0 {
        0
    } else if item_ready(s, q[0]) {
        0
    } else {
        1 + first_ready_index(s, q.drop_first())
    }
}

/// If everything before `j` is blocked and `q[j]` is ready, `j` is the first
/// ready index.
proof fn lemma_first_ready_at(s: ContractState, q: Seq<WorkListItem>, j: int)
    requires
        0 <= j < q.len(),
        forall|i: int| 0 <= i < j ==> !item_ready(s, #[trigger] q[i]),
        item_ready(s, q[j]),
    ensures
        first_ready_index(s, q) == j,
    decreases j,
{
    if j > 0 {
        let qt = q.drop_first();
        assert forall|i: int| 0 <= i < j - 1 implies !item_ready(s, #[trigger] qt[i]) by {
            assert(qt[i] == q[i + 1]);
        }
        assert(qt[j - 1] == q[j]);
        lemma_first_ready_at(s, qt, j - 1);
    }
}

/// If every queued item is blocked, the first ready index is the length.
proof fn lemma_first_ready_none(s: ContractState, q: Seq<WorkListItem>)
    requires
        forall|i: int| 0 <= i < q.len() ==> !item_ready(s, #[trigger] q[i]),
    ensures
        first_ready_index(s, q) == q.len(),
    decreases q.len(),
{
    if q.len() > 0 {
        let qt = q.drop_first();
        assert forall|i: int| 0 <= i < qt.len() implies !item_ready(s, #[trigger] qt[i]) by {
            assert(qt[i] == q[i + 1]);
        }
        lemma_first_ready_none(s, qt);
    }
}

/// The deferred-failure events produced by a run of precondition failures,
/// with the reasons read off the registries at pop time.
pub open spec fn failure_events(s: ContractState, ctx: ContractContext, items: Seq<WorkListItem>) -> Seq<
    EventGroup,
> {
    items.map_values(
        |item: WorkListItem|
            EventGroup::DeferredFailure {
                target: ctx.contract_address,
                reason: failure_reason_for(s, item),
            },
    )
}

/// States with equal registries agree on which queued items are ready.
proof fn lemma_first_ready_congruent(s1: ContractState, s2: ContractState, q: Seq<WorkListItem>)
    requires
        s1.user_accounts == s2.user_accounts,
        s1.lotteries == s2.lotteries,
    ensures
        first_ready_index(s1, q) == first_ready_index(s2, q),
    decreases q.len(),
{
    if q.len() > 0 {
        assert(item_ready(s1, q[0]) == item_ready(s2, q[0]));
        lemma_first_ready_congruent(s1, s2, q.drop_first());
    }
}

/// Appending one more failure event keeps the events in step with the
/// failed prefix of the queue.
proof fn lemma_events_after_failure(
    s: ContractState,
    ctx: ContractContext,
    events0: Seq<EventGroup>,
    q: Seq<WorkListItem>,
    j: int,
)
    requires
        0 <= j < q.len(),
    ensures
        (events0 + failure_events(s, ctx, q.take(j))).push(
            EventGroup::DeferredFailure {
                target: ctx.contract_address,
                reason: failure_reason_for(s, q[j]),
            },
        ) == events0 + failure_events(s, ctx, q.take(j + 1)),
{
    assert((events0 + failure_events(s, ctx, q.take(j))).push(
        EventGroup::DeferredFailure {
            target: ctx.contract_address,
            reason: failure_reason_for(s, q[j]),
        },
    ) =~= events0 + failure_events(s, ctx, q.take(j + 1)));
}

/// The full effect of one queue-advance pass, with `q` the queue contents
/// when the pass started: every item before the first ready one is dropped
/// and reported as an isolated deferred failure; the first ready item, if
/// any, is popped, retires its input handles, and is submitted as exactly
/// one computation; nothing else changes.
pub open spec fn advance_post(
    pre: ContractState,
    q: Seq<WorkListItem>,
    post: ContractState,
    ctx: ContractContext,
    busy: bool,
    events_pre: Seq<EventGroup>,
    events_post: Seq<EventGroup>,
    changes_pre: Seq<ZkStateChange>,
    changes_post: Seq<ZkStateChange>,
) -> bool {
    if busy {
        &&& post.work_queue@ == q
        &&& (post == (ContractState { work_queue: post.work_queue, ..pre }))
        &&& events_post == events_pre
        &&& changes_post == changes_pre
    } else {
        let k = first_ready_index(pre, q);
        &&& events_post == events_pre + failure_events(pre, ctx, q.take(k))
        &&& if k < q.len() {
            &&& post.work_queue@ == q.skip(k + 1)
            &&& post.redundant_variables@ == pre.redundant_variables@ + retired_handles(q[k])
            &&& (post == (ContractState {
                work_queue: post.work_queue,
                redundant_variables: post.redundant_variables,
                ..pre
            }))
            &&& changes_post.len() == changes_pre.len() + 1
            &&& (forall|i: int| 0 <= i < changes_pre.len() ==> changes_post[i] == changes_pre[i])
            &&& change_is_submission(changes_post.last(), submission_for(pre, q[k]))
        } else {
            &&& post.work_queue@ == Seq::<WorkListItem>::empty()
            &&& (post == (ContractState { work_queue: post.work_queue, ..pre }))
            &&& changes_post == changes_pre
        }
    }
}

impl ContractState {
    /// Pop and submit the next runnable job, if the engine is idle.
    ///
    /// A no-op while a computation is already running or when the queue is
    /// empty.  Items that fail their submission-time precondition are
    /// dropped and reported as isolated deferred failures, and draining
    /// continues with the next item, so a bad request never stalls the
    /// queue.  At most one computation is submitted per pass, and none while
    /// the engine is busy.
    ///
    /// This must never run in the same processing step as
    /// [`ContractState::clean_up_redundant_secret_variables`]: the cleanup
    /// deletes variables that a submission built here may still reference.
    pub fn attempt_to_start_next_in_queue(
        &mut self,
        context: &ContractContext,
        zk_state: &ZkState,
        zk_state_change: &mut Vec<ZkStateChange>,
        event_groups: &mut Vec<EventGroup>,
    )
        requires
            old(self).wf(),
            queue_wf(*old(self)),
        ensures
            final(self).wf(),
            advance_post(
                *old(self),
                old(self).work_queue@,
                *final(self),
                *context,
                zk_state.calculation_state != CalculationStatus::Waiting,
                old(event_groups)@,
                final(event_groups)@,
                old(zk_state_change)@,
                final(zk_state_change)@,
            ),
            zk_state.calculation_state != CalculationStatus::Waiting ==> *final(self) == *old(
                self,
            ),
    {
        if zk_state.calculation_state != CalculationStatus::Waiting {
            return ;
        }
        let ghost pre = *self;
        let ghost q = self.work_queue@;
        let ghost events0 = event_groups@;
        let ghost changes0 = zk_state_change@;
        let ghost mut j: int = 0;
        proof {
            assert(events0 + failure_events(pre, *context, q.take(0)) =~= events0);
            assert(q.skip(0) =~= q);
        }
        loop
            invariant
                self.wf(),
                0 <= j <= q.len(),
                self.work_queue@ == q.skip(j),
                (*self == (ContractState { work_queue: self.work_queue, ..pre })),
                forall|i: int| 0 <= i < j ==> !item_ready(pre, #[trigger] q[i]),
                event_groups@ == events0 + failure_events(pre, *context, q.take(j)),
                zk_state_change@ == changes0,
            decreases q.len() - j,
        {
            let popped = self.work_queue.pop_front();
            match popped {
                None => {
                    proof {
                        assert(q.skip(j).len() == 0);
                        lemma_first_ready_none(pre, q);
                        assert(q.take(j) =~= q);
                        assert(self.work_queue@ =~= Seq::<WorkListItem>::empty());
                    }
                    return ;
                },
                Some(item) => {
                    proof {
                        assert(q.skip(j)[0] == q[j]);
                        assert(item == q[j]);
                        assert(self.work_queue@ =~= q.skip(j + 1));
                    }
                    match item {
                        WorkListItem::PendingAccountCreation {
                            account,
                            account_key,
                            account_creation_id,
                        } => {
                            if self.has_user_account(&account) {
                                fail_safely(
                                    context,
                                    event_groups,
                                    FailureReason::AccountAlreadyExists,
                                );
                                proof {
                                    lemma_events_after_failure(pre, *context, events0, q, j);
                                    j = j + 1;
                                }
                            } else {
                                self.redundant_variables.push(account_creation_id);
                                let mut input_handles: Vec<SecretVarId> = Vec::new();
                                input_handles.push(account_creation_id);
                                let mut output_metadata: Vec<VariableKind> = Vec::new();
                                output_metadata.push(VariableKind::UserAccount { owner: account });
                                output_metadata.push(
                                    VariableKind::AccountCreationResult { owner: account, account_key },
                                );
                                proof {
                                    assert(input_handles@ =~= submission_for(
                                        pre,
                                        q[j],
                                    ).input_handles);
                                    assert(output_metadata@ =~= submission_for(
                                        pre,
                                        q[j],
                                    ).output_metadata);
                                }
                                zk_state_change.push(
                                    ZkStateChange::StartComputation {
                                        computation: ComputationKind::CreateAccount { account_key },
                                        input_handles,
                                        output_metadata,
                                        on_complete: CompletionTag::CreateAccountComplete,
                                    },
                                );
                                proof {
                                    lemma_first_ready_at(pre, q, j);
                                    assert(self.redundant_variables@ =~= pre.redundant_variables@
                                        + retired_handles(q[j]));
                                }
                                return ;
                            }
                        },
                        WorkListItem::PendingPurchaseCredits { account, credits } => {
                            if !self.has_user_account(&account) {
                                fail_safely(
                                    context,
                                    event_groups,
                                    FailureReason::PurchaseForMissingAccount,
                                );
                                proof {
                                    lemma_events_after_failure(pre, *context, events0, q, j);
                                    j = j + 1;
                                }
                            } else {
                                let user_var = match self.get_user_account_var_id(&account) {
                                    Some(id) => id,
                                    None => unreached(),
                                };
                                let mut input_handles: Vec<SecretVarId> = Vec::new();
                                input_handles.push(user_var);
                                let mut output_metadata: Vec<VariableKind> = Vec::new();
                                output_metadata.push(VariableKind::UserAccount { owner: account });
                                proof {
                                    assert(input_handles@ =~= submission_for(
                                        pre,
                                        q[j],
                                    ).input_handles);
                                    assert(output_metadata@ =~= submission_for(
                                        pre,
                                        q[j],
                                    ).output_metadata);
                                }
                                zk_state_change.push(
                                    ZkStateChange::StartComputation {
                                        computation: ComputationKind::MintCredits { amount: credits },
                                        input_handles,
                                        output_metadata,
                                        on_complete: CompletionTag::SimpleWorkItemComplete,
                                    },
                                );
                                proof {
                                    lemma_first_ready_at(pre, q, j);
                                    assert(self.redundant_variables@ =~= pre.redundant_variables@
                                        + retired_handles(q[j]));
                                }
                                return ;
                            }
                        },
                        WorkListItem::PendingRedeemCredits { account, credits } => {
                            if !self.has_user_account(&account) {
                                fail_safely(
                                    context,
                                    event_groups,
                                    FailureReason::RedeemForMissingAccount,
                                );
                                proof {
                                    lemma_events_after_failure(pre, *context, events0, q, j);
                                    j = j + 1;
                                }
                            } else {
                                let user_var = match self.get_user_account_var_id(&account) {
                                    Some(id) => id,
                                    None => unreached(),
                                };
                                let mut input_handles: Vec<SecretVarId> = Vec::new();
                                input_handles.push(user_var);
                                let mut output_metadata: Vec<VariableKind> = Vec::new();
                                output_metadata.push(VariableKind::UserAccount { owner: account });
                                output_metadata.push(
                                    VariableKind::WithdrawResult { owner: account },
                                );
                                proof {
                                    assert(input_handles@ =~= submission_for(
                                        pre,
                                        q[j],
                                    ).input_handles);
                                    assert(output_metadata@ =~= submission_for(
                                        pre,
                                        q[j],
                                    ).output_metadata);
                                }
                                zk_state_change.push(
                                    ZkStateChange::StartComputation {
                                        computation: ComputationKind::BurnCredits { amount: credits },
                                        input_handles,
                                        output_metadata,
                                        on_complete: CompletionTag::WithdrawComplete,
                                    },
                                );
                                proof {
                                    lemma_first_ready_at(pre, q, j);
                                    assert(self.redundant_variables@ =~= pre.redundant_variables@
                                        + retired_handles(q[j]));
                                }
                                return ;
                            }
                        },
                        WorkListItem::PendingLotteryCreation {
                            account,
                            lottery_id,
                            prize_pool,
                            lottery_creation_id,
                        } => {
                            if !self.has_user_account(&account) {
                                fail_safely(
                                    context,
                                    event_groups,
                                    FailureReason::CreatorHasNoAccount,
                                );
                                proof {
                                    lemma_events_after_failure(pre, *context, events0, q, j);
                                    j = j + 1;
                                }
                            } else {
                                self.redundant_variables.push(lottery_creation_id);
                                let user_var = match self.get_user_account_var_id(&account) {
                                    Some(id) => id,
                                    None => unreached(),
                                };
                                let mut input_handles: Vec<SecretVarId> = Vec::new();
                                input_handles.push(lottery_creation_id);
                                input_handles.push(user_var);
                                let mut output_metadata: Vec<VariableKind> = Vec::new();
                                output_metadata.push(VariableKind::UserAccount { owner: account });
                                output_metadata.push(
                                    VariableKind::LotteryAccount { owner: account, lottery_id },
                                );
                                output_metadata.push(
                                    VariableKind::SecretLotteryStateData { lottery_id },
                                );
                                output_metadata.push(
                                    VariableKind::LotteryCreationResult { owner: account, lottery_id },
                                );
                                proof {
                                    assert(input_handles@ =~= submission_for(
                                        pre,
                                        q[j],
                                    ).input_handles);
                                    assert(output_metadata@ =~= submission_for(
                                        pre,
                                        q[j],
                                    ).output_metadata);
                                }
                                zk_state_change.push(
                                    ZkStateChange::StartComputation {
                                        computation: ComputationKind::CreateLottery { prize_pool },
                                        input_handles,
                                        output_metadata,
                                        on_complete: CompletionTag::CreateLotteryComplete,
                                    },
                                );
                                proof {
                                    lemma_first_ready_at(pre, q, j);
                                    assert(self.redundant_variables@ =~= pre.redundant_variables@
                                        + retired_handles(q[j]));
                                }
                                return ;
                            }
                        },
                        WorkListItem::PendingLotteryTicketPurchase {
                            account,
                            lottery_id,
                            ticket_purchase_id,
                        } => {
                            if !self.has_user_account(&account) {
                                fail_safely(
                                    context,
                                    event_groups,
                                    FailureReason::TicketPurchaseForMissingAccount,
                                );
                                proof {
                                    assert(failure_reason_for(pre, q[j])
                                        == FailureReason::TicketPurchaseForMissingAccount);
                                    lemma_events_after_failure(pre, *context, events0, q, j);
                                    j = j + 1;
                                }
                            } else {
                                let lstate = match self.get_lottery(&lottery_id) {
                                    Some(l) => l,
                                    None => unreached(),
                                };
                                match lstate.status {
                                    LotteryStatus::Open => {
                                        self.redundant_variables.push(ticket_purchase_id);
                                        let secret_state_id = match lstate.secret_state_id {
                                            Some(id) => id,
                                            None => unreached(),
                                        };
                                        let user_var = match self.get_user_account_var_id(
                                            &account,
                                        ) {
                                            Some(id) => id,
                                            None => unreached(),
                                        };
                                        let lottery_var = match self.get_lottery_account_var_id(
                                            &lottery_id,
                                        ) {
                                            Some(id) => id,
                                            None => unreached(),
                                        };
                                        let mut input_handles: Vec<SecretVarId> = Vec::new();
                                        input_handles.push(ticket_purchase_id);
                                        input_handles.push(user_var);
                                        input_handles.push(lottery_var);
                                        input_handles.push(secret_state_id);
                                        let mut output_metadata: Vec<VariableKind> = Vec::new();
                                        output_metadata.push(
                                            VariableKind::UserAccount { owner: account },
                                        );
                                        output_metadata.push(
                                            VariableKind::LotteryAccount {
                                                owner: account,
                                                lottery_id,
                                            },
                                        );
                                        output_metadata.push(
                                            VariableKind::SecretLotteryStateData { lottery_id },
                                        );
                                        output_metadata.push(
                                            VariableKind::LotteryTicketPurchaseResult {
                                                owner: account,
                                                lottery_id,
                                            },
                                        );
                                        proof {
                                            assert(input_handles@ =~= submission_for(
                                                pre,
                                                q[j],
                                            ).input_handles);
                                            assert(output_metadata@ =~= submission_for(
                                                pre,
                                                q[j],
                                            ).output_metadata);
                                        }
                                        zk_state_change.push(
                                            ZkStateChange::StartComputation {
                                                computation: (
                                                ComputationKind::PurchaseLotteryTicket {
                                                    ticket_price: lstate.entry_cost,
                                                }),
                                                input_handles,
                                                output_metadata,
                                                on_complete: CompletionTag::TicketPurchaseComplete,
                                            },
                                        );
                                        proof {
                                            lemma_first_ready_at(pre, q, j);
                                            assert(self.redundant_variables@
                                                =~= pre.redundant_variables@ + retired_handles(
                                                q[j],
                                            ));
                                        }
                                        return ;
                                    },
                                    _ => {
                                        fail_safely(
                                            context,
                                            event_groups,
                                            FailureReason::TicketPurchaseOnLotteryNotOpen,
                                        );
                                        proof {
                                            assert(failure_reason_for(pre, q[j])
                                                == FailureReason::TicketPurchaseOnLotteryNotOpen);
                                            lemma_events_after_failure(
                                                pre,
                                                *context,
                                                events0,
                                                q,
                                                j,
                                            );
                                            j = j + 1;
                                        }
                                    },
                                }
                            }
                        },
                        WorkListItem::PendingDrawWinner { lottery_id } => {
                            let lstate = match self.get_lottery(&lottery_id) {
                                Some(l) => l,
                                None => unreached(),
                            };
                            match lstate.status {
                                LotteryStatus::Open => {
                                    let creator = lstate.creator;
                                    let secret_state_id = match lstate.secret_state_id {
                                        Some(id) => id,
                                        None => unreached(),
                                    };
                                    let lottery_var = match self.get_lottery_account_var_id(
                                        &lottery_id,
                                    ) {
                                        Some(id) => id,
                                        None => unreached(),
                                    };
                                    let creator_var = match self.get_user_account_var_id(&creator) {
                                        Some(id) => id,
                                        None => unreached(),
                                    };
                                    let mut input_handles: Vec<SecretVarId> = Vec::new();
                                    input_handles.push(secret_state_id);
                                    input_handles.push(lottery_var);
                                    input_handles.push(creator_var);
                                    let mut output_metadata: Vec<VariableKind> = Vec::new();
                                    output_metadata.push(
                                        VariableKind::LotteryAccount { owner: creator, lottery_id },
                                    );
                                    output_metadata.push(
                                        VariableKind::UserAccount { owner: creator },
                                    );
                                    output_metadata.push(
                                        VariableKind::LotteryWinnerDrawResult { lottery_id },
                                    );
                                    proof {
                                        assert(input_handles@ =~= submission_for(
                                            pre,
                                            q[j],
                                        ).input_handles);
                                        assert(output_metadata@ =~= submission_for(
                                            pre,
                                            q[j],
                                        ).output_metadata);
                                    }
                                    zk_state_change.push(
                                        ZkStateChange::StartComputation {
                                            computation: ComputationKind::DrawLotteryWinner {
                                                entry_cost: lstate.entry_cost,
                                                prize_pool: lstate.prize_pool,
                                            },
                                            input_handles,
                                            output_metadata,
                                            on_complete: CompletionTag::DrawWinnerComplete,
                                        },
                                    );
                                    proof {
                                        lemma_first_ready_at(pre, q, j);
                                        assert(self.redundant_variables@
                                            =~= pre.redundant_variables@ + retired_handles(q[j]));
                                    }
                                    return ;
                                },
                                _ => {
                                    fail_safely(
                                        context,
                                        event_groups,
                                        FailureReason::DrawOnLotteryNotOpen,
                                    );
                                    proof {
                                        lemma_events_after_failure(pre, *context, events0, q, j);
                                        j = j + 1;
                                    }
                                },
                            }
                        },
                    }
                },
            }
        }
    }

    /// Queue a new item at the tail and immediately attempt to advance.
    pub fn schedule_new_work_item(
        &mut self,
        context: &ContractContext,
        zk_state: &ZkState,
        zk_state_change: &mut Vec<ZkStateChange>,
        event_groups: &mut Vec<EventGroup>,
        worklist_item: WorkListItem,
    )
        requires
            old(self).wf(),
            queue_wf(*old(self)),
            item_wf(*old(self), worklist_item),
        ensures
            final(self).wf(),
            advance_post(
                *old(self),
                old(self).work_queue@.push(worklist_item),
                *final(self),
                *context,
                zk_state.calculation_state != CalculationStatus::Waiting,
                old(event_groups)@,
                final(event_groups)@,
                old(zk_state_change)@,
                final(zk_state_change)@,
            ),
    {
        let ghost pre = *self;
        self.work_queue.push_back(worklist_item);
        proof {
            assert(self.work_queue@ =~= pre.work_queue@.push(worklist_item));
            assert forall|i: int| 0 <= i < self.work_queue@.len() implies item_wf(
                *self,
                #[trigger] self.work_queue@[i],
            ) by {
                if i < pre.work_queue@.len() {
                    assert(item_wf(pre, pre.work_queue@[i]));
                }
            }
            assert(queue_wf(*self));
        }
        let ghost mid = *self;
        self.attempt_to_start_next_in_queue(context, zk_state, zk_state_change, event_groups);
        proof {
            let qq = pre.work_queue@.push(worklist_item);
            lemma_first_ready_congruent(mid, pre, qq);
            if zk_state.calculation_state != CalculationStatus::Waiting {
                assert((ContractState { work_queue: self.work_queue, ..mid }) == (ContractState {
                    work_queue: self.work_queue,
                    ..pre
                }));
            } else {
                let k = first_ready_index(pre, qq);
                assert forall|i: int| 0 <= i < qq.len() implies failure_reason_for(
                    mid,
                    #[trigger] qq[i],
                ) == failure_reason_for(pre, qq[i]) by {}
                assert(failure_events(mid, *context, qq.take(k)) =~= failure_events(
                    pre,
                    *context,
                    qq.take(k),
                ));
                if k < qq.len() {
                    assert(submission_for(mid, qq[k]) == submission_for(pre, qq[k]));
                    assert((ContractState {
                        work_queue: self.work_queue,
                        redundant_variables: self.redundant_variables,
                        ..mid
                    }) == (ContractState {
                        work_queue: self.work_queue,
                        redundant_variables: self.redundant_variables,
                        ..pre
                    }));
                } else {
                    assert((ContractState { work_queue: self.work_queue, ..mid })
                        == (ContractState { work_queue: self.work_queue, ..pre }));
                }
            }
        }
    }
}

} // verus!
