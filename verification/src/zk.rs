//! Model of the secret-computation engine's public boundary.
//!
//! The engine itself is an external collaborator: it holds confidential
//! variables, runs delegated computations asynchronously, and reports back
//! through completion and reveal callbacks.  The orchestrator only ever sees
//! the data modelled here: variable identifiers, per-variable metadata, the
//! engine's idle/busy flag, and the state-change requests it hands back to
//! the host (submissions, deletions, ownership transfers, reveals).

use vstd::prelude::*;

use crate::events::Address;
use crate::lottery::LotteryId;

verus! {

/// Identifier of a confidential variable held by the computation engine.
#[derive(Clone, Copy, PartialEq, Eq, Structural, Debug)]
pub struct SecretVarId {
    pub raw_id: u32,
}

impl SecretVarId {
    /// Wrap a raw identifier.
    pub fn new(raw_id: u32) -> (r: SecretVarId)
        ensures
            r.raw_id == raw_id,
    {
        SecretVarId { raw_id }
    }
}

/// The engine's global concurrency gate: while a computation runs, no new
/// job may be submitted.
#[derive(Clone, Copy, PartialEq, Eq, Structural, Debug)]
pub enum CalculationStatus {
    /// The engine is idle and can accept a job.
    Waiting,
    /// A computation is in flight.
    Calculating,
}

/// Caller-supplied metadata attached to each confidential variable,
/// identifying which logical entity (if any) the variable represents and how
/// a revealed value of it must be interpreted.
#[derive(Clone, Copy, PartialEq, Eq, Structural, Debug)]
pub enum VariableKind {
    /// An anonymous entry in the lottery.
    Entry,
    /// Revealed winner after selection.
    Winner { lottery_id: LotteryId },
    /// Balance account for a user.
    UserAccount { owner: Address },
    /// Balance account for a lottery.
    LotteryAccount { owner: Address, lottery_id: LotteryId },
    /// Secret input for account creation.
    AccountCreationSecret { owner: Address, account_key: u128 },
    /// Secret-share variable that is a work item's input.
    WorkItemData { owner: Address },
    /// Result of a withdraw operation.
    WithdrawResult { owner: Address },
    /// Metadata for public inputs used on secret input for creating a lottery.
    LotteryCreationData { creator: Address, lottery_id: LotteryId },
    /// Metadata for the secret state of a lottery.
    SecretLotteryStateData { lottery_id: LotteryId },
    /// Result of a lottery creation operation.
    LotteryCreationResult { owner: Address, lottery_id: LotteryId },
    /// Secret input for a ticket purchase.
    LotteryTicketPurchaseSecretData { owner: Address, lottery_id: LotteryId },
    /// Result of a lottery ticket purchase operation.
    LotteryTicketPurchaseResult { owner: Address, lottery_id: LotteryId },
    /// Result of a lottery winner draw operation.
    LotteryWinnerDrawResult { lottery_id: u128 },
    /// Result of an account creation operation.
    AccountCreationResult { owner: Address, account_key: u128 },
}

/// A confidential variable as the orchestrator sees it: its identifier, the
/// principal allowed to read it, its metadata, and — once revealed — the
/// encoded public value.
#[derive(Clone, Debug)]
pub struct ZkVariable {
    pub variable_id: SecretVarId,
    pub owner: Address,
    pub metadata: VariableKind,
    pub data: Option<Vec<u8>>,
}

/// The first variable carrying `id`, if any.
pub open spec fn lookup_var(vars: Seq<ZkVariable>, id: SecretVarId) -> Option<ZkVariable>
    decreases vars.len(),
{
    if vars.len() == 0 {
        None
    } else if vars[0].variable_id == id {
        Some(vars[0])
    } else {
        lookup_var(vars.drop_first(), id)
    }
}

/// Every handle in `outs` resolves to a variable of the engine.
pub open spec fn outputs_present(zk: ZkState, outs: Seq<SecretVarId>) -> bool {
    forall|i: int| 0 <= i < outs.len() ==> lookup_var(zk.variables@, #[trigger] outs[i]) is Some
}

/// The engine state visible to the orchestrator.
pub struct ZkState {
    pub calculation_state: CalculationStatus,
    pub variables: Vec<ZkVariable>,
}

impl ZkState {
    /// The variable carrying `id`, if any.
    pub open spec fn spec_get_variable(&self, id: SecretVarId) -> Option<ZkVariable> {
        lookup_var(self.variables@, id)
    }

    /// Look a variable up by its identifier.
    pub fn get_variable(&self, id: SecretVarId) -> (r: Option<&ZkVariable>)
        ensures
            match r {
                Some(v) => self.spec_get_variable(id) == Some(*v),
                None => self.spec_get_variable(id) is None,
            },
    {
        let mut i: usize = 0;
        proof {
            assert(self.variables@.skip(0) =~= self.variables@);
        }
        while i < self.variables.len()
            invariant
                0 <= i <= self.variables@.len(),
                lookup_var(self.variables@.skip(i as int), id) == lookup_var(
                    self.variables@,
                    id,
                ),
            decreases self.variables@.len() - i,
        {
            if self.variables[i].variable_id == id {
                proof {
                    assert(self.variables@.skip(i as int)[0] == self.variables@[i as int]);
                }
                return Some(&self.variables[i]);
            }
            proof {
                assert(self.variables@.skip(i as int).drop_first() =~= self.variables@.skip(
                    i as int + 1,
                ));
            }
            i = i + 1;
        }
        proof {
            assert(self.variables@.skip(i as int).len() == 0);
        }
        None
    }
}

/// The delegated computations the engine can be asked to run, with the
/// public scalar arguments each takes.
#[derive(Clone, Copy, PartialEq, Eq, Structural, Debug)]
pub enum ComputationKind {
    /// Initialize a fresh user account under a secret key.
    CreateAccount { account_key: u128 },
    /// Add purchased credits to a balance.
    MintCredits { amount: u128 },
    /// Subtract redeemed credits from a balance, if it suffices.
    BurnCredits { amount: u128 },
    /// Move the prize pool from the creator into a new lottery account.
    CreateLottery { prize_pool: u128 },
    /// Move the ticket price and record an entry.
    PurchaseLotteryTicket { ticket_price: u128 },
    /// Select a winner from the recorded entries.
    DrawLotteryWinner { entry_cost: u128, prize_pool: u128 },
}

/// Which completion handler the engine must invoke once a submitted
/// computation finishes.
#[derive(Clone, Copy, PartialEq, Eq, Structural, Debug)]
pub enum CompletionTag {
    SimpleWorkItemComplete,
    CreateAccountComplete,
    WithdrawComplete,
    CreateLotteryComplete,
    TicketPurchaseComplete,
    DrawWinnerComplete,
}

/// A state-change request handed back to the engine by the orchestrator.
#[derive(Clone, Debug)]
pub enum ZkStateChange {
    /// Submit a computation: the job kind with its scalar arguments, the
    /// confidential inputs, the metadata to attach to each output variable,
    /// and the completion handler to invoke afterwards.
    StartComputation {
        computation: ComputationKind,
        input_handles: Vec<SecretVarId>,
        output_metadata: Vec<VariableKind>,
        on_complete: CompletionTag,
    },
    /// Delete the given variables.
    DeleteVariables { variables_to_delete: Vec<SecretVarId> },
    /// Reassign read/transfer rights on a variable.
    TransferVariable { variable: SecretVarId, new_owner: Address },
    /// Make the given variables' values publicly readable.
    OpenVariables { variables: Vec<SecretVarId> },
}

/// Which handler the engine must invoke once a requested secret input has
/// been provided by the user.
#[derive(Clone, Copy, PartialEq, Eq, Structural, Debug)]
pub enum InputTag {
    CreateAccountInputted,
    CreateLotteryInputted,
    TicketPurchaseInputted,
}

/// A request for a new secret input: the metadata to attach to the inputted
/// variable and the handler to invoke once it arrives.
#[derive(Clone, Copy, PartialEq, Eq, Structural, Debug)]
pub struct ZkInputDef {
    pub on_inputted: InputTag,
    pub metadata: VariableKind,
}

impl ZkInputDef {
    /// Request a secret input carrying `metadata`.
    pub fn with_metadata(on_inputted: InputTag, metadata: VariableKind) -> (r: ZkInputDef)
        ensures
            r == (ZkInputDef { on_inputted, metadata }),
    {
        ZkInputDef { on_inputted, metadata }
    }
}

} // verus!
