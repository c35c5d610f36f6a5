//! Model of the host ledger runtime's boundary: addresses, invocation
//! contexts, and the outgoing interactions an invocation can schedule.
//!
//! The host dispatches each returned `EventGroup` as a separate, later
//! transaction; scheduling one never blocks or aborts the invocation that
//! produced it.  That is what lets a precondition failure discovered while
//! draining the queue surface as its own auditable failed transaction while
//! the current invocation still commits the progress it made.

use vstd::prelude::*;

use crate::lottery::LotteryId;

verus! {

/// Address of an account or contract on the ledger.
pub type Address = u128;

/// Context of the invocation being processed.
#[derive(Clone, Copy, PartialEq, Eq, Structural, Debug)]
pub struct ContractContext {
    /// Address of this contract instance.
    pub contract_address: Address,
    /// Address that signed the invocation.
    pub sender: Address,
    /// Timestamp of the block being produced.
    pub block_production_time: i64,
}

/// Outcome of a previously issued interaction, reported to a callback.
#[derive(Clone, Copy, PartialEq, Eq, Structural, Debug)]
pub struct CallbackContext {
    /// Whether the interaction succeeded.
    pub success: bool,
}

/// Why a queued job or a confirmed computation was reported as failed.
///
/// Failures are recorded as structured values; the unverified shell renders
/// them as human-readable text when it dispatches the deferred failure.
#[derive(Clone, Copy, PartialEq, Eq, Structural, Debug)]
pub enum FailureReason {
    /// Account creation popped while the account already exists.
    AccountAlreadyExists,
    /// Credit purchase popped for an account that does not exist.
    PurchaseForMissingAccount,
    /// Credit redemption popped for an account that does not exist.
    RedeemForMissingAccount,
    /// Lottery creation popped while the creator has no account.
    CreatorHasNoAccount,
    /// Ticket purchase popped for an account that does not exist.
    TicketPurchaseForMissingAccount,
    /// Winner draw popped for a lottery that is not open.
    DrawOnLotteryNotOpen,
    /// Ticket purchase requested for a lottery that is not open.
    TicketPurchaseOnLotteryNotOpen,
    /// A secret input carried an unexpected metadata kind.
    InvalidAccountCreationKind,
    /// The computation confirmed an account-key collision.
    AccountCreationFailed,
    /// The computation confirmed an insufficient balance for a withdrawal of
    /// the given amount.
    InsufficientBalance { amount: u128 },
    /// The computation confirmed that the lottery could not be created.
    LotteryCreationFailed { lottery_id: LotteryId },
    /// The computation confirmed that the ticket purchase failed.
    TicketPurchaseFailed { lottery_id: LotteryId },
    /// The computation confirmed that no winner could be drawn.
    WinnerDrawFailed { lottery_id: LotteryId },
}

/// An outgoing interaction scheduled by an invocation, dispatched later by
/// the host as a transaction of its own.
#[derive(Clone, Copy, PartialEq, Eq, Structural, Debug)]
pub enum EventGroup {
    /// `transfer_from` on the token contract, pulling `amount` from `sender`
    /// to `receiver`; the host reports the outcome to the deposit callback
    /// together with `sender` and `amount`.
    TokenTransferFrom { token: Address, sender: Address, receiver: Address, amount: u128 },
    /// `transfer` on the token contract, paying `amount` to `receiver`.
    TokenTransfer { token: Address, receiver: Address, amount: u128 },
    /// Deferred self-invocation that, when dispatched, unconditionally
    /// reports the recorded failure.
    DeferredFailure { target: Address, reason: FailureReason },
    /// Self-invocation that resumes draining the work queue.
    ContinueQueue { target: Address },
}

/// Record an isolated failure: schedule a deferred self-addressed action
/// that will report `reason`, without throwing or blocking the invocation
/// that discovered the failure.
pub fn fail_safely(
    context: &ContractContext,
    event_groups: &mut Vec<EventGroup>,
    reason: FailureReason,
)
    ensures
        final(event_groups)@ == old(event_groups)@.push(
            EventGroup::DeferredFailure { target: context.contract_address, reason },
        ),
{
    event_groups.push(EventGroup::DeferredFailure { target: context.contract_address, reason });
}

} // verus!
