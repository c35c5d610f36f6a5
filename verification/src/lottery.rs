//! Public-facing state of a single lottery instance: its configuration, its
//! life-cycle status, and the handles of the confidential variables that
//! hold its secret state.

use vstd::prelude::*;

use crate::events::Address;
use crate::zk::SecretVarId;

verus! {

/// Unique identifier for lottery instances.
pub type LotteryId = u128;

/// Status of a lottery at any point in its life cycle.
///
/// Transitions are driven only by confirmed computation results:
/// `Pending -> Open` on a confirmed creation, `Open -> Closed` on a
/// confirmed winner draw, `Closed -> Drawn -> Complete` on payout and claim.
#[derive(Clone, Copy, PartialEq, Eq, Structural, Debug)]
pub enum LotteryStatus {
    /// Awaiting confirmation that the creation funds reached the lottery
    /// account.
    Pending,
    /// Open and accepting anonymous entries.
    Open,
    /// Entry period over; a winner has been selected.
    Closed,
    /// The winner has been paid.
    Drawn,
    /// The winner has claimed the prize.
    Complete,
}

/// The complete public record of a lottery instance.
#[derive(Clone, Copy, PartialEq, Eq, Structural, Debug)]
pub struct LotteryState {
    /// Unique identifier of this lottery.
    pub lottery_id: LotteryId,
    /// Address of the account that created it.
    pub creator: Address,
    /// Current status in the life cycle.
    pub status: LotteryStatus,
    /// Timestamp at which the entry period closes.
    pub deadline: i64,
    /// The winning participant, once drawn.
    pub winner: Option<Address>,
    /// Cost of a single entry.
    pub entry_cost: u128,
    /// Tokens promised to the winner.
    pub prize_pool: u128,
    /// Handle of the confidential variable holding the lottery's secret
    /// state.
    pub secret_state_id: Option<SecretVarId>,
    /// Handle of a replacement secret state produced by a computation whose
    /// public result has not been confirmed yet.  It is promoted to
    /// `secret_state_id` only on confirmed success, so a failed attempt can
    /// never corrupt valid state.
    pub pending_secret_state_id: Option<SecretVarId>,
    /// Index of the winning ticket, once drawn.
    pub winner_index: Option<u128>,
}

} // verus!
