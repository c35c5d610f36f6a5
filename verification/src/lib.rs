//! Work-queue orchestrator for a confidential credit-and-lottery ledger.
//!
//! The contract keeps user balances, lottery funds and lottery entropy inside
//! confidential variables held by an external secret-computation engine, and
//! only ever touches them through delegated computations.  This crate holds
//! the orchestration core: a FIFO work queue that feeds the engine at most one
//! job at a time, a registry that tracks which confidential variable currently
//! represents each logical entity, a garbage-collection set for superseded
//! variables, and an interpreter for publicly revealed computation results
//! that drives each lottery's public state machine.
//!
//! Everything the engine and the host ledger runtime do is modelled as plain
//! data: submissions, deletions, ownership transfers and outgoing token calls
//! are returned as values, and completions and revealed results come back in
//! as values, so the whole decision core is verified.

#![verifier::loop_isolation(false)]

use vstd::prelude::*;

pub mod actions;
pub mod events;
pub mod keymap;
pub mod laws;
pub mod lottery;
pub mod mpc_20;
pub mod results;
pub mod state;
pub mod zk;
pub mod zk_compute;

pub use crate::actions::continue_queue;
pub use crate::actions::create_account;
pub use crate::actions::create_account_complete;
pub use crate::actions::create_account_inputted;
pub use crate::actions::create_lottery;
pub use crate::actions::create_lottery_complete;
pub use crate::actions::create_lottery_inputted;
pub use crate::actions::deposit_callback;
pub use crate::actions::draw_winner;
pub use crate::actions::draw_winner_complete;
pub use crate::actions::initialize;
pub use crate::actions::purchase_credits;
pub use crate::actions::purchase_tickets;
pub use crate::actions::redeem_credits;
pub use crate::actions::simple_work_item_complete;
pub use crate::actions::ticket_purchase_complete;
pub use crate::actions::ticket_purchase_inputted;
pub use crate::actions::trigger_continue_queue_if_needed;
pub use crate::actions::variable_opened;
pub use crate::actions::withdraw_complete;
pub use crate::events::fail_safely;
pub use crate::state::ContractState;
pub use crate::state::WorkListItem;
pub use crate::zk::VariableKind;
pub use crate::zk_compute::AccountBalance;
