//! Interface for fungible-token contracts on the ledger.
//!
//! The token contract is an external collaborator: the orchestrator only
//! ever schedules `transfer` and `transfer_from` interactions against it and
//! observes `transfer_from` outcomes through a callback.  Both calls are
//! modelled as scheduled event groups.

use vstd::prelude::*;

use crate::events::Address;
use crate::events::EventGroup;

verus! {

/// A token transfer amount.
pub type TokenTransferAmount = u128;

/// A handle on one token contract instance.
pub struct MPC20Contract {
    contract_address: Address,
}

impl MPC20Contract {
    /// The address this handle points at.
    pub closed spec fn spec_address(&self) -> Address {
        self.contract_address
    }

    /// A handle on the token contract at `contract_address`.
    pub fn at_address(contract_address: Address) -> (c: Self)
        ensures
            c.spec_address() == contract_address,
    {
        MPC20Contract { contract_address }
    }

    /// Schedule a transfer of `amount` tokens from the calling contract to
    /// `receiver`.
    pub fn transfer(
        &self,
        event_groups: &mut Vec<EventGroup>,
        receiver: &Address,
        amount: TokenTransferAmount,
    )
        ensures
            final(event_groups)@ == old(event_groups)@.push(
                EventGroup::TokenTransfer {
                    token: self.spec_address(),
                    receiver: *receiver,
                    amount,
                },
            ),
    {
        event_groups.push(
            EventGroup::TokenTransfer {
                token: self.contract_address,
                receiver: *receiver,
                amount,
            },
        );
    }

    /// Schedule a transfer of `amount` tokens from `sender` to `receiver`,
    /// using the allowance `sender` granted the calling contract.  The host
    /// reports the outcome to the deposit callback.
    pub fn transfer_from(
        &self,
        event_groups: &mut Vec<EventGroup>,
        sender: &Address,
        receiver: &Address,
        amount: TokenTransferAmount,
    )
        ensures
            final(event_groups)@ == old(event_groups)@.push(
                EventGroup::TokenTransferFrom {
                    token: self.spec_address(),
                    sender: *sender,
                    receiver: *receiver,
                    amount,
                },
            ),
    {
        event_groups.push(
            EventGroup::TokenTransferFrom {
                token: self.contract_address,
                sender: *sender,
                receiver: *receiver,
                amount,
            },
        );
    }
}

} // verus!
