//! The lifecycle state machine's read and write primitives, and the guard
//! that gates every deposit and redeem.

use vstd::prelude::*;
use crate::errors::ContractError;
use crate::structs::State;

verus! {

/// Deposit/redeem traffic is permitted exactly in this state.
pub open spec fn open_and_unpaused(s: State) -> bool {
    s.is_open && !s.is_paused
}

impl State {
    pub fn is_open(&self) -> (r: bool)
        ensures
            r == self.is_open,
    {
        self.is_open
    }

    pub fn is_paused(&self) -> (r: bool)
        ensures
            r == self.is_paused,
    {
        self.is_paused
    }

    pub fn set_open(&mut self, open: bool)
        ensures
            *final(self) == (State { is_open: open, ..*old(self) }),
    {
        self.is_open = open;
    }

    pub fn set_paused(&mut self, paused: bool)
        ensures
            *final(self) == (State { is_paused: paused, ..*old(self) }),
    {
        self.is_paused = paused;
    }

    /// The read-only guard for deposit/redeem: the vault must be open,
    /// else `NotOpen`; and unpaused, else `Paused`.
    pub fn is_open_and_unpaused(&self) -> (r: Result<(), ContractError>)
        ensures
            r is Ok <==> open_and_unpaused(*self),
            !self.is_open ==> r == Result::<(), ContractError>::Err(ContractError::NotOpen),
            self.is_open && self.is_paused ==> r == Result::<(), ContractError>::Err(
                ContractError::Paused,
            ),
    {
        if !self.is_open {
            return Err(ContractError::NotOpen);
        }
        if self.is_paused {
            return Err(ContractError::Paused);
        }
        Ok(())
    }
}

} // verus!
