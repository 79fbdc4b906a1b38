//! Constructors for the two singleton records written at instantiation.

use vstd::prelude::*;
use crate::msg::{Env, InstantiateMsg};
use crate::structs::{Config, State};

verus! {

/// The strategy cap a fresh configuration starts with.
pub const DEFAULT_STRATEGY_CAP: u128 = 10_000_000_000_000_000_000_000u128;

/// The initial lifecycle state: closed and paused, with the instantiation
/// time recorded as the last pause.
pub fn initialise_state(env: &Env) -> (s: State)
    ensures
        s == (State { is_open: false, is_paused: true, last_pause: env.block_time }),
{
    State { is_open: false, is_paused: true, last_pause: env.block_time }
}

/// The initial configuration: the base denom fixed from the instantiation
/// message, the default cap, and no strategy denom yet.
pub fn initialise_config(msg: &InstantiateMsg) -> (c: Config)
    ensures
        c.strategy_cap == DEFAULT_STRATEGY_CAP,
        c.strategy_denom is None,
        c.base_denom@ == msg.base_denom@,
{
    Config {
        strategy_cap: DEFAULT_STRATEGY_CAP,
        strategy_denom: None,
        base_denom: msg.base_denom.clone(),
    }
}

} // verus!
