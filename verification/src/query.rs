//! The read-only queries: snapshots of the configuration and lifecycle
//! state. Queries never mutate the store.

use vstd::prelude::*;
use vstd::string::StringExecFns;
use crate::structs::{ConfigResponse, StateResponse, Vault};

verus! {

/// The configuration snapshot: the strategy denom flattened to the empty
/// text while provisioning has not committed one, and the stored
/// contract version alongside.
pub fn query_config(vault: &Vault) -> (r: ConfigResponse)
    ensures
        r.strategy_cap == vault.config.strategy_cap,
        r.base_denom == vault.config.base_denom,
        r.version == vault.version,
        match vault.config.strategy_denom {
            Some(d) => r.strategy_denom == d,
            None => r.strategy_denom@ == Seq::<char>::empty(),
        },
{
    let strategy_denom = match &vault.config.strategy_denom {
        Some(d) => d.clone(),
        None => String::new(),
    };
    ConfigResponse {
        strategy_cap: vault.config.strategy_cap,
        strategy_denom,
        base_denom: vault.config.base_denom.clone(),
        version: vault.version.clone(),
    }
}

/// The lifecycle snapshot.
pub fn query_state(vault: &Vault) -> (r: StateResponse)
    ensures
        r == (StateResponse {
            is_open: vault.state.is_open,
            is_paused: vault.state.is_paused,
            last_pause: vault.state.last_pause,
        }),
{
    StateResponse {
        is_open: vault.state.is_open,
        is_paused: vault.state.is_paused,
        last_pause: vault.state.last_pause,
    }
}

} // verus!
