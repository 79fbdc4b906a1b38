//! The administrative transitions of the lifecycle state machine and the
//! share ledger's deposit/redeem operations. Every handler either commits
//! its whole transition or fails and leaves the store unchanged; deposit
//! and redeem mutate nothing themselves — they validate and emit
//! instructions for the surrounding ledger.

use vstd::prelude::*;
use vstd::string::StringExecFns;
use crate::errors::ContractError;
use crate::msg::{is_event_only_response, Coin, Env, Event, MessageInfo, Response, VaultMsg};
use crate::ownership::{authorize, authorized};
use crate::structs::{State, Vault};

verus! {

/// What opening does to the store: owner-gated; refused with `IsOpen`
/// when already open; otherwise the vault becomes open and unpaused.
pub open spec fn open_transition(
    v: Vault,
    info: MessageInfo,
    r: Result<Response, ContractError>,
    v2: Vault,
) -> bool {
    if !authorized(v, info.sender@) {
        r matches Err(e) && e == ContractError::Unauthorized && v2 == v
    } else if v.state.is_open {
        r matches Err(e) && e == ContractError::IsOpen && v2 == v
    } else {
        &&& v2 == (Vault {
            state: State { is_open: true, is_paused: false, last_pause: v.state.last_pause },
            ..v
        })
        &&& r matches Ok(res) && is_event_only_response(res, "open_contract"@)
    }
}

/// What pausing does to the store: owner-gated; refused with `Paused`
/// when already paused; otherwise only the pause flag is set — the open
/// flag is untouched — and the pause time is recorded.
pub open spec fn pause_transition(
    v: Vault,
    env: Env,
    info: MessageInfo,
    r: Result<Response, ContractError>,
    v2: Vault,
) -> bool {
    if !authorized(v, info.sender@) {
        r matches Err(e) && e == ContractError::Unauthorized && v2 == v
    } else if v.state.is_paused {
        r matches Err(e) && e == ContractError::Paused && v2 == v
    } else {
        &&& v2 == (Vault {
            state: State { is_open: v.state.is_open, is_paused: true, last_pause: env.block_time },
            ..v
        })
        &&& r matches Ok(res) && is_event_only_response(res, "paused"@)
    }
}

/// What unpausing does to the store: owner-gated; refused with
/// `NotPaused` when not paused; otherwise only the pause flag is cleared.
pub open spec fn unpause_transition(
    v: Vault,
    info: MessageInfo,
    r: Result<Response, ContractError>,
    v2: Vault,
) -> bool {
    if !authorized(v, info.sender@) {
        r matches Err(e) && e == ContractError::Unauthorized && v2 == v
    } else if !v.state.is_paused {
        r matches Err(e) && e == ContractError::NotPaused && v2 == v
    } else {
        &&& v2 == (Vault { state: State { is_paused: false, ..v.state }, ..v })
        &&& r matches Ok(res) && is_event_only_response(res, "unpaused"@)
    }
}

/// The payment is exactly one coin of the given denom with a strictly
/// positive amount.
pub open spec fn valid_payment(funds: Seq<Coin>, denom: Seq<char>) -> bool {
    &&& funds.len() == 1
    &&& funds[0].denom@ == denom
    &&& funds[0].amount > 0
}

/// What depositing returns: gated on open-and-unpaused, then the payment
/// shape, then a committed strategy denom; on success exactly one mint
/// instruction of the paid amount of shares to the caller.
pub open spec fn deposit_result(
    v: Vault,
    env: Env,
    info: MessageInfo,
    r: Result<Response, ContractError>,
) -> bool {
    if !v.state.is_open {
        r matches Err(e) && e == ContractError::NotOpen
    } else if v.state.is_paused {
        r matches Err(e) && e == ContractError::Paused
    } else if !valid_payment(info.funds@, v.config.base_denom@) {
        r matches Err(e) && e == ContractError::InvalidFunds
    } else if v.config.strategy_denom is None {
        r matches Err(e) && e == ContractError::DenomNotInitialized
    } else {
        &&& v.config.strategy_denom matches Some(d)
        &&& r matches Ok(res)
        &&& res.attributes@.len() == 0
        &&& res.events@.len() == 0
        &&& res.messages@.len() == 1
        &&& res.messages@[0] matches VaultMsg::Mint { sender, denom, amount, mint_to_address }
            && sender@ == env.contract_address@ && denom@ == d@ && amount == info.funds@[0].amount
            && mint_to_address@ == info.sender@
    }
}

/// What redeeming returns: the same lifecycle gate, then a committed
/// strategy denom, then the payment shape in shares; on success a burn of
/// the paid shares from the vault's own holdings ordered before a
/// transfer of the same amount of base assets back to the caller.
pub open spec fn redeem_result(
    v: Vault,
    env: Env,
    info: MessageInfo,
    r: Result<Response, ContractError>,
) -> bool {
    if !v.state.is_open {
        r matches Err(e) && e == ContractError::NotOpen
    } else if v.state.is_paused {
        r matches Err(e) && e == ContractError::Paused
    } else if v.config.strategy_denom is None {
        r matches Err(e) && e == ContractError::DenomNotInitialized
    } else if !valid_payment(info.funds@, v.config.strategy_denom.unwrap()@) {
        r matches Err(e) && e == ContractError::InvalidFunds
    } else {
        &&& v.config.strategy_denom matches Some(d)
        &&& r matches Ok(res)
        &&& res.attributes@.len() == 0
        &&& res.events@.len() == 0
        &&& res.messages@.len() == 2
        &&& res.messages@[0] matches VaultMsg::Burn { sender, denom, amount, burn_from_address }
            && sender@ == env.contract_address@ && denom@ == d@ && amount == info.funds@[0].amount
            && burn_from_address@ == env.contract_address@
        &&& res.messages@[1] matches VaultMsg::Send { to_address, denom, amount }
            && to_address@ == info.sender@ && denom@ == v.config.base_denom@ && amount
            == info.funds@[0].amount
    }
}

/// Validate the payment attached to a call: exactly one coin, of `denom`,
/// with a positive amount, else `InvalidFunds`.
pub fn must_pay(info: &MessageInfo, denom: &String) -> (r: Result<u128, ContractError>)
    ensures
        r is Ok <==> valid_payment(info.funds@, denom@),
        r matches Ok(a) ==> a == info.funds@[0].amount,
        r is Err ==> (r matches Err(e) && e == ContractError::InvalidFunds),
{
    if info.funds.len() != 1 {
        return Err(ContractError::InvalidFunds);
    }
    let coin = &info.funds[0];
    if coin.amount == 0 {
        return Err(ContractError::InvalidFunds);
    }
    if !(coin.denom == *denom) {
        return Err(ContractError::InvalidFunds);
    }
    Ok(coin.amount)
}

/// Open the vault for deposit/redeem traffic.
pub fn handle_open_contract(vault: &mut Vault, _env: &Env, info: &MessageInfo) -> (r: Result<
    Response,
    ContractError,
>)
    ensures
        open_transition(*old(vault), *info, r, *final(vault)),
{
    match authorize(vault, &info.sender) {
        Err(e) => {
            return Err(e);
        },
        Ok(()) => {},
    }
    if vault.state.is_open() {
        return Err(ContractError::IsOpen);
    }
    vault.state.set_open(true);
    vault.state.set_paused(false);
    let mut events: Vec<Event> = Vec::new();
    events.push(Event { ty: String::from_str("open_contract"), attributes: Vec::new() });
    Ok(Response { messages: Vec::new(), attributes: Vec::new(), events })
}

/// Halt deposit/redeem traffic and record the pause time.
pub fn handle_pause(vault: &mut Vault, env: &Env, info: &MessageInfo) -> (r: Result<
    Response,
    ContractError,
>)
    ensures
        pause_transition(*old(vault), *env, *info, r, *final(vault)),
{
    match authorize(vault, &info.sender) {
        Err(e) => {
            return Err(e);
        },
        Ok(()) => {},
    }
    if vault.state.is_paused() {
        return Err(ContractError::Paused);
    }
    vault.state = State { is_open: vault.state.is_open, is_paused: true, last_pause: env.block_time };
    let mut events: Vec<Event> = Vec::new();
    events.push(Event { ty: String::from_str("paused"), attributes: Vec::new() });
    Ok(Response { messages: Vec::new(), attributes: Vec::new(), events })
}

/// Resume deposit/redeem traffic.
pub fn handle_unpause(vault: &mut Vault, info: &MessageInfo) -> (r: Result<
    Response,
    ContractError,
>)
    ensures
        unpause_transition(*old(vault), *info, r, *final(vault)),
{
    match authorize(vault, &info.sender) {
        Err(e) => {
            return Err(e);
        },
        Ok(()) => {},
    }
    if !vault.state.is_paused() {
        return Err(ContractError::NotPaused);
    }
    vault.state.set_paused(false);
    let mut events: Vec<Event> = Vec::new();
    events.push(Event { ty: String::from_str("unpaused"), attributes: Vec::new() });
    Ok(Response { messages: Vec::new(), attributes: Vec::new(), events })
}

/// What a configuration update returns: owner-gated; no configuration
/// field is updatable through this operation, so on success only the
/// acknowledging event comes back.
pub open spec fn update_config_result(
    v: Vault,
    info: MessageInfo,
    r: Result<Response, ContractError>,
) -> bool {
    if !authorized(v, info.sender@) {
        r matches Err(e) && e == ContractError::Unauthorized
    } else {
        r matches Ok(res) && is_event_only_response(res, "update_config"@)
    }
}

/// Re-persist the configuration. Owner-gated; the store is unchanged
/// (no configuration field is updatable through this operation).
pub fn handle_update_config(vault: &Vault, info: &MessageInfo) -> (r: Result<
    Response,
    ContractError,
>)
    ensures
        update_config_result(*vault, *info, r),
{
    match authorize(vault, &info.sender) {
        Err(e) => {
            return Err(e);
        },
        Ok(()) => {},
    }
    let mut events: Vec<Event> = Vec::new();
    events.push(Event { ty: String::from_str("update_config"), attributes: Vec::new() });
    Ok(Response { messages: Vec::new(), attributes: Vec::new(), events })
}

/// The mint instruction for `amount` shares to `to`, or
/// `DenomNotInitialized` while provisioning has not committed a denom.
pub fn mint_strategy_token(vault: &Vault, env: &Env, to: String, amount: u128) -> (r: Result<
    VaultMsg,
    ContractError,
>)
    ensures
        match vault.config.strategy_denom {
            Some(d) => r matches Ok(m) && (m matches VaultMsg::Mint {
                sender,
                denom,
                amount: a,
                mint_to_address,
            } && sender@ == env.contract_address@ && denom@ == d@ && a == amount
                && mint_to_address@ == to@),
            None => r matches Err(e) && e == ContractError::DenomNotInitialized,
        },
{
    let denom = match &vault.config.strategy_denom {
        Some(d) => d.clone(),
        None => {
            return Err(ContractError::DenomNotInitialized);
        },
    };
    Ok(
        VaultMsg::Mint {
            sender: env.contract_address.clone(),
            denom,
            amount,
            mint_to_address: to,
        },
    )
}

/// The burn instruction for `amount` shares from the vault's own
/// holdings, or `DenomNotInitialized` while provisioning has not
/// committed a denom.
pub fn burn_strategy_token(vault: &Vault, env: &Env, amount: u128) -> (r: Result<
    VaultMsg,
    ContractError,
>)
    ensures
        match vault.config.strategy_denom {
            Some(d) => r matches Ok(m) && (m matches VaultMsg::Burn {
                sender,
                denom,
                amount: a,
                burn_from_address,
            } && sender@ == env.contract_address@ && denom@ == d@ && a == amount
                && burn_from_address@ == env.contract_address@),
            None => r matches Err(e) && e == ContractError::DenomNotInitialized,
        },
{
    let denom = match &vault.config.strategy_denom {
        Some(d) => d.clone(),
        None => {
            return Err(ContractError::DenomNotInitialized);
        },
    };
    Ok(
        VaultMsg::Burn {
            sender: env.contract_address.clone(),
            denom,
            amount,
            burn_from_address: env.contract_address.clone(),
        },
    )
}

/// Validate a deposit and emit the mint instruction for it.
pub fn handle_deposit(vault: &Vault, env: &Env, info: &MessageInfo) -> (r: Result<
    Response,
    ContractError,
>)
    ensures
        deposit_result(*vault, *env, *info, r),
{
    match vault.state.is_open_and_unpaused() {
        Err(e) => {
            return Err(e);
        },
        Ok(()) => {},
    }
    let amount = match must_pay(info, &vault.config.base_denom) {
        Ok(a) => a,
        Err(e) => {
            return Err(e);
        },
    };
    let mint_msg = match mint_strategy_token(vault, env, info.sender.clone(), amount) {
        Ok(m) => m,
        Err(e) => {
            return Err(e);
        },
    };
    let mut messages: Vec<VaultMsg> = Vec::new();
    messages.push(mint_msg);
    Ok(Response { messages, attributes: Vec::new(), events: Vec::new() })
}

/// Validate a redemption and emit its burn and transfer instructions,
/// the burn ordered first.
pub fn handle_redeem(vault: &Vault, env: &Env, info: &MessageInfo) -> (r: Result<
    Response,
    ContractError,
>)
    ensures
        redeem_result(*vault, *env, *info, r),
{
    match vault.state.is_open_and_unpaused() {
        Err(e) => {
            return Err(e);
        },
        Ok(()) => {},
    }
    let strategy_denom = match &vault.config.strategy_denom {
        Some(d) => d.clone(),
        None => {
            return Err(ContractError::DenomNotInitialized);
        },
    };
    let amount = match must_pay(info, &strategy_denom) {
        Ok(a) => a,
        Err(e) => {
            return Err(e);
        },
    };
    let burn_msg = match burn_strategy_token(vault, env, amount) {
        Ok(m) => m,
        Err(e) => {
            return Err(e);
        },
    };
    let send_msg = VaultMsg::Send {
        to_address: info.sender.clone(),
        denom: vault.config.base_denom.clone(),
        amount,
    };
    let mut messages: Vec<VaultMsg> = Vec::new();
    messages.push(burn_msg);
    messages.push(send_msg);
    Ok(Response { messages, attributes: Vec::new(), events: Vec::new() })
}

} // verus!
