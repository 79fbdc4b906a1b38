//! A specification-level model of what the surrounding ledger does with a
//! call: the payment attached to the call moves from the caller to the
//! vault, and each emitted instruction mints, burns, or transfers as it
//! says. The model assigns every call a signed balance change per account
//! and denom, and a signed supply change per denom; the laws about
//! deposits and redemptions are stated over these.

use vstd::prelude::*;
use crate::msg::{Coin, VaultMsg};

verus! {

/// The signed change one instruction makes to `account`'s balance of
/// `denom`. The vault at `vault_addr` is the implicit sender of every
/// transfer instruction. Minting credits the recipient out of new supply;
/// burning debits the named holder into destroyed supply.
pub open spec fn msg_account_delta(
    m: VaultMsg,
    vault_addr: Seq<char>,
    account: Seq<char>,
    denom: Seq<char>,
) -> int {
    match m {
        VaultMsg::CreateDenom { .. } => 0,
        VaultMsg::Mint { denom: d, amount, mint_to_address, .. } => if d@ == denom
            && mint_to_address@ == account {
            amount as int
        } else {
            0
        },
        VaultMsg::Burn { denom: d, amount, burn_from_address, .. } => if d@ == denom
            && burn_from_address@ == account {
            -(amount as int)
        } else {
            0
        },
        VaultMsg::Send { to_address, denom: d, amount } => if d@ == denom {
            (if to_address@ == account {
                amount as int
            } else {
                0
            }) - (if vault_addr == account {
                amount as int
            } else {
                0
            })
        } else {
            0
        },
    }
}

/// The signed change a sequence of instructions makes to `account`'s
/// balance of `denom`, executed in order.
pub open spec fn msgs_account_delta(
    ms: Seq<VaultMsg>,
    vault_addr: Seq<char>,
    account: Seq<char>,
    denom: Seq<char>,
) -> int
    decreases ms.len(),
{
    if ms.len() == 0 {
        0
    } else {
        msg_account_delta(ms[0], vault_addr, account, denom) + msgs_account_delta(
            ms.drop_first(),
            vault_addr,
            account,
            denom,
        )
    }
}

/// The signed change one instruction makes to the total supply of
/// `denom`: mints create, burns destroy, transfers conserve.
pub open spec fn msg_supply_delta(m: VaultMsg, denom: Seq<char>) -> int {
    match m {
        VaultMsg::Mint { denom: d, amount, .. } => if d@ == denom {
            amount as int
        } else {
            0
        },
        VaultMsg::Burn { denom: d, amount, .. } => if d@ == denom {
            -(amount as int)
        } else {
            0
        },
        _ => 0,
    }
}

/// The signed change a sequence of instructions makes to the total
/// supply of `denom`.
pub open spec fn msgs_supply_delta(ms: Seq<VaultMsg>, denom: Seq<char>) -> int
    decreases ms.len(),
{
    if ms.len() == 0 {
        0
    } else {
        msg_supply_delta(ms[0], denom) + msgs_supply_delta(ms.drop_first(), denom)
    }
}

/// The total amount of `denom` in an attached payment.
pub open spec fn funds_amount(funds: Seq<Coin>, denom: Seq<char>) -> int
    decreases funds.len(),
{
    if funds.len() == 0 {
        0
    } else {
        (if funds[0].denom@ == denom {
            funds[0].amount as int
        } else {
            0
        }) + funds_amount(funds.drop_first(), denom)
    }
}

/// The signed change the payment itself makes to `account`'s balance of
/// `denom`: the attached coins move from the caller to the vault before
/// the handler runs.
pub open spec fn payment_account_delta(
    sender: Seq<char>,
    funds: Seq<Coin>,
    vault_addr: Seq<char>,
    account: Seq<char>,
    denom: Seq<char>,
) -> int {
    (if vault_addr == account {
        funds_amount(funds, denom)
    } else {
        0
    }) - (if sender == account {
        funds_amount(funds, denom)
    } else {
        0
    })
}

/// The net change one call makes to `account`'s balance of `denom`: its
/// payment plus its emitted instructions.
pub open spec fn call_account_delta(
    sender: Seq<char>,
    funds: Seq<Coin>,
    ms: Seq<VaultMsg>,
    vault_addr: Seq<char>,
    account: Seq<char>,
    denom: Seq<char>,
) -> int {
    payment_account_delta(sender, funds, vault_addr, account, denom) + msgs_account_delta(
        ms,
        vault_addr,
        account,
        denom,
    )
}

} // verus!
