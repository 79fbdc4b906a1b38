//! The laws of the vault, each proved from the transition contracts: what
//! the ownership protocol guarantees across calls, how the lifecycle
//! guards refuse repetition, and what deposits and redemptions do to
//! balances and supply under the ledger model of [`crate::effects`].

use vstd::prelude::*;
use crate::effects::{
    call_account_delta, funds_amount, msg_account_delta, msg_supply_delta, msgs_account_delta,
    msgs_supply_delta,
};
use crate::errors::ContractError;
use crate::handlers::{
    deposit_result, open_transition, pause_transition, redeem_result, unpause_transition,
    valid_payment,
};
use crate::msg::{Coin, Env, MessageInfo, Response, VaultMsg};
use crate::ownership::{
    authorized, claim_transition, propose_transition, reject_transition, MAX_DURATION,
};
use crate::structs::Vault;

verus! {

/// A duration beyond the policy maximum is refused with that maximum and
/// changes nothing — stated for an authorized caller, since an
/// unauthorized one is refused with `Unauthorized` before the duration is
/// looked at.
pub proof fn lemma_propose_overlong_duration_refused(
    v: Vault,
    env: Env,
    info: MessageInfo,
    new_owner: Seq<char>,
    duration: u64,
    r: Result<Response, ContractError>,
    v2: Vault,
)
    requires
        authorized(v, info.sender@),
        duration > MAX_DURATION,
        propose_transition(v, env, info, new_owner, duration, r, v2),
    ensures
        r matches Err(e) && e == ContractError::InvalidDuration(MAX_DURATION),
        v2 == v,
{
}

/// A proposal that the protocol accepts never reaches further than the
/// policy horizon: the stored expiry is at most the proposal time plus
/// [`MAX_DURATION`].
pub proof fn lemma_proposal_expiry_bounded(
    v: Vault,
    env: Env,
    info: MessageInfo,
    new_owner: Seq<char>,
    duration: u64,
    r: Result<Response, ContractError>,
    v2: Vault,
)
    requires
        propose_transition(v, env, info, new_owner, duration, r, v2),
        r is Ok,
    ensures
        v2.proposal matches Some(p) && p.expiry <= env.block_time + MAX_DURATION,
{
}

/// A successful proposal replaces whatever proposal was pending: the
/// prior candidate — anyone other than the new candidate — can no longer
/// successfully claim, whatever the prior slot held.
pub proof fn lemma_propose_replaces_pending(
    v: Vault,
    env: Env,
    info: MessageInfo,
    new_owner: Seq<char>,
    duration: u64,
    r: Result<Response, ContractError>,
    v2: Vault,
    env2: Env,
    info2: MessageInfo,
    r2: Result<Response, ContractError>,
    v3: Vault,
)
    requires
        propose_transition(v, env, info, new_owner, duration, r, v2),
        r is Ok,
        info2.sender@ != new_owner,
        claim_transition(v2, env2, info2, r2, v3),
    ensures
        v2.proposal matches Some(p) && p.owner@ == new_owner,
        r2 is Err,
        v3 == v2,
{
}

/// The claim characterization: with a proposal pending, claiming succeeds
/// exactly for the stored candidate at or before the expiry; past the
/// expiry it is `Expired` regardless of the caller; within the expiry any
/// other caller is `Unauthorized`; and with no proposal pending it is
/// `ProposalNotFound`. Every failure leaves the store unchanged.
pub proof fn lemma_claim_characterization(
    v: Vault,
    env: Env,
    info: MessageInfo,
    r: Result<Response, ContractError>,
    v2: Vault,
)
    requires
        claim_transition(v, env, info, r, v2),
    ensures
        r is Ok <==> (v.proposal matches Some(p) && env.block_time <= p.expiry && info.sender@
            == p.owner@),
        v.proposal is None ==> (r matches Err(e) && e == ContractError::ProposalNotFound),
        (v.proposal matches Some(p) && env.block_time > p.expiry) ==> (r matches Err(e) && e
            == ContractError::Expired),
        (v.proposal matches Some(p) && env.block_time <= p.expiry && info.sender@ != p.owner@)
            ==> (r matches Err(e) && e == ContractError::Unauthorized),
        r is Err ==> v2 == v,
{
}

/// After a successful claim the former candidate is the owner and the
/// proposal slot is empty, so the owner query reports the candidate.
pub proof fn lemma_claim_transfers_ownership(
    v: Vault,
    env: Env,
    info: MessageInfo,
    r: Result<Response, ContractError>,
    v2: Vault,
)
    requires
        claim_transition(v, env, info, r, v2),
        r is Ok,
    ensures
        v.proposal matches Some(p) && v2.owner == p.owner,
        v2.proposal is None,
{
}

/// Opening an already-open vault is refused, and the store is unchanged —
/// stated for an authorized caller.
pub proof fn lemma_open_not_repeatable(
    v: Vault,
    info: MessageInfo,
    r: Result<Response, ContractError>,
    v2: Vault,
)
    requires
        authorized(v, info.sender@),
        v.state.is_open,
        open_transition(v, info, r, v2),
    ensures
        r matches Err(e) && e == ContractError::IsOpen,
        v2 == v,
{
}

/// A second consecutive pause is refused with `Paused` — never a silent
/// no-op — and leaves the store unchanged.
pub proof fn lemma_second_pause_refused(
    v: Vault,
    env: Env,
    info: MessageInfo,
    r: Result<Response, ContractError>,
    v2: Vault,
    env2: Env,
    info2: MessageInfo,
    r2: Result<Response, ContractError>,
    v3: Vault,
)
    requires
        pause_transition(v, env, info, r, v2),
        r is Ok,
        authorized(v2, info2.sender@),
        pause_transition(v2, env2, info2, r2, v3),
    ensures
        r2 matches Err(e) && e == ContractError::Paused,
        v3 == v2,
{
}

/// A second consecutive unpause is refused with `NotPaused` — never a
/// silent no-op — and leaves the store unchanged.
pub proof fn lemma_second_unpause_refused(
    v: Vault,
    info: MessageInfo,
    r: Result<Response, ContractError>,
    v2: Vault,
    info2: MessageInfo,
    r2: Result<Response, ContractError>,
    v3: Vault,
)
    requires
        unpause_transition(v, info, r, v2),
        r is Ok,
        authorized(v2, info2.sender@),
        unpause_transition(v2, info2, r2, v3),
    ensures
        r2 matches Err(e) && e == ContractError::NotPaused,
        v3 == v2,
{
}

/// The configuration and the provisioning registration are out of reach
/// of every administrative transition: only the completion handler
/// commits the strategy denom, so nothing else can mutate it between the
/// request and its completion. Well-formedness of the store is preserved
/// along the way.
pub proof fn lemma_config_mutated_only_by_completion(
    v: Vault,
    env: Env,
    info: MessageInfo,
    new_owner: Seq<char>,
    duration: u64,
    r: Result<Response, ContractError>,
    v2: Vault,
)
    requires
        open_transition(v, info, r, v2) || pause_transition(v, env, info, r, v2)
            || unpause_transition(v, info, r, v2) || propose_transition(
            v,
            env,
            info,
            new_owner,
            duration,
            r,
            v2,
        ) || claim_transition(v, env, info, r, v2) || reject_transition(v, info, r, v2),
    ensures
        v2.config == v.config,
        v2.pending_reply == v.pending_reply,
        v.wf() ==> v2.wf(),
{
}

/// The owner is mutated only by a successful claim: every lifecycle
/// transition, proposal operation, and completion notification leaves it
/// as it was.
pub proof fn lemma_owner_mutated_only_by_claim(
    v: Vault,
    env: Env,
    info: MessageInfo,
    new_owner: Seq<char>,
    duration: u64,
    reply: crate::msg::Reply,
    r: Result<Response, ContractError>,
    v2: Vault,
)
    requires
        open_transition(v, info, r, v2) || pause_transition(v, env, info, r, v2)
            || unpause_transition(v, info, r, v2) || propose_transition(
            v,
            env,
            info,
            new_owner,
            duration,
            r,
            v2,
        ) || reject_transition(v, info, r, v2) || crate::reply::reply_transition(v, reply, r, v2),
    ensures
        v2.owner == v.owner,
{
}

/// The deposit guards, in their checking order: not open is `NotOpen`;
/// paused is `Paused`; a payment that is not exactly one positive coin of
/// the base denom is `InvalidFunds`; and a well-shaped deposit before
/// provisioning has committed a denom is `DenomNotInitialized`.
pub proof fn lemma_deposit_guards(
    v: Vault,
    env: Env,
    info: MessageInfo,
    r: Result<Response, ContractError>,
)
    requires
        deposit_result(v, env, info, r),
    ensures
        !v.state.is_open ==> (r matches Err(e) && e == ContractError::NotOpen),
        v.state.is_open && v.state.is_paused ==> (r matches Err(e) && e == ContractError::Paused),
        v.state.is_open && !v.state.is_paused && !valid_payment(info.funds@, v.config.base_denom@)
            ==> (r matches Err(e) && e == ContractError::InvalidFunds),
        v.state.is_open && !v.state.is_paused && valid_payment(info.funds@, v.config.base_denom@)
            && v.config.strategy_denom is None ==> (r matches Err(e) && e
            == ContractError::DenomNotInitialized),
{
}

/// The redeem guards, in their checking order: not open is `NotOpen`;
/// paused is `Paused`; before provisioning has committed a denom it is
/// `DenomNotInitialized`; and a payment that is not exactly one positive
/// coin of the strategy denom is `InvalidFunds`.
pub proof fn lemma_redeem_guards(
    v: Vault,
    env: Env,
    info: MessageInfo,
    r: Result<Response, ContractError>,
)
    requires
        redeem_result(v, env, info, r),
    ensures
        !v.state.is_open ==> (r matches Err(e) && e == ContractError::NotOpen),
        v.state.is_open && v.state.is_paused ==> (r matches Err(e) && e == ContractError::Paused),
        v.state.is_open && !v.state.is_paused && v.config.strategy_denom is None ==> (r matches Err(
            e,
        ) && e == ContractError::DenomNotInitialized),
        (v.state.is_open && !v.state.is_paused && (v.config.strategy_denom matches Some(d)
            && !valid_payment(info.funds@, d@))) ==> (r matches Err(e) && e
            == ContractError::InvalidFunds),
{
}

proof fn lemma_delta_singleton(
    m: VaultMsg,
    vault_addr: Seq<char>,
    account: Seq<char>,
    denom: Seq<char>,
)
    ensures
        msgs_account_delta(seq![m], vault_addr, account, denom) == msg_account_delta(
            m,
            vault_addr,
            account,
            denom,
        ),
        msgs_supply_delta(seq![m], denom) == msg_supply_delta(m, denom),
{
    assert(seq![m].drop_first() =~= Seq::<VaultMsg>::empty());
    assert(msgs_account_delta(Seq::<VaultMsg>::empty(), vault_addr, account, denom) == 0);
    assert(msgs_supply_delta(Seq::<VaultMsg>::empty(), denom) == 0);
    assert(seq![m][0] == m);
}

proof fn lemma_delta_pair(
    m0: VaultMsg,
    m1: VaultMsg,
    vault_addr: Seq<char>,
    account: Seq<char>,
    denom: Seq<char>,
)
    ensures
        msgs_account_delta(seq![m0, m1], vault_addr, account, denom) == msg_account_delta(
            m0,
            vault_addr,
            account,
            denom,
        ) + msg_account_delta(m1, vault_addr, account, denom),
        msgs_supply_delta(seq![m0, m1], denom) == msg_supply_delta(m0, denom) + msg_supply_delta(
            m1,
            denom,
        ),
{
    assert(seq![m0, m1].drop_first() =~= seq![m1]);
    lemma_delta_singleton(m1, vault_addr, account, denom);
}

proof fn lemma_funds_amount_singleton(funds: Seq<Coin>, denom: Seq<char>)
    requires
        funds.len() == 1,
    ensures
        funds_amount(funds, denom) == if funds[0].denom@ == denom {
            funds[0].amount as int
        } else {
            0
        },
{
    assert(funds.drop_first() =~= Seq::<Coin>::empty());
    assert(funds_amount(Seq::<Coin>::empty(), denom) == 0);
}

/// What a successful deposit of amount `A` does under the ledger model:
/// the caller's strategy balance rises by exactly `A`, the vault's base
/// balance rises by exactly `A`, and exactly `A` new shares come into
/// existence. Stated for a caller other than the vault itself and a
/// strategy denom distinct from the base denom (the provisioned share
/// identifier is a fresh factory denom).
pub proof fn lemma_deposit_effect(v: Vault, env: Env, info: MessageInfo, res: Response)
    requires
        deposit_result(v, env, info, Ok(res)),
        info.sender@ != env.contract_address@,
        v.config.strategy_denom matches Some(d) && d@ != v.config.base_denom@,
    ensures
        call_account_delta(
            info.sender@,
            info.funds@,
            res.messages@,
            env.contract_address@,
            info.sender@,
            v.config.strategy_denom.unwrap()@,
        ) == info.funds@[0].amount as int,
        call_account_delta(
            info.sender@,
            info.funds@,
            res.messages@,
            env.contract_address@,
            env.contract_address@,
            v.config.base_denom@,
        ) == info.funds@[0].amount as int,
        msgs_supply_delta(res.messages@, v.config.strategy_denom.unwrap()@) == info.funds@[0].amount
            as int,
{
    let strat = v.config.strategy_denom.unwrap()@;
    let base = v.config.base_denom@;
    let vault_addr = env.contract_address@;
    let m = res.messages@[0];
    assert(res.messages@ =~= seq![m]);
    lemma_delta_singleton(m, vault_addr, info.sender@, strat);
    lemma_delta_singleton(m, vault_addr, vault_addr, base);
    lemma_funds_amount_singleton(info.funds@, strat);
    lemma_funds_amount_singleton(info.funds@, base);
}

/// The round trip: depositing `A` and then immediately redeeming the `A`
/// shares it minted leaves every net effect at zero — the caller's base
/// balance, the vault's base holdings, the caller's share balance, and
/// the share supply. Stated under the same freshness side conditions as
/// the deposit law.
pub proof fn lemma_deposit_redeem_round_trip(
    v: Vault,
    env: Env,
    info_d: MessageInfo,
    res_d: Response,
    info_r: MessageInfo,
    res_r: Response,
)
    requires
        deposit_result(v, env, info_d, Ok(res_d)),
        redeem_result(v, env, info_r, Ok(res_r)),
        info_r.sender@ == info_d.sender@,
        info_r.funds@[0].amount == info_d.funds@[0].amount,
        info_d.sender@ != env.contract_address@,
        v.config.strategy_denom matches Some(d) && d@ != v.config.base_denom@,
    ensures
        call_account_delta(
            info_d.sender@,
            info_d.funds@,
            res_d.messages@,
            env.contract_address@,
            info_d.sender@,
            v.config.base_denom@,
        ) + call_account_delta(
            info_r.sender@,
            info_r.funds@,
            res_r.messages@,
            env.contract_address@,
            info_d.sender@,
            v.config.base_denom@,
        ) == 0,
        call_account_delta(
            info_d.sender@,
            info_d.funds@,
            res_d.messages@,
            env.contract_address@,
            env.contract_address@,
            v.config.base_denom@,
        ) + call_account_delta(
            info_r.sender@,
            info_r.funds@,
            res_r.messages@,
            env.contract_address@,
            env.contract_address@,
            v.config.base_denom@,
        ) == 0,
        call_account_delta(
            info_d.sender@,
            info_d.funds@,
            res_d.messages@,
            env.contract_address@,
            info_d.sender@,
            v.config.strategy_denom.unwrap()@,
        ) + call_account_delta(
            info_r.sender@,
            info_r.funds@,
            res_r.messages@,
            env.contract_address@,
            info_d.sender@,
            v.config.strategy_denom.unwrap()@,
        ) == 0,
        msgs_supply_delta(res_d.messages@, v.config.strategy_denom.unwrap()@) + msgs_supply_delta(
            res_r.messages@,
            v.config.strategy_denom.unwrap()@,
        ) == 0,
{
    let strat = v.config.strategy_denom.unwrap()@;
    let base = v.config.base_denom@;
    let vault_addr = env.contract_address@;
    let caller = info_d.sender@;
    let md = res_d.messages@[0];
    assert(res_d.messages@ =~= seq![md]);
    let m0 = res_r.messages@[0];
    let m1 = res_r.messages@[1];
    assert(res_r.messages@ =~= seq![m0, m1]);
    lemma_delta_singleton(md, vault_addr, caller, strat);
    lemma_delta_singleton(md, vault_addr, caller, base);
    lemma_delta_singleton(md, vault_addr, vault_addr, base);
    lemma_delta_pair(m0, m1, vault_addr, caller, strat);
    lemma_delta_pair(m0, m1, vault_addr, caller, base);
    lemma_delta_pair(m0, m1, vault_addr, vault_addr, base);
    lemma_funds_amount_singleton(info_d.funds@, strat);
    lemma_funds_amount_singleton(info_d.funds@, base);
    lemma_funds_amount_singleton(info_r.funds@, strat);
    lemma_funds_amount_singleton(info_r.funds@, base);
}

} // verus!
