//! The vault's entry points: instantiation and the dispatchers that route
//! each inbound operation, query, and completion notification to its
//! handler. The routing is a match over the closed operation set; every
//! branch carries the handler's own transition contract.

use vstd::prelude::*;
use vstd::string::StringExecFns;
use crate::errors::ContractError;
use crate::handlers::{
    deposit_result, handle_deposit, handle_open_contract, handle_pause, handle_redeem,
    handle_unpause, handle_update_config, open_transition, pause_transition, redeem_result,
    unpause_transition, update_config_result,
};
use crate::helpers::{initialise_config, initialise_state, DEFAULT_STRATEGY_CAP};
use crate::msg::{
    create_denom_message, is_attr, Attribute, Env, ExecuteMsg, InstantiateMsg, MessageInfo,
    QueryMsg, QueryResponse, Reply, Response, VaultMsg, VaultStandardInfoResponse,
};
use crate::ownership::{
    claim_transition, handle_claim_ownership, handle_ownership_proposal,
    handle_ownership_proposal_rejection, propose_transition, query_owner,
    query_ownership_proposal, reject_transition, MAX_DURATION,
};
use crate::query::{query_config, query_state};
use crate::reply::{
    handle_create_strategy_denom_reply, reply_transition, CREATE_STRATEGY_DENOM_REPLY_ID,
};
use crate::structs::{State, StateResponse, Vault};

verus! {

/// The stored contract version, reported by configuration queries.
pub const CONTRACT_VERSION: &'static str = "0.1.0";

/// Static description of a vault under the vault standard.
pub trait Describe {
    /// The registered name, also used as the share-token subdenom.
    spec fn spec_contract_name() -> Seq<char>;

    /// The vault standard version implemented.
    spec fn spec_vault_standard_version() -> u16;

    /// The standard extensions supported.
    spec fn spec_vault_standard_extensions() -> Seq<Seq<char>>;

    fn contract_name() -> (r: String)
        ensures
            r@ == Self::spec_contract_name(),
    ;

    fn vault_standard_version() -> (r: u16)
        ensures
            r == Self::spec_vault_standard_version(),
    ;

    fn vault_standard_extensions() -> (r: Vec<String>)
        ensures
            r@.len() == Self::spec_vault_standard_extensions().len(),
            forall|i: int|
                0 <= i < r@.len() ==> r@[i]@ == Self::spec_vault_standard_extensions()[i],
    ;
}

/// This vault: a lockup vault with force-unlock support.
pub struct MyVault;

impl Describe for MyVault {
    open spec fn spec_contract_name() -> Seq<char> {
        "margined_vault"@
    }

    open spec fn spec_vault_standard_version() -> u16 {
        1u16
    }

    open spec fn spec_vault_standard_extensions() -> Seq<Seq<char>> {
        seq!["lockup"@, "force-unlock"@]
    }

    fn contract_name() -> (r: String) {
        String::from_str("margined_vault")
    }

    fn vault_standard_version() -> (r: u16) {
        1u16
    }

    fn vault_standard_extensions() -> (r: Vec<String>) {
        let mut extensions: Vec<String> = Vec::new();
        extensions.push(String::from_str("lockup"));
        extensions.push(String::from_str("force-unlock"));
        extensions
    }
}

/// What instantiation establishes: the caller becomes the owner, the
/// lifecycle starts closed and paused at the block time, the
/// configuration holds the instantiation's base denom with no strategy
/// denom yet, the one provisioning request is issued and its correlation
/// id registered, and the response carries that request and an action
/// attribute.
pub open spec fn instantiate_transition(
    env: Env,
    info: MessageInfo,
    msg: InstantiateMsg,
    v: Vault,
    res: Response,
) -> bool {
    &&& v.owner@ == info.sender@
    &&& v.proposal is None
    &&& v.state == (State { is_open: false, is_paused: true, last_pause: env.block_time })
    &&& v.config.strategy_cap == DEFAULT_STRATEGY_CAP
    &&& v.config.strategy_denom is None
    &&& v.config.base_denom@ == msg.base_denom@
    &&& v.pending_reply == Some(CREATE_STRATEGY_DENOM_REPLY_ID)
    &&& v.version@ == CONTRACT_VERSION@
    &&& res.messages@.len() == 1
    &&& res.messages@[0] matches VaultMsg::CreateDenom { sender, subdenom } && sender@
        == env.contract_address@ && subdenom@ == MyVault::spec_contract_name()
    &&& res.attributes@.len() == 1
    &&& is_attr(res.attributes@[0], "action"@, "instantiate"@)
    &&& res.events@.len() == 0
}

/// Create the vault's initial store and issue the provisioning request.
pub fn instantiate(env: &Env, info: &MessageInfo, msg: &InstantiateMsg) -> (r: (Vault, Response))
    ensures
        instantiate_transition(*env, *info, *msg, r.0, r.1),
        r.0.wf(),
{
    let state = initialise_state(env);
    let config = initialise_config(msg);
    let create_msg = create_denom_message(&env.contract_address, MyVault::contract_name());
    let vault = Vault {
        owner: info.sender.clone(),
        proposal: None,
        state,
        config,
        pending_reply: Some(CREATE_STRATEGY_DENOM_REPLY_ID),
        version: String::from_str(CONTRACT_VERSION),
    };
    let mut messages: Vec<VaultMsg> = Vec::new();
    messages.push(create_msg);
    let mut attributes: Vec<Attribute> = Vec::new();
    attributes.push(
        Attribute { key: String::from_str("action"), value: String::from_str("instantiate") },
    );
    (vault, Response { messages, attributes, events: Vec::new() })
}

/// Route an operation to its handler. Each branch's behaviour is the
/// handler's transition predicate.
pub fn execute(vault: &mut Vault, env: &Env, info: &MessageInfo, msg: ExecuteMsg) -> (r: Result<
    Response,
    ContractError,
>)
    requires
        msg matches ExecuteMsg::ProposeNewOwner { new_owner, duration } ==> (duration
            <= MAX_DURATION ==> old(vault).owner@ == info.sender@ ==> env.block_time + duration
            <= u64::MAX),
    ensures
        match msg {
            ExecuteMsg::Deposit => *final(vault) == *old(vault) && deposit_result(
                *old(vault),
                *env,
                *info,
                r,
            ),
            ExecuteMsg::Redeem => *final(vault) == *old(vault) && redeem_result(
                *old(vault),
                *env,
                *info,
                r,
            ),
            ExecuteMsg::SetOpen => open_transition(*old(vault), *info, r, *final(vault)),
            ExecuteMsg::Pause => pause_transition(*old(vault), *env, *info, r, *final(vault)),
            ExecuteMsg::UnPause => unpause_transition(*old(vault), *info, r, *final(vault)),
            ExecuteMsg::UpdateConfig => *final(vault) == *old(vault) && update_config_result(
                *old(vault),
                *info,
                r,
            ),
            ExecuteMsg::ProposeNewOwner { new_owner, duration } => propose_transition(
                *old(vault),
                *env,
                *info,
                new_owner@,
                duration,
                r,
                *final(vault),
            ),
            ExecuteMsg::ClaimOwnership => claim_transition(
                *old(vault),
                *env,
                *info,
                r,
                *final(vault),
            ),
            ExecuteMsg::RejectOwner => reject_transition(*old(vault), *info, r, *final(vault)),
        },
{
    match msg {
        ExecuteMsg::Deposit => handle_deposit(vault, env, info),
        ExecuteMsg::Redeem => handle_redeem(vault, env, info),
        ExecuteMsg::SetOpen => handle_open_contract(vault, env, info),
        ExecuteMsg::Pause => handle_pause(vault, env, info),
        ExecuteMsg::UnPause => handle_unpause(vault, info),
        ExecuteMsg::UpdateConfig => handle_update_config(vault, info),
        ExecuteMsg::ProposeNewOwner { new_owner, duration } => handle_ownership_proposal(
            vault,
            info,
            env,
            new_owner,
            duration,
        ),
        ExecuteMsg::ClaimOwnership => handle_claim_ownership(vault, info, env),
        ExecuteMsg::RejectOwner => handle_ownership_proposal_rejection(vault, info),
    }
}

/// Route a query to its reader. Queries never mutate the store.
pub fn query(vault: &Vault, msg: QueryMsg) -> (r: Result<QueryResponse, ContractError>)
    ensures
        match msg {
            QueryMsg::VaultStandardInfo => r matches Ok(QueryResponse::StandardInfo(i))
                && i.version == 1 && i.extensions@.len() == 2 && i.extensions@[0]@ == "lockup"@
                && i.extensions@[1]@ == "force-unlock"@,
            QueryMsg::Config => r matches Ok(QueryResponse::Config(c)) && c.strategy_cap
                == vault.config.strategy_cap && c.base_denom == vault.config.base_denom
                && c.version == vault.version && (match vault.config.strategy_denom {
                Some(d) => c.strategy_denom == d,
                None => c.strategy_denom@ == Seq::<char>::empty(),
            }),
            QueryMsg::State => r matches Ok(QueryResponse::State(s)) && s == (StateResponse {
                is_open: vault.state.is_open,
                is_paused: vault.state.is_paused,
                last_pause: vault.state.last_pause,
            }),
            QueryMsg::Owner => r matches Ok(QueryResponse::Owner(o)) && o == vault.owner,
            QueryMsg::OwnershipProposal => match vault.proposal {
                Some(p) => r matches Ok(QueryResponse::OwnershipProposal(q)) && q.owner == p.owner
                    && q.expiry == p.expiry,
                None => r matches Err(e) && e == ContractError::ProposalNotFound,
            },
        },
{
    match msg {
        QueryMsg::VaultStandardInfo => Ok(
            QueryResponse::StandardInfo(
                VaultStandardInfoResponse {
                    version: MyVault::vault_standard_version(),
                    extensions: MyVault::vault_standard_extensions(),
                },
            ),
        ),
        QueryMsg::Config => Ok(QueryResponse::Config(query_config(vault))),
        QueryMsg::State => Ok(QueryResponse::State(query_state(vault))),
        QueryMsg::Owner => Ok(QueryResponse::Owner(query_owner(vault))),
        QueryMsg::OwnershipProposal => match query_ownership_proposal(vault) {
            Ok(p) => Ok(QueryResponse::OwnershipProposal(p)),
            Err(e) => Err(e),
        },
    }
}

/// Route a completion notification: only the registered strategy-denom
/// creation id is known; anything else is `InvalidReplyId`.
pub fn reply(vault: &mut Vault, env: &Env, msg: Reply) -> (r: Result<Response, ContractError>)
    ensures
        if msg.id != CREATE_STRATEGY_DENOM_REPLY_ID {
            r matches Err(e) && e == ContractError::InvalidReplyId && *final(vault) == *old(vault)
        } else {
            reply_transition(*old(vault), msg, r, *final(vault))
        },
        old(vault).wf() ==> final(vault).wf(),
{
    if msg.id == CREATE_STRATEGY_DENOM_REPLY_ID {
        handle_create_strategy_denom_reply(vault, env, msg)
    } else {
        Err(ContractError::InvalidReplyId)
    }
}

} // verus!
