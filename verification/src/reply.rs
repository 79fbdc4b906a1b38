//! The provisioning coordinator's completion half. Instantiation issues
//! one external resource-creation request and registers its correlation
//! id; the host later delivers exactly one completion notification, which
//! this handler commits. A notification whose id does not match the
//! registered one — in particular any notification after the registration
//! was cleared by a successful commit — is refused with `InvalidReplyId`
//! rather than overwriting state. A reported failure is surfaced as
//! `ProvisioningFailed` and, like every error, leaves the store unchanged;
//! the vault then remains permanently unable to mint or burn shares.

use vstd::prelude::*;
use vstd::string::StringExecFns;
use crate::errors::ContractError;
use crate::msg::{is_attr, Attribute, Env, ProvisioningOutcome, Reply, Response};
use crate::structs::{Config, Vault};

verus! {

/// The correlation id registered for the one strategy-denom creation
/// request.
pub const CREATE_STRATEGY_DENOM_REPLY_ID: u64 = 1u64;

/// The response a successful commit returns: the new denom as a response
/// attribute, nothing else.
pub open spec fn is_denom_commit_response(res: Response, denom: Seq<char>) -> bool {
    &&& res.messages@.len() == 0
    &&& res.events@.len() == 0
    &&& res.attributes@.len() == 1
    &&& is_attr(res.attributes@[0], "strategy_denom"@, denom)
}

/// What a completion notification does to the store: refused with
/// `InvalidReplyId` unless its id is the registered one; a reported
/// failure is `ProvisioningFailed` with the store unchanged; a reported
/// success commits the created denom into the configuration and clears
/// the registration, so no further completion is expected.
pub open spec fn reply_transition(
    v: Vault,
    reply: Reply,
    r: Result<Response, ContractError>,
    v2: Vault,
) -> bool {
    if v.pending_reply != Some(reply.id) {
        r matches Err(e) && e == ContractError::InvalidReplyId && v2 == v
    } else {
        match reply.outcome {
            ProvisioningOutcome::Failed => r matches Err(e) && e
                == ContractError::ProvisioningFailed && v2 == v,
            ProvisioningOutcome::Completed { new_token_denom } => {
                &&& v2 == (Vault {
                    config: Config { strategy_denom: v2.config.strategy_denom, ..v.config },
                    pending_reply: None,
                    ..v
                })
                &&& v2.config.strategy_denom matches Some(d) && d@ == new_token_denom@
                &&& r matches Ok(res) && is_denom_commit_response(res, new_token_denom@)
            },
        }
    }
}

/// Commit the result of the strategy-denom creation request.
pub fn handle_create_strategy_denom_reply(vault: &mut Vault, _env: &Env, reply: Reply) -> (r:
    Result<Response, ContractError>)
    ensures
        reply_transition(*old(vault), reply, r, *final(vault)),
        old(vault).wf() ==> final(vault).wf(),
{
    let expected = match vault.pending_reply {
        Some(pid) => pid == reply.id,
        None => false,
    };
    if !expected {
        return Err(ContractError::InvalidReplyId);
    }
    match reply.outcome {
        ProvisioningOutcome::Failed => Err(ContractError::ProvisioningFailed),
        ProvisioningOutcome::Completed { new_token_denom } => {
            vault.pending_reply = None;
            vault.config.update_strategy_denom(new_token_denom.clone());
            let mut attributes: Vec<Attribute> = Vec::new();
            attributes.push(
                Attribute {
                    key: String::from_str("strategy_denom"),
                    value: new_token_denom,
                },
            );
            Ok(Response { messages: Vec::new(), attributes, events: Vec::new() })
        },
    }
}

} // verus!
