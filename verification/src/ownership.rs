//! The owner-transfer protocol: a two-phase handover in which the current
//! owner proposes a candidate with a time bound and the candidate must
//! actively claim. A single mutable slot holds at most one proposal; a new
//! proposal silently discards a prior unclaimed one. Expiry is checked
//! lazily at claim time; an expired, unclaimed proposal remains stored
//! until it is overwritten or rejected.

use vstd::prelude::*;
use vstd::string::StringExecFns;
use crate::errors::ContractError;
use crate::msg::{is_attr, is_event_only_response, Attribute, Env, Event, MessageInfo, Response};
use crate::structs::{OwnerProposal, Vault};
use crate::text::{dec_string, u64_to_string};

verus! {

/// The longest allowed proposal duration, in seconds.
pub const MAX_DURATION: u64 = 604800u64;

/// The caller is the vault's owner: the predicate behind every
/// administrative gate.
pub open spec fn authorized(v: Vault, sender: Seq<char>) -> bool {
    sender == v.owner@
}

/// The administrative gate itself: `Unauthorized` for any caller other
/// than the owner.
pub fn authorize(vault: &Vault, sender: &String) -> (r: Result<(), ContractError>)
    ensures
        r is Ok <==> authorized(*vault, sender@),
        r is Err ==> (r matches Err(e) && e == ContractError::Unauthorized),
{
    if *sender == vault.owner {
        Ok(())
    } else {
        Err(ContractError::Unauthorized)
    }
}

/// The response a successful proposal returns: one event announcing the
/// candidate and the expiry.
pub open spec fn is_proposal_event_response(r: Response, candidate: Seq<char>, expiry: u64) -> bool {
    &&& r.messages@.len() == 0
    &&& r.attributes@.len() == 0
    &&& r.events@.len() == 1
    &&& r.events@[0].ty@ == "propose_proposed_owner"@
    &&& r.events@[0].attributes@.len() == 2
    &&& is_attr(r.events@[0].attributes@[0], "proposed_owner"@, candidate)
    &&& is_attr(r.events@[0].attributes@[1], "expiry"@, dec_string(expiry as nat))
}

/// The response a successful claim returns: one event announcing the new
/// owner.
pub open spec fn is_claim_event_response(r: Response, new_owner: Seq<char>) -> bool {
    &&& r.messages@.len() == 0
    &&& r.attributes@.len() == 0
    &&& r.events@.len() == 1
    &&& r.events@[0].ty@ == "update_owner"@
    &&& r.events@[0].attributes@.len() == 1
    &&& is_attr(r.events@[0].attributes@[0], "new_owner"@, new_owner)
}

/// What proposing `new_owner` for `duration` seconds does to the store:
/// refused with `Unauthorized` unless the caller is the owner, refused
/// with `InvalidDuration` beyond [`MAX_DURATION`], and otherwise the one
/// proposal slot is overwritten — destructively — with the candidate and
/// `now + duration`.
pub open spec fn propose_transition(
    v: Vault,
    env: Env,
    info: MessageInfo,
    new_owner: Seq<char>,
    duration: u64,
    r: Result<Response, ContractError>,
    v2: Vault,
) -> bool {
    if !authorized(v, info.sender@) {
        r matches Err(e) && e == ContractError::Unauthorized && v2 == v
    } else if duration > MAX_DURATION {
        r matches Err(e) && e == ContractError::InvalidDuration(MAX_DURATION) && v2 == v
    } else {
        &&& v2 == (Vault { proposal: v2.proposal, ..v })
        &&& v2.proposal matches Some(p) && p.owner@ == new_owner && p.expiry == env.block_time
            + duration
        &&& r matches Ok(res) && is_proposal_event_response(
            res,
            new_owner,
            (env.block_time + duration) as u64,
        )
    }
}

/// What claiming does to the store: with no proposal it fails
/// `ProposalNotFound`; past the expiry it fails `Expired` regardless of
/// the caller; for any caller other than the candidate it fails
/// `Unauthorized`; otherwise the candidate becomes the owner and the
/// proposal is consumed.
pub open spec fn claim_transition(
    v: Vault,
    env: Env,
    info: MessageInfo,
    r: Result<Response, ContractError>,
    v2: Vault,
) -> bool {
    match v.proposal {
        None => r matches Err(e) && e == ContractError::ProposalNotFound && v2 == v,
        Some(p) => {
            if env.block_time > p.expiry {
                r matches Err(e) && e == ContractError::Expired && v2 == v
            } else if info.sender@ != p.owner@ {
                r matches Err(e) && e == ContractError::Unauthorized && v2 == v
            } else {
                &&& v2 == (Vault { owner: p.owner, proposal: None, ..v })
                &&& r matches Ok(res) && is_claim_event_response(res, p.owner@)
            }
        },
    }
}

/// What rejecting does to the store: owner-gated; deletes the proposal
/// unconditionally (a no-op on the slot when none exists — this library's
/// documented policy for the choice the protocol leaves open).
pub open spec fn reject_transition(
    v: Vault,
    info: MessageInfo,
    r: Result<Response, ContractError>,
    v2: Vault,
) -> bool {
    if !authorized(v, info.sender@) {
        r matches Err(e) && e == ContractError::Unauthorized && v2 == v
    } else {
        &&& v2 == (Vault { proposal: None, ..v })
        &&& r matches Ok(res) && is_event_only_response(res, "reject_ownership"@)
    }
}

/// Offer ownership to `new_owner`, valid for `duration` seconds from now.
pub fn handle_ownership_proposal(
    vault: &mut Vault,
    info: &MessageInfo,
    env: &Env,
    new_owner: String,
    duration: u64,
) -> (r: Result<Response, ContractError>)
    requires
        duration <= MAX_DURATION ==> old(vault).owner@ == info.sender@ ==> env.block_time
            + duration <= u64::MAX,
    ensures
        propose_transition(*old(vault), *env, *info, new_owner@, duration, r, *final(vault)),
{
    match authorize(vault, &info.sender) {
        Err(e) => {
            return Err(e);
        },
        Ok(()) => {},
    }
    if MAX_DURATION < duration {
        return Err(ContractError::InvalidDuration(MAX_DURATION));
    }
    let expiry = env.block_time + duration;
    let mut attributes: Vec<Attribute> = Vec::new();
    attributes.push(
        Attribute { key: String::from_str("proposed_owner"), value: new_owner.clone() },
    );
    attributes.push(Attribute { key: String::from_str("expiry"), value: u64_to_string(expiry) });
    let mut events: Vec<Event> = Vec::new();
    events.push(Event { ty: String::from_str("propose_proposed_owner"), attributes });
    vault.proposal = Some(OwnerProposal { owner: new_owner, expiry });
    Ok(Response { messages: Vec::new(), attributes: Vec::new(), events })
}

/// Accept the pending proposal: the caller becomes the owner.
pub fn handle_claim_ownership(vault: &mut Vault, info: &MessageInfo, env: &Env) -> (r: Result<
    Response,
    ContractError,
>)
    ensures
        claim_transition(*old(vault), *env, *info, r, *final(vault)),
{
    let (candidate, expiry): (String, u64) = match &vault.proposal {
        None => {
            return Err(ContractError::ProposalNotFound);
        },
        Some(p) => (p.owner.clone(), p.expiry),
    };
    if env.block_time > expiry {
        return Err(ContractError::Expired);
    }
    if !(info.sender == candidate) {
        return Err(ContractError::Unauthorized);
    }
    vault.proposal = None;
    vault.owner = candidate.clone();
    let mut attributes: Vec<Attribute> = Vec::new();
    attributes.push(Attribute { key: String::from_str("new_owner"), value: candidate });
    let mut events: Vec<Event> = Vec::new();
    events.push(Event { ty: String::from_str("update_owner"), attributes });
    Ok(Response { messages: Vec::new(), attributes: Vec::new(), events })
}

/// Drop any pending proposal.
pub fn handle_ownership_proposal_rejection(vault: &mut Vault, info: &MessageInfo) -> (r: Result<
    Response,
    ContractError,
>)
    ensures
        reject_transition(*old(vault), *info, r, *final(vault)),
{
    match authorize(vault, &info.sender) {
        Err(e) => {
            return Err(e);
        },
        Ok(()) => {},
    }
    vault.proposal = None;
    let mut events: Vec<Event> = Vec::new();
    events.push(Event { ty: String::from_str("reject_ownership"), attributes: Vec::new() });
    Ok(Response { messages: Vec::new(), attributes: Vec::new(), events })
}

/// The current owner.
pub fn query_owner(vault: &Vault) -> (r: String)
    ensures
        r == vault.owner,
{
    vault.owner.clone()
}

/// The pending proposal, or `ProposalNotFound` when the slot is empty.
pub fn query_ownership_proposal(vault: &Vault) -> (r: Result<OwnerProposal, ContractError>)
    ensures
        match vault.proposal {
            Some(p) => r matches Ok(q) && q.owner == p.owner && q.expiry == p.expiry,
            None => r matches Err(e) && e == ContractError::ProposalNotFound,
        },
{
    match &vault.proposal {
        Some(p) => Ok(OwnerProposal { owner: p.owner.clone(), expiry: p.expiry }),
        None => Err(ContractError::ProposalNotFound),
    }
}

} // verus!
