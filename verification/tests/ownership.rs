use margined_vault::contract::{execute, instantiate, query};
use margined_vault::errors::ContractError;
use margined_vault::msg::{
    Env, ExecuteMsg, InstantiateMsg, MessageInfo, QueryMsg, QueryResponse, Response,
};
use margined_vault::ownership::MAX_DURATION;
use margined_vault::structs::{OwnerProposal, Vault};

const BLOCK_TIME: u64 = 1_600_000_000;
const PROPOSAL_DURATION: u64 = 1000;

fn deploy() -> (Vault, Env) {
    let env = Env { block_time: BLOCK_TIME, contract_address: "contract0".to_string() };
    let info = MessageInfo { sender: "signer".to_string(), funds: Vec::new() };
    let (vault, _res) = instantiate(&env, &info, &InstantiateMsg { base_denom: "uosmo".to_string() });
    (vault, env)
}

fn info_for(sender: &str) -> MessageInfo {
    MessageInfo { sender: sender.to_string(), funds: Vec::new() }
}

fn propose(vault: &mut Vault, env: &Env, new_owner: &str, duration: u64, sender: &str) -> Result<Response, ContractError> {
    execute(
        vault,
        env,
        &info_for(sender),
        ExecuteMsg::ProposeNewOwner { new_owner: new_owner.to_string(), duration },
    )
}

fn query_owner(vault: &Vault) -> String {
    match query(vault, QueryMsg::Owner).unwrap() {
        QueryResponse::Owner(o) => o,
        _ => panic!("unexpected query response"),
    }
}

fn query_proposal(vault: &Vault) -> Result<OwnerProposal, ContractError> {
    match query(vault, QueryMsg::OwnershipProposal) {
        Ok(QueryResponse::OwnershipProposal(p)) => Ok(p),
        Ok(_) => panic!("unexpected query response"),
        Err(e) => Err(e),
    }
}

fn contains_event_with_attributes(
    res: &Response,
    event_type: &str,
    attributes: Vec<(&str, &str)>,
) -> bool {
    res.events.iter().any(|event| {
        event.ty == event_type
            && attributes.iter().all(|(key, value)| {
                event.attributes.iter().any(|attr| attr.key == *key && attr.value == *value)
            })
    })
}

#[test]
fn ownership_claim_ownership_no_proposal() {
    let (mut vault, env) = deploy();

    let res_err =
        execute(&mut vault, &env, &info_for("signer"), ExecuteMsg::ClaimOwnership).unwrap_err();

    assert_eq!(res_err, ContractError::ProposalNotFound);
}

#[test]
fn ownership_propose_new_owner_claim_unauthorised() {
    let (mut vault, env) = deploy();

    propose(&mut vault, &env, "trader0", PROPOSAL_DURATION, "signer").unwrap();

    let res_err =
        execute(&mut vault, &env, &info_for("trader1"), ExecuteMsg::ClaimOwnership).unwrap_err();

    assert_eq!(res_err, ContractError::Unauthorized);
}

#[test]
fn propose_new_owner_expiry_too_long() {
    let (mut vault, env) = deploy();

    let res_err =
        propose(&mut vault, &env, "trader0", MAX_DURATION + 1, "signer").unwrap_err();

    assert_eq!(res_err, ContractError::InvalidDuration(MAX_DURATION));
}

#[test]
fn query_ownership_proposal() {
    let (mut vault, env) = deploy();
    propose(&mut vault, &env, "trader0", PROPOSAL_DURATION, "signer").unwrap();

    let ownership_proposal = query_proposal(&vault).unwrap();

    assert_eq!(ownership_proposal.owner, "trader0".to_string());
    assert_eq!(ownership_proposal.expiry, BLOCK_TIME + PROPOSAL_DURATION);
}

#[test]
fn propose_new_owner_claim_success() {
    let (mut vault, env) = deploy();
    let owner = query_owner(&vault);

    assert_eq!(owner, "signer".to_string());

    let propose_new_owner_res =
        propose(&mut vault, &env, "trader0", PROPOSAL_DURATION, "signer").unwrap();

    let expiry = BLOCK_TIME + PROPOSAL_DURATION;
    let expiry_string = expiry.to_string();

    assert!(contains_event_with_attributes(
        &propose_new_owner_res,
        "propose_proposed_owner",
        vec![("proposed_owner", "trader0"), ("expiry", &expiry_string)]
    ));

    let claim_ownership_res =
        execute(&mut vault, &env, &info_for("trader0"), ExecuteMsg::ClaimOwnership).unwrap();

    assert!(contains_event_with_attributes(
        &claim_ownership_res,
        "update_owner",
        vec![("new_owner", "trader0")]
    ));

    let new_owner = query_owner(&vault);

    assert_eq!(new_owner, "trader0".to_string());
}

#[test]
fn propose_new_owner_expired_proposal() {
    let (mut vault, env) = deploy();
    let owner = query_owner(&vault);

    assert_eq!(owner, "signer".to_string());

    propose(&mut vault, &env, "trader0", PROPOSAL_DURATION, "signer").unwrap();

    let later = Env {
        block_time: BLOCK_TIME + PROPOSAL_DURATION + 1,
        contract_address: env.contract_address.clone(),
    };
    let res_err =
        execute(&mut vault, &later, &info_for("trader0"), ExecuteMsg::ClaimOwnership).unwrap_err();

    assert_eq!(res_err, ContractError::Expired);
}

#[test]
fn reject_ownership_proposal() {
    let (mut vault, env) = deploy();
    propose(&mut vault, &env, "trader0", PROPOSAL_DURATION, "signer").unwrap();
    let ownership_proposal = query_proposal(&vault).unwrap();
    assert_eq!(ownership_proposal.owner, "trader0".to_string());

    execute(&mut vault, &env, &info_for("signer"), ExecuteMsg::RejectOwner).unwrap();

    let res_err = query_proposal(&vault).unwrap_err();

    assert_eq!(res_err, ContractError::ProposalNotFound);
}

#[test]
fn propose_max_duration_is_accepted() {
    let (mut vault, env) = deploy();

    propose(&mut vault, &env, "trader0", MAX_DURATION, "signer").unwrap();
    let ownership_proposal = query_proposal(&vault).unwrap();
    assert_eq!(ownership_proposal.expiry, BLOCK_TIME + MAX_DURATION);
}

#[test]
fn propose_overlong_duration_keeps_prior_proposal() {
    let (mut vault, env) = deploy();
    propose(&mut vault, &env, "trader0", PROPOSAL_DURATION, "signer").unwrap();

    let res_err = propose(&mut vault, &env, "trader1", MAX_DURATION + 1, "signer").unwrap_err();
    assert_eq!(res_err, ContractError::InvalidDuration(MAX_DURATION));

    let ownership_proposal = query_proposal(&vault).unwrap();
    assert_eq!(ownership_proposal.owner, "trader0".to_string());
    assert_eq!(ownership_proposal.expiry, BLOCK_TIME + PROPOSAL_DURATION);
    assert_eq!(query_owner(&vault), "signer".to_string());
}

#[test]
fn propose_replaces_pending_proposal() {
    let (mut vault, env) = deploy();
    propose(&mut vault, &env, "trader0", PROPOSAL_DURATION, "signer").unwrap();
    propose(&mut vault, &env, "trader1", PROPOSAL_DURATION, "signer").unwrap();

    let ownership_proposal = query_proposal(&vault).unwrap();
    assert_eq!(ownership_proposal.owner, "trader1".to_string());

    let res_err =
        execute(&mut vault, &env, &info_for("trader0"), ExecuteMsg::ClaimOwnership).unwrap_err();
    assert_eq!(res_err, ContractError::Unauthorized);

    execute(&mut vault, &env, &info_for("trader1"), ExecuteMsg::ClaimOwnership).unwrap();
    assert_eq!(query_owner(&vault), "trader1".to_string());
}

#[test]
fn claim_at_exact_expiry_succeeds() {
    let (mut vault, env) = deploy();
    propose(&mut vault, &env, "trader0", PROPOSAL_DURATION, "signer").unwrap();

    let at_expiry = Env {
        block_time: BLOCK_TIME + PROPOSAL_DURATION,
        contract_address: env.contract_address.clone(),
    };
    execute(&mut vault, &at_expiry, &info_for("trader0"), ExecuteMsg::ClaimOwnership).unwrap();
    assert_eq!(query_owner(&vault), "trader0".to_string());
    assert_eq!(query_proposal(&vault).unwrap_err(), ContractError::ProposalNotFound);
}

#[test]
fn expired_claim_fails_for_any_caller() {
    let (mut vault, env) = deploy();
    propose(&mut vault, &env, "trader0", PROPOSAL_DURATION, "signer").unwrap();

    let later = Env {
        block_time: BLOCK_TIME + PROPOSAL_DURATION + 1,
        contract_address: env.contract_address.clone(),
    };
    let res_err =
        execute(&mut vault, &later, &info_for("trader1"), ExecuteMsg::ClaimOwnership).unwrap_err();
    assert_eq!(res_err, ContractError::Expired);
}

#[test]
fn reject_without_proposal_is_a_no_op() {
    let (mut vault, env) = deploy();

    execute(&mut vault, &env, &info_for("signer"), ExecuteMsg::RejectOwner).unwrap();
    assert_eq!(query_proposal(&vault).unwrap_err(), ContractError::ProposalNotFound);
    assert_eq!(query_owner(&vault), "signer".to_string());
}

#[test]
fn reject_is_owner_gated() {
    let (mut vault, env) = deploy();
    propose(&mut vault, &env, "trader0", PROPOSAL_DURATION, "signer").unwrap();

    let res_err =
        execute(&mut vault, &env, &info_for("trader0"), ExecuteMsg::RejectOwner).unwrap_err();
    assert_eq!(res_err, ContractError::Unauthorized);
    assert_eq!(query_proposal(&vault).unwrap().owner, "trader0".to_string());
}
