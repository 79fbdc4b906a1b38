use margined_vault::contract::{instantiate, reply};
use margined_vault::errors::ContractError;
use margined_vault::msg::{Env, InstantiateMsg, MessageInfo, ProvisioningOutcome, Reply};
use margined_vault::reply::CREATE_STRATEGY_DENOM_REPLY_ID;
use margined_vault::structs::Vault;

fn deploy() -> (Vault, Env) {
    let env = Env { block_time: 1_600_000_000, contract_address: "contract0".to_string() };
    let info = MessageInfo { sender: "signer".to_string(), funds: Vec::new() };
    let (vault, _res) =
        instantiate(&env, &info, &InstantiateMsg { base_denom: "uosmo".to_string() });
    (vault, env)
}

fn completed(denom: &str) -> ProvisioningOutcome {
    ProvisioningOutcome::Completed { new_token_denom: denom.to_string() }
}

#[test]
fn completion_commits_strategy_denom() {
    let (mut vault, env) = deploy();

    let res = reply(
        &mut vault,
        &env,
        Reply { id: CREATE_STRATEGY_DENOM_REPLY_ID, outcome: completed("factory/contract0/sub") },
    )
    .unwrap();

    assert_eq!(vault.config.strategy_denom, Some("factory/contract0/sub".to_string()));
    assert_eq!(vault.pending_reply, None);
    assert_eq!(res.attributes.len(), 1);
    assert_eq!(res.attributes[0].key, "strategy_denom");
    assert_eq!(res.attributes[0].value, "factory/contract0/sub");
}

#[test]
fn completion_with_unknown_id_is_refused() {
    let (mut vault, env) = deploy();

    let res_err = reply(
        &mut vault,
        &env,
        Reply { id: 2, outcome: completed("factory/contract0/sub") },
    )
    .unwrap_err();

    assert_eq!(res_err, ContractError::InvalidReplyId);
    assert_eq!(vault.config.strategy_denom, None);
}

#[test]
fn second_completion_is_refused() {
    let (mut vault, env) = deploy();

    reply(
        &mut vault,
        &env,
        Reply { id: CREATE_STRATEGY_DENOM_REPLY_ID, outcome: completed("factory/contract0/sub") },
    )
    .unwrap();

    let res_err = reply(
        &mut vault,
        &env,
        Reply { id: CREATE_STRATEGY_DENOM_REPLY_ID, outcome: completed("factory/contract0/other") },
    )
    .unwrap_err();

    assert_eq!(res_err, ContractError::InvalidReplyId);
    // The first committed denom is not overwritten.
    assert_eq!(vault.config.strategy_denom, Some("factory/contract0/sub".to_string()));
}

#[test]
fn reported_failure_is_surfaced() {
    let (mut vault, env) = deploy();

    let res_err = reply(
        &mut vault,
        &env,
        Reply { id: CREATE_STRATEGY_DENOM_REPLY_ID, outcome: ProvisioningOutcome::Failed },
    )
    .unwrap_err();

    assert_eq!(res_err, ContractError::ProvisioningFailed);
    assert_eq!(vault.config.strategy_denom, None);
}
