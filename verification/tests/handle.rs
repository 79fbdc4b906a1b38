use margined_vault::contract::{execute, instantiate, reply};
use margined_vault::errors::ContractError;
use margined_vault::msg::{
    Coin, Env, ExecuteMsg, InstantiateMsg, MessageInfo, ProvisioningOutcome, Reply, Response,
    VaultMsg,
};
use margined_vault::reply::CREATE_STRATEGY_DENOM_REPLY_ID;
use margined_vault::structs::Vault;

const BLOCK_TIME: u64 = 1_600_000_000;
const AMOUNT: u128 = 20_000_000;

/// A miniature ledger that executes what the vault only instructs:
/// per-account balances and per-denom total supplies.
struct Bank {
    balances: Vec<(String, String, u128)>,
    supply: Vec<(String, u128)>,
}

impl Bank {
    fn new() -> Bank {
        Bank { balances: Vec::new(), supply: Vec::new() }
    }

    fn get_balance(&self, address: &str, denom: &str) -> u128 {
        self.balances
            .iter()
            .find(|(a, d, _)| a == address && d == denom)
            .map(|(_, _, amount)| *amount)
            .unwrap_or(0)
    }

    fn get_total_supply(&self, denom: &str) -> u128 {
        self.supply.iter().find(|(d, _)| d == denom).map(|(_, amount)| *amount).unwrap_or(0)
    }

    fn set_balance(&mut self, address: &str, denom: &str, amount: u128) {
        for entry in self.balances.iter_mut() {
            if entry.0 == address && entry.1 == denom {
                entry.2 = amount;
                return;
            }
        }
        self.balances.push((address.to_string(), denom.to_string(), amount));
    }

    fn set_supply(&mut self, denom: &str, amount: u128) {
        for entry in self.supply.iter_mut() {
            if entry.0 == denom {
                entry.1 = amount;
                return;
            }
        }
        self.supply.push((denom.to_string(), amount));
    }

    fn transfer(&mut self, from: &str, to: &str, denom: &str, amount: u128) {
        let from_balance = self.get_balance(from, denom);
        let to_balance = self.get_balance(to, denom);
        assert!(from_balance >= amount, "insufficient balance");
        self.set_balance(from, denom, from_balance - amount);
        self.set_balance(to, denom, to_balance + amount);
    }

    fn mint(&mut self, to: &str, denom: &str, amount: u128) {
        let balance = self.get_balance(to, denom);
        self.set_balance(to, denom, balance + amount);
        let supply = self.get_total_supply(denom);
        self.set_supply(denom, supply + amount);
    }

    fn burn(&mut self, from: &str, denom: &str, amount: u128) {
        let balance = self.get_balance(from, denom);
        assert!(balance >= amount, "insufficient balance to burn");
        self.set_balance(from, denom, balance - amount);
        let supply = self.get_total_supply(denom);
        self.set_supply(denom, supply - amount);
    }

    /// Execute a call's side effects: the attached payment moves from the
    /// caller to the vault, then each instruction runs in order.
    fn run(&mut self, vault_addr: &str, info: &MessageInfo, res: &Response) {
        for coin in info.funds.iter() {
            self.transfer(&info.sender, vault_addr, &coin.denom, coin.amount);
        }
        for m in res.messages.iter() {
            match m {
                VaultMsg::CreateDenom { .. } => {}
                VaultMsg::Mint { denom, amount, mint_to_address, .. } => {
                    self.mint(mint_to_address, denom, *amount)
                }
                VaultMsg::Burn { denom, amount, burn_from_address, .. } => {
                    self.burn(burn_from_address, denom, *amount)
                }
                VaultMsg::Send { to_address, denom, amount } => {
                    self.transfer(vault_addr, to_address, denom, *amount)
                }
            }
        }
    }
}

fn strategy_denom_for(env: &Env) -> String {
    format!("factory/{}/{}", env.contract_address, "margined_vault")
}

fn deploy_open(signer: &str) -> (Vault, Env) {
    let env = Env { block_time: BLOCK_TIME, contract_address: "contract0".to_string() };
    let info = MessageInfo { sender: signer.to_string(), funds: Vec::new() };
    let (mut vault, _res) =
        instantiate(&env, &info, &InstantiateMsg { base_denom: "uosmo".to_string() });
    reply(
        &mut vault,
        &env,
        Reply {
            id: CREATE_STRATEGY_DENOM_REPLY_ID,
            outcome: ProvisioningOutcome::Completed { new_token_denom: strategy_denom_for(&env) },
        },
    )
    .unwrap();
    execute(&mut vault, &env, &info, ExecuteMsg::SetOpen).unwrap();
    (vault, env)
}

fn paying(sender: &str, denom: &str, amount: u128) -> MessageInfo {
    MessageInfo {
        sender: sender.to_string(),
        funds: vec![Coin { denom: denom.to_string(), amount }],
    }
}

#[test]
fn deposit() {
    let (mut vault, env) = deploy_open("signer");
    let mut bank = Bank::new();
    bank.mint("signer", "uosmo", 1_000_000_000_000_000_000);

    let info = paying("signer", "uosmo", AMOUNT);
    let res = execute(&mut vault, &env, &info, ExecuteMsg::Deposit).unwrap();
    bank.run(&env.contract_address, &info, &res);

    let strategy_denom = strategy_denom_for(&env);
    let signer_strategy_denom_balance = bank.get_balance("signer", &strategy_denom);
    let contract_base_denom_balance = bank.get_balance(&env.contract_address, "uosmo");
    let strategy_denom_total_supply = bank.get_total_supply(&strategy_denom);

    assert_eq!(strategy_denom_total_supply, AMOUNT);
    assert_eq!(signer_strategy_denom_balance, AMOUNT);
    assert_eq!(contract_base_denom_balance, AMOUNT);
}

#[test]
fn redeem() {
    let (mut vault, env) = deploy_open("signer");
    let mut bank = Bank::new();
    let initial: u128 = 1_000_000_000_000_000_000;
    bank.mint("signer", "uosmo", initial);
    let strategy_denom = strategy_denom_for(&env);

    // Deposit 20_000_000
    let info = paying("signer", "uosmo", AMOUNT);
    let res = execute(&mut vault, &env, &info, ExecuteMsg::Deposit).unwrap();
    bank.run(&env.contract_address, &info, &res);

    assert_eq!(bank.get_total_supply(&strategy_denom), AMOUNT);
    assert_eq!(bank.get_balance("signer", &strategy_denom), AMOUNT);
    assert_eq!(bank.get_balance(&env.contract_address, "uosmo"), AMOUNT);

    // Redeem 20_000_000
    let info = paying("signer", &strategy_denom, AMOUNT);
    let res = execute(&mut vault, &env, &info, ExecuteMsg::Redeem).unwrap();
    bank.run(&env.contract_address, &info, &res);

    assert_eq!(bank.get_balance("signer", &strategy_denom), 0);
    assert_eq!(bank.get_balance(&env.contract_address, "uosmo"), 0);
    // The round trip also restores the caller's base balance and retires
    // the whole share supply.
    assert_eq!(bank.get_balance("signer", "uosmo"), initial);
    assert_eq!(bank.get_total_supply(&strategy_denom), 0);
}

#[test]
fn deposit_wrong_denom_fails() {
    let (mut vault, env) = deploy_open("signer");

    let info = paying("signer", "uatom", AMOUNT);
    let res_err = execute(&mut vault, &env, &info, ExecuteMsg::Deposit).unwrap_err();
    assert_eq!(res_err, ContractError::InvalidFunds);
}

#[test]
fn deposit_multiple_coins_fails() {
    let (mut vault, env) = deploy_open("signer");

    let info = MessageInfo {
        sender: "signer".to_string(),
        funds: vec![
            Coin { denom: "uosmo".to_string(), amount: AMOUNT },
            Coin { denom: "uatom".to_string(), amount: 1 },
        ],
    };
    let res_err = execute(&mut vault, &env, &info, ExecuteMsg::Deposit).unwrap_err();
    assert_eq!(res_err, ContractError::InvalidFunds);
}

#[test]
fn deposit_zero_amount_fails() {
    let (mut vault, env) = deploy_open("signer");

    let info = paying("signer", "uosmo", 0);
    let res_err = execute(&mut vault, &env, &info, ExecuteMsg::Deposit).unwrap_err();
    assert_eq!(res_err, ContractError::InvalidFunds);
}

#[test]
fn deposit_no_funds_fails() {
    let (mut vault, env) = deploy_open("signer");

    let info = MessageInfo { sender: "signer".to_string(), funds: Vec::new() };
    let res_err = execute(&mut vault, &env, &info, ExecuteMsg::Deposit).unwrap_err();
    assert_eq!(res_err, ContractError::InvalidFunds);
}

#[test]
fn deposit_before_provisioning_fails() {
    let env = Env { block_time: BLOCK_TIME, contract_address: "contract0".to_string() };
    let signer = MessageInfo { sender: "signer".to_string(), funds: Vec::new() };
    let (mut vault, _res) =
        instantiate(&env, &signer, &InstantiateMsg { base_denom: "uosmo".to_string() });
    execute(&mut vault, &env, &signer, ExecuteMsg::SetOpen).unwrap();

    let info = paying("signer", "uosmo", AMOUNT);
    let res_err = execute(&mut vault, &env, &info, ExecuteMsg::Deposit).unwrap_err();
    assert_eq!(res_err, ContractError::DenomNotInitialized);

    let res_err = execute(&mut vault, &env, &info, ExecuteMsg::Redeem).unwrap_err();
    assert_eq!(res_err, ContractError::DenomNotInitialized);
}

#[test]
fn deposit_before_open_fails() {
    let env = Env { block_time: BLOCK_TIME, contract_address: "contract0".to_string() };
    let signer = MessageInfo { sender: "signer".to_string(), funds: Vec::new() };
    let (mut vault, _res) =
        instantiate(&env, &signer, &InstantiateMsg { base_denom: "uosmo".to_string() });

    let info = paying("signer", "uosmo", AMOUNT);
    let res_err = execute(&mut vault, &env, &info, ExecuteMsg::Deposit).unwrap_err();
    assert_eq!(res_err, ContractError::NotOpen);

    let res_err = execute(&mut vault, &env, &info, ExecuteMsg::Redeem).unwrap_err();
    assert_eq!(res_err, ContractError::NotOpen);
}

#[test]
fn deposit_while_paused_fails() {
    let (mut vault, env) = deploy_open("signer");
    let signer = MessageInfo { sender: "signer".to_string(), funds: Vec::new() };
    execute(&mut vault, &env, &signer, ExecuteMsg::Pause).unwrap();

    let info = paying("signer", "uosmo", AMOUNT);
    let res_err = execute(&mut vault, &env, &info, ExecuteMsg::Deposit).unwrap_err();
    assert_eq!(res_err, ContractError::Paused);

    let strategy_denom = strategy_denom_for(&env);
    let info = paying("signer", &strategy_denom, AMOUNT);
    let res_err = execute(&mut vault, &env, &info, ExecuteMsg::Redeem).unwrap_err();
    assert_eq!(res_err, ContractError::Paused);
}

#[test]
fn redeem_wrong_denom_fails() {
    let (mut vault, env) = deploy_open("signer");

    let info = paying("signer", "uosmo", AMOUNT);
    let res_err = execute(&mut vault, &env, &info, ExecuteMsg::Redeem).unwrap_err();
    assert_eq!(res_err, ContractError::InvalidFunds);
}

#[test]
fn end_to_end_scenario() {
    // Instantiate, complete provisioning, open, deposit, then redeem.
    let env = Env { block_time: BLOCK_TIME, contract_address: "contract0".to_string() };
    let signer = MessageInfo { sender: "account_x".to_string(), funds: Vec::new() };
    let (mut vault, _res) =
        instantiate(&env, &signer, &InstantiateMsg { base_denom: "uosmo".to_string() });
    let strategy_denom = strategy_denom_for(&env);
    reply(
        &mut vault,
        &env,
        Reply {
            id: CREATE_STRATEGY_DENOM_REPLY_ID,
            outcome: ProvisioningOutcome::Completed {
                new_token_denom: strategy_denom.clone(),
            },
        },
    )
    .unwrap();
    execute(&mut vault, &env, &signer, ExecuteMsg::SetOpen).unwrap();

    let mut bank = Bank::new();
    bank.mint("account_x", "uosmo", 100_000_000);

    let info = paying("account_x", "uosmo", 20_000_000);
    let res = execute(&mut vault, &env, &info, ExecuteMsg::Deposit).unwrap();
    bank.run(&env.contract_address, &info, &res);

    assert_eq!(bank.get_balance("account_x", &strategy_denom), 20_000_000);
    assert_eq!(bank.get_balance(&env.contract_address, "uosmo"), 20_000_000);
    assert_eq!(bank.get_total_supply(&strategy_denom), 20_000_000);

    let info = paying("account_x", &strategy_denom, 20_000_000);
    let res = execute(&mut vault, &env, &info, ExecuteMsg::Redeem).unwrap();
    bank.run(&env.contract_address, &info, &res);

    assert_eq!(bank.get_balance("account_x", &strategy_denom), 0);
    assert_eq!(bank.get_balance(&env.contract_address, "uosmo"), 0);
}
