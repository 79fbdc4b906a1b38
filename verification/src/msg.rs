//! The values that cross the vault's boundary: the caller's identity and
//! payment, the environment, the closed set of operations, the completion
//! notification, and the instructions and events a successful operation
//! hands back to the host for execution.

use vstd::prelude::*;

verus! {

/// An asset-amount pair, as attached to a call or carried by an
/// instruction.
#[derive(Debug)]
pub struct Coin {
    pub denom: String,
    pub amount: u128,
}

/// What the host knows about the block the call executes in.
#[derive(Debug)]
pub struct Env {
    /// The block time, in seconds since the epoch.
    pub block_time: u64,
    /// The vault's own address.
    pub contract_address: String,
}

/// The authenticated caller identity and the payment attached to the call.
#[derive(Debug)]
pub struct MessageInfo {
    pub sender: String,
    pub funds: Vec<Coin>,
}

/// The instantiation parameters.
#[derive(Debug)]
pub struct InstantiateMsg {
    /// The asset identifier the vault accepts as deposits.
    pub base_denom: String,
}

/// The closed set of operations the vault executes.
#[derive(Debug)]
pub enum ExecuteMsg {
    /// Mint shares for the payment attached to the call.
    Deposit,
    /// Burn the shares attached to the call and pay out base assets.
    Redeem,
    /// Open the vault for deposit/redeem traffic.
    SetOpen,
    /// Halt deposit/redeem traffic.
    Pause,
    /// Resume deposit/redeem traffic.
    UnPause,
    /// Re-persist the configuration (owner-gated; no field changes here).
    UpdateConfig,
    /// Offer ownership to `new_owner` for `duration` seconds.
    ProposeNewOwner { new_owner: String, duration: u64 },
    /// Accept a pending ownership proposal (caller must be the candidate).
    ClaimOwnership,
    /// Drop any pending ownership proposal (owner-gated).
    RejectOwner,
}

/// The closed set of read-only queries.
#[derive(Debug)]
pub enum QueryMsg {
    VaultStandardInfo,
    Config,
    State,
    Owner,
    OwnershipProposal,
}

/// What the vault standard's info query reports.
#[derive(Debug)]
pub struct VaultStandardInfoResponse {
    pub version: u16,
    pub extensions: Vec<String>,
}

/// What a query returns, one variant per query.
#[derive(Debug)]
pub enum QueryResponse {
    StandardInfo(VaultStandardInfoResponse),
    Config(crate::structs::ConfigResponse),
    State(crate::structs::StateResponse),
    Owner(String),
    OwnershipProposal(crate::structs::OwnerProposal),
}

/// How the external resource-creation facility resolved the provisioning
/// request. The always-notify semantics mean both outcomes arrive as a
/// notification and must be handled.
#[derive(Debug)]
pub enum ProvisioningOutcome {
    /// The facility created the share-token identifier.
    Completed { new_token_denom: String },
    /// The facility reported failure.
    Failed,
}

/// The completion notification the host delivers for an outstanding
/// request, tagged with its correlation id.
#[derive(Debug)]
pub struct Reply {
    pub id: u64,
    pub outcome: ProvisioningOutcome,
}

/// An instruction a successful operation hands to the surrounding ledger
/// for execution. The vault itself moves no value; it only emits these.
#[derive(Debug)]
pub enum VaultMsg {
    /// Request creation of a new token identifier `factory/<sender>/<subdenom>`.
    CreateDenom { sender: String, subdenom: String },
    /// Mint `amount` units of `denom` to `mint_to_address`.
    Mint { sender: String, denom: String, amount: u128, mint_to_address: String },
    /// Burn `amount` units of `denom` from `burn_from_address`.
    Burn { sender: String, denom: String, amount: u128, burn_from_address: String },
    /// Transfer `amount` units of `denom` from the vault to `to_address`.
    Send { to_address: String, denom: String, amount: u128 },
}

/// A key-value pair attached to an event or a response.
#[derive(Debug)]
pub struct Attribute {
    pub key: String,
    pub value: String,
}

/// A typed event with attributes, for the host's log.
#[derive(Debug)]
pub struct Event {
    pub ty: String,
    pub attributes: Vec<Attribute>,
}

/// What a successful operation returns: instructions for the ledger,
/// response attributes, and events.
#[derive(Debug)]
pub struct Response {
    pub messages: Vec<VaultMsg>,
    pub attributes: Vec<Attribute>,
    pub events: Vec<Event>,
}

/// An attribute `key` / `value` holds the given texts.
pub open spec fn is_attr(a: Attribute, key: Seq<char>, value: Seq<char>) -> bool {
    a.key@ == key && a.value@ == value
}

/// A response that carries exactly one event of type `ty` with no
/// attributes, and nothing else.
pub open spec fn is_event_only_response(r: Response, ty: Seq<char>) -> bool {
    &&& r.messages@.len() == 0
    &&& r.attributes@.len() == 0
    &&& r.events@.len() == 1
    &&& r.events@[0].ty@ == ty
    &&& r.events@[0].attributes@.len() == 0
}

/// The request for creation of the share-token identifier, issued once
/// at instantiation.
pub fn create_denom_message(contract_address: &String, subdenom: String) -> (m: VaultMsg)
    ensures
        m matches VaultMsg::CreateDenom { sender, subdenom: sub }
            && sender@ == contract_address@ && sub == subdenom,
{
    VaultMsg::CreateDenom { sender: contract_address.clone(), subdenom }
}

} // verus!
