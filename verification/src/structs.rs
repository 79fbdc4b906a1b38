//! The persisted data model: the four singleton records and the store
//! (`Vault`) that holds them, together with the store's well-formedness
//! invariant.

use vstd::prelude::*;

verus! {

/// The vault's configuration. `base_denom` is fixed at instantiation;
/// `strategy_denom` starts absent and is committed exactly once by the
/// provisioning completion handler.
#[derive(Debug)]
pub struct Config {
    /// Upper bound on the strategy position (policy value, fixed at init).
    pub strategy_cap: u128,
    /// The share-token identifier; absent until provisioning completes.
    pub strategy_denom: Option<String>,
    /// The asset identifier accepted as deposits.
    pub base_denom: String,
}

/// The lifecycle flags. Created closed and paused; mutated only through
/// the administrative transitions.
#[derive(Debug, PartialEq, Eq, Structural, Clone, Copy)]
pub struct State {
    /// Whether the vault has been opened for deposit/redeem traffic.
    pub is_open: bool,
    /// Whether deposit/redeem traffic is currently halted.
    pub is_paused: bool,
    /// The time, in seconds since the epoch, of the last transition into
    /// the paused state (the instantiation time until the first pause).
    pub last_pause: u64,
}

/// What a configuration query returns: the configuration with the
/// strategy denom flattened (empty while absent) and the stored
/// contract version.
#[derive(Debug)]
pub struct ConfigResponse {
    pub strategy_cap: u128,
    pub strategy_denom: String,
    pub base_denom: String,
    pub version: String,
}

/// What a state query returns.
#[derive(Debug, PartialEq, Eq, Structural, Clone, Copy)]
pub struct StateResponse {
    pub is_open: bool,
    pub is_paused: bool,
    pub last_pause: u64,
}

/// A time-bound, single-slot offer to transfer ownership to `owner`.
/// Consumed by a successful claim; replaced by a later proposal.
#[derive(Debug)]
pub struct OwnerProposal {
    /// The candidate who may claim ownership.
    pub owner: String,
    /// Seconds since the epoch after which the proposal can no longer be
    /// claimed. Checked lazily at claim time.
    pub expiry: u64,
}

/// The store: the four singleton records plus the one ephemeral
/// provisioning correlation id, passed explicitly through every
/// operation. Each call either commits its whole transition or fails
/// and leaves the store unchanged.
#[derive(Debug)]
pub struct Vault {
    /// The single address authorized for administrative operations.
    pub owner: String,
    /// At most one pending ownership-transfer proposal.
    pub proposal: Option<OwnerProposal>,
    /// The lifecycle flags.
    pub state: State,
    /// The configuration.
    pub config: Config,
    /// The correlation id of the one outstanding provisioning request,
    /// registered at instantiation and cleared by its completion.
    pub pending_reply: Option<u64>,
    /// The stored contract version, reported by configuration queries.
    pub version: String,
}

impl Config {
    /// Commit the share-token identifier that provisioning created.
    pub fn update_strategy_denom(&mut self, denom: String)
        ensures
            *final(self) == (Config { strategy_denom: Some(denom), ..*old(self) }),
    {
        self.strategy_denom = Some(denom);
    }
}

impl Vault {
    /// Well-formedness: the provisioning request and its committed result
    /// are mutually exclusive — while the request is outstanding no
    /// strategy denom is set, and once the registration is cleared with
    /// a committed denom no further completion is expected.
    pub open spec fn wf(self) -> bool {
        self.pending_reply is Some ==> self.config.strategy_denom is None
    }
}

} // verus!
