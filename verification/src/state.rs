//! Observable connection state: the status enum, the state cells owned by
//! the UI root, and their mathematical model.

use vstd::prelude::*;

verus! {

/// Connection status of the injected wallet provider.
///
/// `NoWallet` is terminal: it is entered only when no provider is found at
/// startup, and no event moves the machine out of it (a provider cannot
/// appear without a page reload). `Loading` is transient: it is entered
/// only by a user connect intent and is always resolved to `Connected` or
/// `Disconnected` when the connect request completes.
#[derive(Clone, Copy, Debug, PartialEq, Eq, Structural)]
pub enum MetaMaskState {
    Connected,
    Disconnected,
    NoWallet,
    Loading,
}

/// Failure reported by the provider for a request the machine issued.
///
/// `ConnectRejected` is a failed or denied account-access request; it is
/// recoverable and only demotes the status back to `Disconnected`.
/// `QueryFailed` is a failed one-shot seeding query; it is deliberately
/// ignored (best-effort seeding), leaving the affected cell unchanged.
#[derive(Clone, Copy, Debug, PartialEq, Eq, Structural)]
pub enum ProviderError {
    ConnectRejected,
    QueryFailed,
}

/// Mathematical model of the wallet state: the status together with the
/// chain identifier and wallet address as character sequences.
#[verifier::ext_equal]
pub ghost struct StateModel {
    pub status: MetaMaskState,
    pub chain_id: Seq<char>,
    pub wallet_addr: Seq<char>,
}

/// The address placeholder shown when the provider exposes no account;
/// distinct from the empty string, which means "not yet queried".
pub open spec fn sentinel_addr() -> Seq<char> {
    "Unavailable"@
}

/// State at mount: `Disconnected` when a provider was detected and is
/// pending seeding, `NoWallet` otherwise; both value cells start empty.
pub open spec fn init_model(provider_present: bool) -> StateModel {
    StateModel {
        status: if provider_present {
            MetaMaskState::Disconnected
        } else {
            MetaMaskState::NoWallet
        },
        chain_id: Seq::<char>::empty(),
        wallet_addr: Seq::<char>::empty(),
    }
}

/// The UI keeps the connect trigger disabled while a connect request is in
/// flight or already satisfied.
pub open spec fn interaction_disabled(s: StateModel) -> bool {
    s.status == MetaMaskState::Connected || s.status == MetaMaskState::Loading
}

/// The connection state cells owned by the UI root: status, chain
/// identifier (empty string = unknown) and wallet address (empty string =
/// not yet queried, `"Unavailable"` = no account exposed).
#[derive(Clone, Debug)]
pub struct WalletState {
    pub status: MetaMaskState,
    pub chain_id: String,
    pub wallet_addr: String,
}

impl View for WalletState {
    type V = StateModel;

    open spec fn view(&self) -> StateModel {
        StateModel {
            status: self.status,
            chain_id: self.chain_id@,
            wallet_addr: self.wallet_addr@,
        }
    }
}

impl WalletState {
    /// Builds the state for a freshly mounted UI root, from the one-shot
    /// provider probe's outcome.
    pub fn new(provider_present: bool) -> (s: Self)
        ensures
            s@ == init_model(provider_present),
    {
        WalletState {
            status: if provider_present {
                MetaMaskState::Disconnected
            } else {
                MetaMaskState::NoWallet
            },
            chain_id: String::new(),
            wallet_addr: String::new(),
        }
    }

    /// Whether the UI must disable the connect trigger.
    pub fn button_disabled(&self) -> (r: bool)
        ensures
            r == interaction_disabled(self@),
    {
        self.status == MetaMaskState::Connected || self.status == MetaMaskState::Loading
    }
}

} // verus!
