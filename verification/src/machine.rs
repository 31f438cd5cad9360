//! The connection state machine: one transition function per event, each
//! specified against its mathematical model, and a single dispatcher that
//! the UI shell drives with [`WalletEvent`] values.
//!
//! Every event that reaches the machine presumes a detected provider
//! (watcher notifications, request resolutions) or is gated by the UI on
//! one (the connect trigger is never shown without a wallet). `NoWallet`
//! is therefore terminal: with no provider none of these events can
//! occur, and the machine treats each of them as a no-op in that state.

use vstd::prelude::*;
use vstd::string::StringExecFns;
use crate::events::{accounts_outcome_model, chain_outcome_model, EventModel, WalletEvent};
use crate::state::{sentinel_addr, MetaMaskState, ProviderError, StateModel, WalletState};

verus! {

/// User connect intent: from `Disconnected` the machine enters `Loading`
/// at once (before the asynchronous request resolves); in every other
/// status the intent is redundant and changes nothing.
pub open spec fn connect_click_step(s: StateModel) -> StateModel {
    if s.status == MetaMaskState::Disconnected {
        StateModel { status: MetaMaskState::Loading, ..s }
    } else {
        s
    }
}

/// Resolution of the account-access request: at least one granted account
/// means `Connected`; a refusal or an empty grant means `Disconnected`.
/// Only the status moves — the address cell is fed by the account
/// watcher, not by the request itself.
pub open spec fn connect_result_step(
    s: StateModel,
    outcome: Result<Seq<Seq<char>>, ProviderError>,
) -> StateModel {
    if s.status == MetaMaskState::NoWallet {
        s
    } else {
        match outcome {
            Ok(accounts) => if accounts.len() > 0 {
                StateModel { status: MetaMaskState::Connected, ..s }
            } else {
                StateModel { status: MetaMaskState::Disconnected, ..s }
            },
            Err(_) => StateModel { status: MetaMaskState::Disconnected, ..s },
        }
    }
}

/// A pushed account-list update: a non-empty list sets the address to its
/// first entry (ordering is provider-defined and not reinterpreted); an
/// empty list means access was revoked, so the address becomes the
/// sentinel and the status is demoted to `Disconnected`.
pub open spec fn accounts_changed_step(s: StateModel, accounts: Seq<Seq<char>>) -> StateModel {
    if s.status == MetaMaskState::NoWallet {
        s
    } else if accounts.len() > 0 {
        StateModel { wallet_addr: accounts[0], ..s }
    } else {
        StateModel {
            status: MetaMaskState::Disconnected,
            wallet_addr: sentinel_addr(),
            ..s
        }
    }
}

/// A pushed chain-identifier update: last write wins, nothing else moves.
pub open spec fn chain_changed_step(s: StateModel, chain_id: Seq<char>) -> StateModel {
    if s.status == MetaMaskState::NoWallet {
        s
    } else {
        StateModel { chain_id: chain_id, ..s }
    }
}

/// Outcome of the two one-shot seeding queries. A successful chain query
/// overwrites the chain identifier. A successful account query applies
/// the account seeding rule: a non-empty list connects and records the
/// first address, an empty list disconnects and records the sentinel.
/// A failed query is ignored, leaving its cell (and the status, for the
/// account query) as it was: best-effort seeding.
pub open spec fn initial_sync_step(
    s: StateModel,
    chain: Result<Seq<char>, ProviderError>,
    accounts: Result<Seq<Seq<char>>, ProviderError>,
) -> StateModel {
    if s.status == MetaMaskState::NoWallet {
        s
    } else {
        let seeded = match chain {
            Ok(chain_id) => StateModel { chain_id: chain_id, ..s },
            Err(_) => s,
        };
        match accounts {
            Ok(accs) => if accs.len() > 0 {
                StateModel {
                    status: MetaMaskState::Connected,
                    wallet_addr: accs[0],
                    ..seeded
                }
            } else {
                StateModel {
                    status: MetaMaskState::Disconnected,
                    wallet_addr: sentinel_addr(),
                    ..seeded
                }
            },
            Err(_) => seeded,
        }
    }
}

/// The whole machine: next state for any state and any event.
pub open spec fn step(s: StateModel, e: EventModel) -> StateModel {
    match e {
        EventModel::ConnectClicked => connect_click_step(s),
        EventModel::ConnectResolved(outcome) => connect_result_step(s, outcome),
        EventModel::AccountsChanged(accounts) => accounts_changed_step(s, accounts),
        EventModel::ChainChanged(chain_id) => chain_changed_step(s, chain_id),
        EventModel::InitialSynced(chain, accounts) => initial_sync_step(s, chain, accounts),
    }
}

impl WalletState {
    /// The user asked to connect.
    pub fn connect_clicked(&mut self)
        ensures
            final(self)@ == connect_click_step(old(self)@),
    {
        if self.status == MetaMaskState::Disconnected {
            self.status = MetaMaskState::Loading;
        }
    }

    /// The account-access request started by [`Self::connect_clicked`]
    /// resolved.
    pub fn connect_resolved(&mut self, outcome: &Result<Vec<String>, ProviderError>)
        ensures
            final(self)@ == connect_result_step(old(self)@, accounts_outcome_model(*outcome)),
    {
        if self.status == MetaMaskState::NoWallet {
            return;
        }
        match outcome {
            Ok(accounts) => {
                if accounts.len() > 0 {
                    self.status = MetaMaskState::Connected;
                } else {
                    self.status = MetaMaskState::Disconnected;
                }
            },
            Err(_) => {
                self.status = MetaMaskState::Disconnected;
            },
        }
    }

    /// The provider pushed a new account list.
    pub fn accounts_changed(&mut self, accounts: &Vec<String>)
        ensures
            final(self)@ == accounts_changed_step(old(self)@, accounts.deep_view()),
    {
        if self.status == MetaMaskState::NoWallet {
            return;
        }
        if accounts.len() > 0 {
            self.wallet_addr = accounts[0].clone();
        } else {
            self.wallet_addr = String::from_str("Unavailable");
            self.status = MetaMaskState::Disconnected;
        }
    }

    /// The provider pushed a new chain identifier.
    pub fn chain_changed(&mut self, chain_id: String)
        ensures
            final(self)@ == chain_changed_step(old(self)@, chain_id@),
    {
        if self.status == MetaMaskState::NoWallet {
            return;
        }
        self.chain_id = chain_id;
    }

    /// The two one-shot seeding queries finished.
    pub fn initial_synced(
        &mut self,
        chain: &Result<String, ProviderError>,
        accounts: &Result<Vec<String>, ProviderError>,
    )
        ensures
            final(self)@ == initial_sync_step(
                old(self)@,
                chain_outcome_model(*chain),
                accounts_outcome_model(*accounts),
            ),
    {
        if self.status == MetaMaskState::NoWallet {
            return;
        }
        match chain {
            Ok(chain_id) => {
                self.chain_id = chain_id.clone();
            },
            Err(_) => {},
        }
        match accounts {
            Ok(accs) => {
                if accs.len() > 0 {
                    self.wallet_addr = accs[0].clone();
                    self.status = MetaMaskState::Connected;
                } else {
                    self.wallet_addr = String::from_str("Unavailable");
                    self.status = MetaMaskState::Disconnected;
                }
            },
            Err(_) => {},
        }
    }

    /// Dispatches one event to its transition.
    pub fn apply(&mut self, event: &WalletEvent)
        ensures
            final(self)@ == step(old(self)@, event@),
    {
        match event {
            WalletEvent::ConnectClicked => self.connect_clicked(),
            WalletEvent::ConnectResolved(outcome) => self.connect_resolved(outcome),
            WalletEvent::AccountsChanged(accounts) => self.accounts_changed(accounts),
            WalletEvent::ChainChanged(chain_id) => self.chain_changed(chain_id.clone()),
            WalletEvent::InitialSynced(chain, accounts) => self.initial_synced(chain, accounts),
        }
    }
}

} // verus!
