//! Events delivered to the connection state machine, and their model.
//!
//! The UI shell translates everything that happens around the machine —
//! the user's connect intent, the resolution of the connect request, the
//! provider's push notifications, and the one-shot seeding queries — into
//! values of [`WalletEvent`] and hands them to the machine one at a time.

use vstd::prelude::*;
use crate::state::ProviderError;

verus! {

/// One occurrence the connection state machine reacts to.
///
/// - `ConnectClicked`: the user asked to connect (no payload).
/// - `ConnectResolved`: the account-access request finished, with either
///   the granted account list or the provider's refusal.
/// - `AccountsChanged`: the provider pushed a new account list.
/// - `ChainChanged`: the provider pushed a new chain identifier.
/// - `InitialSynced`: the two one-shot seeding queries (current chain
///   identifier, current accounts) finished, each independently either
///   with its value or with a failure to be ignored.
#[derive(Debug, PartialEq)]
pub enum WalletEvent {
    ConnectClicked,
    ConnectResolved(Result<Vec<String>, ProviderError>),
    AccountsChanged(Vec<String>),
    ChainChanged(String),
    InitialSynced(Result<String, ProviderError>, Result<Vec<String>, ProviderError>),
}

/// Model of a [`WalletEvent`]: the same shape over character sequences.
pub ghost enum EventModel {
    ConnectClicked,
    ConnectResolved(Result<Seq<Seq<char>>, ProviderError>),
    AccountsChanged(Seq<Seq<char>>),
    ChainChanged(Seq<char>),
    InitialSynced(Result<Seq<char>, ProviderError>, Result<Seq<Seq<char>>, ProviderError>),
}

/// Model of a finished account-list request: the account strings as
/// sequences, or the error unchanged.
pub open spec fn accounts_outcome_model(
    r: Result<Vec<String>, ProviderError>,
) -> Result<Seq<Seq<char>>, ProviderError> {
    match r {
        Ok(accounts) => Ok(accounts.deep_view()),
        Err(e) => Err(e),
    }
}

/// Model of a finished chain-identifier request.
pub open spec fn chain_outcome_model(
    r: Result<String, ProviderError>,
) -> Result<Seq<char>, ProviderError> {
    match r {
        Ok(chain_id) => Ok(chain_id@),
        Err(e) => Err(e),
    }
}

impl View for WalletEvent {
    type V = EventModel;

    open spec fn view(&self) -> EventModel {
        match self {
            WalletEvent::ConnectClicked => EventModel::ConnectClicked,
            WalletEvent::ConnectResolved(r) => EventModel::ConnectResolved(
                accounts_outcome_model(*r),
            ),
            WalletEvent::AccountsChanged(accounts) => EventModel::AccountsChanged(
                accounts.deep_view(),
            ),
            WalletEvent::ChainChanged(chain_id) => EventModel::ChainChanged(chain_id@),
            WalletEvent::InitialSynced(chain, accounts) => EventModel::InitialSynced(
                chain_outcome_model(*chain),
                accounts_outcome_model(*accounts),
            ),
        }
    }
}

} // verus!
