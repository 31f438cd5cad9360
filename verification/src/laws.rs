//! Laws of the connection state machine, stated over the model and proved
//! once for all states and event payloads.

use vstd::prelude::*;
use crate::events::EventModel;
use crate::machine::{accounts_changed_step, connect_click_step, connect_result_step, step};
use crate::state::{init_model, sentinel_addr, MetaMaskState, ProviderError, StateModel};

verus! {

/// The state after a whole sequence of account-list updates has been
/// delivered to the machine, oldest first.
pub open spec fn run_account_updates(s: StateModel, updates: Seq<Seq<Seq<char>>>) -> StateModel
    decreases updates.len(),
{
    if updates.len() == 0 {
        s
    } else {
        accounts_changed_step(run_account_updates(s, updates.drop_last()), updates.last())
    }
}

/// Account-list updates never take a machine that has a provider into
/// `NoWallet`.
pub proof fn lemma_updates_keep_wallet(s: StateModel, updates: Seq<Seq<Seq<char>>>)
    requires
        s.status != MetaMaskState::NoWallet,
    ensures
        run_account_updates(s, updates).status != MetaMaskState::NoWallet,
    decreases updates.len(),
{
    if updates.len() > 0 {
        lemma_updates_keep_wallet(s, updates.drop_last());
    }
}

/// After any non-empty sequence of account-list updates, the wallet
/// address equals the first entry of the most recent update when that
/// update was non-empty, and the sentinel when it was empty.
pub proof fn lemma_address_tracks_last_update(s: StateModel, updates: Seq<Seq<Seq<char>>>)
    requires
        s.status != MetaMaskState::NoWallet,
        updates.len() > 0,
    ensures
        updates.last().len() > 0 ==> run_account_updates(s, updates).wallet_addr
            == updates.last()[0],
        updates.last().len() == 0 ==> run_account_updates(s, updates).wallet_addr
            == sentinel_addr(),
{
    lemma_updates_keep_wallet(s, updates.drop_last());
}

/// `NoWallet` is terminal: in that state every event is a complete no-op.
pub proof fn lemma_no_wallet_terminal(s: StateModel, e: EventModel)
    requires
        s.status == MetaMaskState::NoWallet,
    ensures
        step(s, e) == s,
{
}

/// With no provider detected at mount, the machine starts in `NoWallet`
/// and stays there, untouched by every event.
pub proof fn lemma_no_provider_stays_no_wallet(e: EventModel)
    ensures
        init_model(false).status == MetaMaskState::NoWallet,
        step(init_model(false), e) == init_model(false),
{
    lemma_no_wallet_terminal(init_model(false), e);
}

/// `NoWallet` is reachable only at mount: no event moves a machine that
/// has a provider into `NoWallet`.
pub proof fn lemma_no_wallet_unreachable(s: StateModel, e: EventModel)
    requires
        s.status != MetaMaskState::NoWallet,
    ensures
        step(s, e).status != MetaMaskState::NoWallet,
{
}

/// A connect intent in `Disconnected` enters `Loading` synchronously, and
/// the resolution of the account-access request always leaves `Loading`:
/// the machine ends `Connected` exactly when at least one account was
/// granted, and `Disconnected` otherwise.
pub proof fn lemma_connect_flow(s: StateModel, outcome: Result<Seq<Seq<char>>, ProviderError>)
    requires
        s.status == MetaMaskState::Disconnected,
    ensures
        connect_click_step(s).status == MetaMaskState::Loading,
        ({
            let resolved = connect_result_step(connect_click_step(s), outcome);
            &&& resolved.status != MetaMaskState::Loading
            &&& (resolved.status == MetaMaskState::Connected <==> (outcome matches Ok(accounts)
                && accounts.len() > 0))
            &&& resolved.status == MetaMaskState::Connected || resolved.status
                == MetaMaskState::Disconnected
        }),
{
}

/// A connect intent while `Connected` or `Loading` is a no-op: the whole
/// state is unchanged.
pub proof fn lemma_redundant_connect_intent(s: StateModel)
    requires
        s.status == MetaMaskState::Connected || s.status == MetaMaskState::Loading,
    ensures
        connect_click_step(s) == s,
{
}

/// Delivering the same non-empty account list twice in a row changes
/// nothing the second time.
pub proof fn lemma_account_update_idempotent(s: StateModel, accounts: Seq<Seq<char>>)
    requires
        accounts.len() > 0,
    ensures
        accounts_changed_step(accounts_changed_step(s, accounts), accounts)
            == accounts_changed_step(s, accounts),
{
}

} // verus!
