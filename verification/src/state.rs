//! The application state: one object owning both registries, handed by
//! reference to the dispatcher and the pipeline. The runtime guards it
//! with a reader/writer lock; every mutation in this library preserves
//! `wf`, so concurrent readers only ever see a state with valid current
//! selections.

use vstd::prelude::*;
use crate::networks::{Network, Networks};
use crate::wallets::{Wallet, Wallets};

verus! {

#[derive(Debug)]
pub struct AppState {
    pub networks: Networks,
    pub wallets: Wallets,
}

impl AppState {
    pub open spec fn wf(&self) -> bool {
        self.networks.wf() && self.wallets.wf()
    }

    /// The current network; meaningful under `wf`.
    pub open spec fn current_network_spec(&self) -> Network {
        self.networks.current_network()
    }

    /// The current wallet; meaningful under `wf`.
    pub open spec fn current_wallet_spec(&self) -> Wallet {
        self.wallets.current_wallet_spec()
    }

    pub fn new(networks: Networks, wallets: Wallets) -> (r: AppState)
        requires
            networks.wf(),
            wallets.wf(),
        ensures
            r == (AppState { networks, wallets }),
            r.wf(),
    {
        AppState { networks, wallets }
    }
}

} // verus!
