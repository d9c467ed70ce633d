//! The wallet registry: the configured wallets and the single current
//! selection. Building a chain-scoped signer is an asynchronous, fallible
//! capability of the runtime; the registry holds each wallet's resolved
//! current address as a plain value.

use vstd::prelude::*;
use crate::events::Address;

verus! {

/// A configured wallet. The key custody behind it is opaque to the
/// gateway; only its identity, dev flag and resolved current address are
/// visible here.
#[derive(Debug)]
pub struct Wallet {
    pub name: String,
    pub dev: bool,
    pub address: Address,
}

impl Wallet {
    pub open spec fn wf(&self) -> bool {
        self.address.wf()
    }

    pub fn is_dev(&self) -> (r: bool)
        ensures
            r == self.dev,
    {
        self.dev
    }

    /// The wallet's resolved current address.
    pub fn get_current_address(&self) -> (a: &Address)
        ensures
            *a == self.address,
    {
        &self.address
    }
}

/// The registry. Once built it always carries a current selection:
/// `wf` says the current index names a configured wallet.
#[derive(Debug)]
pub struct Wallets {
    pub wallets: Vec<Wallet>,
    pub current: usize,
}

impl Wallets {
    pub open spec fn wf(&self) -> bool {
        self.current < self.wallets@.len() && forall|i: int|
            0 <= i < self.wallets@.len() ==> self.wallets@[i].wf()
    }

    pub open spec fn current_wallet_spec(&self) -> Wallet {
        self.wallets@[self.current as int]
    }

    /// Builds a registry; succeeds exactly when `current` names a
    /// configured wallet and every wallet carries a well-formed address.
    pub fn new(wallets: Vec<Wallet>, current: usize) -> (r: Option<Wallets>)
        ensures
            ({
                let w = Wallets { wallets, current };
                match r {
                    Some(reg) => reg == w && w.wf(),
                    None => !w.wf(),
                }
            }),
    {
        let w = Wallets { wallets, current };
        let len = w.wallets.len();
        if current >= len {
            return None;
        }
        let mut i: usize = 0;
        while i < len
            invariant
                0 <= i <= len,
                w == (Wallets { wallets, current }),
                current < len,
                len == w.wallets@.len(),
                forall|a: int| 0 <= a < i ==> w.wallets@[a].wf(),
            decreases len - i,
        {
            if w.wallets[i].address.bytes.len() != 20 {
                proof {
                    assert(!w.wallets@[i as int].wf());
                    assert(!w.wf());
                }
                return None;
            }
            i = i + 1;
        }
        Some(w)
    }

    /// The current wallet. Never fails once the registry is built: `wf`
    /// guarantees the selection exists.
    pub fn get_current_wallet(&self) -> (w: &Wallet)
        requires
            self.wf(),
        ensures
            *w == self.current_wallet_spec(),
            w.wf(),
    {
        &self.wallets[self.current]
    }
}

} // verus!
