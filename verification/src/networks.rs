//! The network registry: the configured networks and the single current
//! selection. The runtime guards a registry with a reader/writer lock;
//! every mutation here preserves the registry invariant, so a reader can
//! never observe a state without a valid current selection.

use vstd::prelude::*;
use crate::hex;

verus! {

/// A configured network. The transport handle to its upstream node is
/// owned by the runtime, keyed by chain id.
#[derive(Debug)]
pub struct Network {
    pub chain_id: u32,
    pub name: String,
    pub dev: bool,
}

impl Network {
    /// The minimal `0x`-prefixed hex text of the chain id.
    pub open spec fn chain_id_hex_spec(&self) -> Seq<char> {
        hex::hex_prefixed(hex::uhex_chars(self.chain_id as nat))
    }

    pub fn chain_id_hex(&self) -> (r: String)
        ensures
            r@ == self.chain_id_hex_spec(),
    {
        hex::u32_to_hex_prefixed(self.chain_id)
    }

    pub fn is_dev(&self) -> (r: bool)
        ensures
            r == self.dev,
    {
        self.dev
    }
}

/// The registry. Once initialized it always carries a current selection:
/// `wf` says the current id names a configured network, and every method
/// preserves it.
#[derive(Debug)]
pub struct Networks {
    pub networks: Vec<Network>,
    pub current: u32,
}

impl Networks {
    /// Some configured network carries `id`.
    pub open spec fn has_network(&self, id: u32) -> bool {
        exists|i: int| 0 <= i < self.networks@.len() && self.networks@[i].chain_id == id
    }

    /// No two configured networks share a chain id.
    pub open spec fn unique_ids(&self) -> bool {
        forall|i: int, j: int|
            0 <= i < j < self.networks@.len() ==> self.networks@[i].chain_id
                != self.networks@[j].chain_id
    }

    pub open spec fn wf(&self) -> bool {
        self.unique_ids() && self.has_network(self.current)
    }

    /// The index of the current network; meaningful under `wf`.
    pub open spec fn current_index(&self) -> int {
        choose|i: int| 0 <= i < self.networks@.len() && self.networks@[i].chain_id == self.current
    }

    /// The current network; meaningful under `wf`.
    pub open spec fn current_network(&self) -> Network {
        self.networks@[self.current_index()]
    }

    /// Builds a registry; succeeds exactly when the chain ids are unique
    /// and `current` names a configured network, so that a current
    /// selection always exists.
    pub fn new(networks: Vec<Network>, current: u32) -> (r: Option<Networks>)
        ensures
            ({
                let n = Networks { networks, current };
                match r {
                    Some(reg) => reg == n && n.wf(),
                    None => !n.wf(),
                }
            }),
    {
        let n = Networks { networks, current };
        let len = n.networks.len();
        let mut i: usize = 0;
        while i < len
            invariant
                0 <= i <= len,
                n == (Networks { networks, current }),
                len == n.networks@.len(),
                forall|a: int, b: int|
                    0 <= a < b < len && a < i ==> n.networks@[a].chain_id
                        != n.networks@[b].chain_id,
            decreases len - i,
        {
            let mut j: usize = i + 1;
            while j < len
                invariant
                    i < j <= len,
                    n == (Networks { networks, current }),
                    len == n.networks@.len(),
                    forall|a: int, b: int|
                        0 <= a < b < len && a < i ==> n.networks@[a].chain_id
                            != n.networks@[b].chain_id,
                    forall|b: int| i < b < j ==> n.networks@[i as int].chain_id != n.networks@[b].chain_id,
                decreases len - j,
            {
                if n.networks[i].chain_id == n.networks[j].chain_id {
                    proof {
                        assert(n.networks@[i as int].chain_id == n.networks@[j as int].chain_id);
                        assert(!n.unique_ids());
                    }
                    return None;
                }
                j = j + 1;
            }
            i = i + 1;
        }
        let mut k: usize = 0;
        while k < len
            invariant
                0 <= k <= len,
                n == (Networks { networks, current }),
                n.unique_ids(),
                len == n.networks@.len(),
                forall|a: int| 0 <= a < k ==> n.networks@[a].chain_id != n.current,
            decreases len - k,
        {
            if n.networks[k].chain_id == current {
                proof {
                    assert(n.networks@[k as int].chain_id == n.current);
                    assert(n.has_network(n.current));
                }
                return Some(n);
            }
            k = k + 1;
        }
        None
    }

    /// The current network. Never fails once the registry is built: `wf`
    /// guarantees the selection exists.
    pub fn get_current_network(&self) -> (n: &Network)
        requires
            self.wf(),
        ensures
            *n == self.current_network(),
            n.chain_id == self.current,
    {
        let len = self.networks.len();
        let mut i: usize = 0;
        while i < len
            invariant
                self.wf(),
                0 <= i <= len,
                len == self.networks@.len(),
                forall|a: int| 0 <= a < i ==> self.networks@[a].chain_id != self.current,
            decreases len - i,
        {
            if self.networks[i].chain_id == self.current {
                proof {
                    let w = self.current_index();
                    assert(0 <= w < self.networks@.len() && self.networks@[w].chain_id
                        == self.current);
                    assert(w == i);
                }
                return &self.networks[i];
            }
            i = i + 1;
        }
        proof {
            let w = self.current_index();
            assert(0 <= w < self.networks@.len() && self.networks@[w].chain_id == self.current);
            assert(false);
        }
        &self.networks[0]
    }

    /// Switches the current selection to `id`. An unknown id leaves the
    /// registry unchanged and reports not-found; a known id swaps the
    /// current pointer and nothing else.
    pub fn set_current_network_by_id(&mut self, id: u32) -> (r: Result<(), crate::error::Error>)
        requires
            old(self).wf(),
        ensures
            final (self).wf(),
            final (self).networks == old(self).networks,
            match r {
                Ok(_) => old(self).has_network(id) && final (self).current == id,
                Err(e) => !old(self).has_network(id) && *final (self) == *old(self) && e
                    == crate::error::Error::NetworkNotFound(id),
            },
    {
        let len = self.networks.len();
        let mut i: usize = 0;
        while i < len
            invariant
                0 <= i <= len,
                *self == *old(self),
                old(self).wf(),
                len == self.networks@.len(),
                forall|a: int| 0 <= a < i ==> self.networks@[a].chain_id != id,
            decreases len - i,
        {
            if self.networks[i].chain_id == id {
                self.current = id;
                proof {
                    assert(self.networks@[i as int].chain_id == id);
                    assert(self.has_network(id));
                }
                return Ok(());
            }
            i = i + 1;
        }
        Err(crate::error::Error::NetworkNotFound(id))
    }
}

} // verus!
