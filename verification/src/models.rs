//! The record kept for one backend node: its connection data, its
//! quarantine status, and the "main" (preferred) marker.

use vstd::prelude::*;

verus! {

/// Quarantine status of a node: either healthy, or quarantined since the
/// given wall-clock time (seconds since the Unix epoch).
#[derive(Debug, Clone, Copy, PartialEq, Eq, Structural)]
pub enum Quarantine {
    No,
    Yes(i64),
}

/// One backend RPC endpoint. The connection data never changes after
/// startup; only `quarantine` and `main` are mutable.
#[derive(Debug)]
pub struct BitcoinNode {
    pub url: String,
    pub user: String,
    pub password: String,
    pub quarantine: Quarantine,
    pub main: bool,
}

impl BitcoinNode {
    /// A freshly configured node: healthy and not preferred.
    pub fn new(url: String, user: String, password: String) -> (r: Self)
        ensures
            r.url@ == url@,
            r.user@ == user@,
            r.password@ == password@,
            r.quarantine == Quarantine::No,
            !r.main,
    {
        Self { url, user, password, quarantine: Quarantine::No, main: false }
    }
}

impl Clone for BitcoinNode {
    fn clone(&self) -> (r: Self)
        ensures
            r.url@ == self.url@,
            r.user@ == self.user@,
            r.password@ == self.password@,
            r.quarantine == self.quarantine,
            r.main == self.main,
    {
        Self {
            url: self.url.clone(),
            user: self.user.clone(),
            password: self.password.clone(),
            quarantine: self.quarantine,
            main: self.main,
        }
    }
}

/// `n` with its quarantine status replaced.
pub open spec fn with_quarantine(n: BitcoinNode, q: Quarantine) -> BitcoinNode {
    BitcoinNode { quarantine: q, ..n }
}

/// `n` with its preferred marker replaced.
pub open spec fn with_main(n: BitcoinNode, m: bool) -> BitcoinNode {
    BitcoinNode { main: m, ..n }
}

} // verus!
