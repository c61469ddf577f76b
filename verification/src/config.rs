//! The configuration surface the core consumes. Loading it from files
//! and the environment is the startup code's concern; here stand the
//! plain settings and the construction of the node pool from them.

use vstd::prelude::*;

use crate::models::{BitcoinNode, Quarantine};
use crate::registry::NodeRegistry;

verus! {

#[derive(Debug, Clone)]
pub struct Server {
    pub host: String,
    pub port: String,
}

#[derive(Debug, Clone)]
pub struct Client {
    pub dns_threads: usize,
}

#[derive(Debug, Clone)]
pub struct CpuPool {
    pub size: usize,
}

#[derive(Debug, Clone)]
pub struct Node {
    pub bitcoin_rpc_url: String,
    pub bitcoin_rpc_user: String,
    pub bitcoin_rpc_password: String,
}

#[derive(Debug, Clone)]
pub struct Healthcheck {
    /// Seconds between two health-check ticks.
    pub timeout: u64,
    /// The reference source's URL.
    pub url: String,
    /// Seconds a node stays quarantined.
    pub quarantine: i64,
}

#[derive(Debug, Clone)]
pub struct OpsGenie {
    pub enabled: bool,
    pub api_key: String,
    pub url: String,
    pub team: String,
}

#[derive(Debug, Clone)]
pub struct Config {
    pub server: Server,
    pub client: Client,
    pub cpu_pool: CpuPool,
    pub nodes: Vec<Node>,
    pub healthcheck: Healthcheck,
    pub opsgenie: OpsGenie,
}

impl Config {
    /// The startup node pool: one registry entry per configured node, in
    /// configuration order, every node healthy and none preferred.
    pub fn to_nodes(&self) -> (r: NodeRegistry)
        ensures
            r.nodes@.len() == self.nodes@.len(),
            forall|i: int|
                0 <= i < self.nodes@.len() ==> {
                    &&& r.nodes@[i].url@ == self.nodes@[i].bitcoin_rpc_url@
                    &&& r.nodes@[i].user@ == self.nodes@[i].bitcoin_rpc_user@
                    &&& r.nodes@[i].password@ == self.nodes@[i].bitcoin_rpc_password@
                    &&& r.nodes@[i].quarantine == Quarantine::No
                    &&& !r.nodes@[i].main
                },
    {
        let n = self.nodes.len();
        let mut pool: Vec<BitcoinNode> = Vec::new();
        let mut i: usize = 0;
        while i < n
            invariant
                n == self.nodes@.len(),
                i <= n,
                pool@.len() == i,
                forall|j: int|
                    0 <= j < i ==> {
                        &&& pool@[j].url@ == self.nodes@[j].bitcoin_rpc_url@
                        &&& pool@[j].user@ == self.nodes@[j].bitcoin_rpc_user@
                        &&& pool@[j].password@ == self.nodes@[j].bitcoin_rpc_password@
                        &&& pool@[j].quarantine == Quarantine::No
                        &&& !pool@[j].main
                    },
            decreases n - i,
        {
            let node = &self.nodes[i];
            pool.push(BitcoinNode::new(
                node.bitcoin_rpc_url.clone(),
                node.bitcoin_rpc_user.clone(),
                node.bitcoin_rpc_password.clone(),
            ));
            i += 1;
        }
        NodeRegistry::new(pool)
    }
}

} // verus!
