//! The request router's verified half: per inbound request it picks the
//! node under the request-mode selection rule and prepares the
//! pass-through call carrying the client's payload verbatim. It never
//! touches quarantine state; only the fallback rule may move the main
//! marker.

use vstd::prelude::*;

use crate::bitcoin::{spec_basic_auth, BitcoinClientImpl, RpcRequest};
use crate::registry::NodeRegistry;
use crate::selector::{fallback_marked, first_main_healthy_from, select_for_request};

verus! {

/// The error classes an inbound request can end in.
#[derive(Debug, Clone, Copy, PartialEq, Eq, Structural)]
pub enum ErrorKind {
    BadRequest,
    Unauthorized,
    NotFound,
    UnprocessableEntity,
    Internal,
}

/// The HTTP status owed for each error class.
pub fn status_code(kind: &ErrorKind) -> (r: u16)
    ensures
        r == match kind {
            ErrorKind::BadRequest => 400u16,
            ErrorKind::Unauthorized => 401u16,
            ErrorKind::NotFound => 404u16,
            ErrorKind::UnprocessableEntity => 422u16,
            ErrorKind::Internal => 500u16,
        },
{
    match kind {
        ErrorKind::BadRequest => 400,
        ErrorKind::Unauthorized => 401,
        ErrorKind::NotFound => 404,
        ErrorKind::UnprocessableEntity => 422,
        ErrorKind::Internal => 500,
    }
}

/// Routes one inbound request: selects the node under the request-mode
/// rule and returns the pass-through call for it, body unmodified. Even
/// with every node quarantined this returns a call — aimed at node 0 by
/// the fallback rule — rather than failing outright.
pub fn proxy(reg: &mut NodeRegistry, body: Vec<u8>) -> (r: RpcRequest)
    requires
        old(reg).well_formed(),
    ensures
        r.body@ == body@,
        match first_main_healthy_from(old(reg).nodes@, 0) {
            Some(k) => {
                &&& final(reg).nodes@ == old(reg).nodes@
                &&& r.url@ == old(reg).nodes@[k].url@
                &&& r.auth_header@ == spec_basic_auth(
                    old(reg).nodes@[k].user@,
                    old(reg).nodes@[k].password@,
                )
            },
            None => {
                &&& final(reg).nodes@ == fallback_marked(old(reg).nodes@)
                &&& r.url@ == old(reg).nodes@[0].url@
                &&& r.auth_header@ == spec_basic_auth(
                    old(reg).nodes@[0].user@,
                    old(reg).nodes@[0].password@,
                )
            },
        },
{
    let i = select_for_request(reg);
    let node = reg.get(i);
    let client = BitcoinClientImpl::new(
        node.url.clone(),
        node.user.clone(),
        node.password.clone(),
    );
    client.proxy_request(body)
}

} // verus!
