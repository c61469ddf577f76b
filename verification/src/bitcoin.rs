//! The Bitcoin-node RPC client's verified half: it knows a node's
//! connection data and builds the exact HTTP POST — URL, Basic
//! authorization header, JSON-RPC body — for each query the proxy makes.
//! Sending the request and decoding the HTTP response stay with the
//! transport code.

use vstd::prelude::*;
use vstd::string::StringExecFns;
use vstd::string::StringSliceAdditionalSpecFns;

use crate::json::{append_bytes, append_json_string, spec_json_string};

verus! {

/// What base64's standard-alphabet, padded encoding returns for the
/// given bytes; a fixed function of them.
pub uninterp spec fn base64_of(bytes: Seq<u8>) -> Seq<char>;

/// Relies on base64's `STANDARD` engine `encode`: the standard-alphabet,
/// padded base64 encoding of the input bytes, a function of them alone.
#[verifier::external_body]
fn base64_encode(bytes: &[u8]) -> (r: String)
    ensures
        r@ == base64_of(bytes@),
{
    base64::Engine::encode(&base64::engine::general_purpose::STANDARD, bytes)
}

/// The bytes that HTTP Basic authentication encodes: user, colon, password.
pub open spec fn spec_basic_credentials(user: Seq<char>, password: Seq<char>) -> Seq<u8> {
    vstd::utf8::encode_utf8(user) + seq![0x3au8] + vstd::utf8::encode_utf8(password)
}

/// The full `Authorization` header value for HTTP Basic authentication.
pub open spec fn spec_basic_auth(user: Seq<char>, password: Seq<char>) -> Seq<char> {
    "Basic "@ + base64_of(spec_basic_credentials(user, password))
}

/// Builds the `Authorization` header value for HTTP Basic authentication.
pub fn basic_auth_header(user: &str, password: &str) -> (r: String)
    ensures
        r@ == spec_basic_auth(user@, password@),
{
    let mut cred: Vec<u8> = Vec::new();
    append_bytes(&mut cred, user.as_bytes());
    cred.push(0x3a);
    append_bytes(&mut cred, password.as_bytes());
    proof {
        assert(cred@ =~= spec_basic_credentials(user@, password@));
    }
    let encoded = base64_encode(cred.as_slice());
    let mut header = String::new();
    header.append("Basic ");
    header.append(encoded.as_str());
    proof {
        assert(header@ =~= spec_basic_auth(user@, password@));
    }
    header
}

/// One fully prepared outbound RPC call: where to POST, the
/// authorization to carry, and the exact body bytes.
pub struct RpcRequest {
    pub url: String,
    pub auth_header: String,
    pub body: Vec<u8>,
}

/// The JSON-RPC body for the best-block-hash query.
pub open spec fn spec_best_block_hash_body() -> Seq<u8> {
    ("{\"jsonrpc\":\"2\",\"id\":\"1\",\"method\":\"getbestblockhash\",\"params\":[]}").spec_bytes()
}

/// The JSON-RPC body for the block-by-hash query.
pub open spec fn spec_get_block_body(hash: Seq<char>) -> Seq<u8> {
    ("{\"jsonrpc\":\"2\",\"id\":\"1\",\"method\":\"getblock\",\"params\":[").spec_bytes()
        + spec_json_string(vstd::utf8::encode_utf8(hash)) + ("]}").spec_bytes()
}

/// Client for working with one Bitcoin node's JSON-RPC interface.
pub struct BitcoinClientImpl {
    pub bitcoin_rpc_url: String,
    pub bitcoin_rpc_user: String,
    pub bitcoin_rpc_password: String,
}

impl BitcoinClientImpl {
    pub fn new(bitcoin_rpc_url: String, bitcoin_rpc_user: String, bitcoin_rpc_password: String) -> (r: Self)
        ensures
            r.bitcoin_rpc_url@ == bitcoin_rpc_url@,
            r.bitcoin_rpc_user@ == bitcoin_rpc_user@,
            r.bitcoin_rpc_password@ == bitcoin_rpc_password@,
    {
        Self { bitcoin_rpc_url, bitcoin_rpc_user, bitcoin_rpc_password }
    }

    /// The node's URL and this client's authorization, around the given body.
    fn request_with_body(&self, body: Vec<u8>) -> (r: RpcRequest)
        ensures
            r.url@ == self.bitcoin_rpc_url@,
            r.auth_header@ == spec_basic_auth(self.bitcoin_rpc_user@, self.bitcoin_rpc_password@),
            r.body@ == body@,
    {
        let auth_header = basic_auth_header(
            self.bitcoin_rpc_user.as_str(),
            self.bitcoin_rpc_password.as_str(),
        );
        RpcRequest { url: self.bitcoin_rpc_url.clone(), auth_header, body }
    }

    /// The call that asks the node for its best block hash.
    pub fn get_best_block_hash(&self) -> (r: RpcRequest)
        ensures
            r.url@ == self.bitcoin_rpc_url@,
            r.auth_header@ == spec_basic_auth(self.bitcoin_rpc_user@, self.bitcoin_rpc_password@),
            r.body@ == spec_best_block_hash_body(),
    {
        let mut body: Vec<u8> = Vec::new();
        append_bytes(
            &mut body,
            "{\"jsonrpc\":\"2\",\"id\":\"1\",\"method\":\"getbestblockhash\",\"params\":[]}".as_bytes(),
        );
        self.request_with_body(body)
    }

    /// The call that asks the node for the block with the given hash,
    /// from whose response the node's height is read.
    pub fn get_block_by_hash(&self, hash: String) -> (r: RpcRequest)
        ensures
            r.url@ == self.bitcoin_rpc_url@,
            r.auth_header@ == spec_basic_auth(self.bitcoin_rpc_user@, self.bitcoin_rpc_password@),
            r.body@ == spec_get_block_body(hash@),
    {
        let mut body: Vec<u8> = Vec::new();
        append_bytes(
            &mut body,
            "{\"jsonrpc\":\"2\",\"id\":\"1\",\"method\":\"getblock\",\"params\":[".as_bytes(),
        );
        append_json_string(&mut body, hash.as_str().as_bytes());
        append_bytes(&mut body, "]}".as_bytes());
        self.request_with_body(body)
    }

    /// The pass-through call: a client's payload, forwarded verbatim
    /// under this node's URL and authorization.
    pub fn proxy_request(&self, body: Vec<u8>) -> (r: RpcRequest)
        ensures
            r.url@ == self.bitcoin_rpc_url@,
            r.auth_header@ == spec_basic_auth(self.bitcoin_rpc_user@, self.bitcoin_rpc_password@),
            r.body@ == body@,
    {
        self.request_with_body(body)
    }
}

/// The decoded best-block-hash response.
pub struct RpcBestBlockResponse {
    pub result: String,
}

/// The decoded block-by-hash response.
pub struct RpcBlockResponse {
    pub result: Block,
}

/// The fields of a block the proxy reads.
pub struct Block {
    pub hash: String,
    pub previousblockhash: String,
    pub tx: Vec<String>,
    pub height: u64,
    pub confirmations: usize,
}

/// The second half of the height audit: the height the node reported for
/// its best block, read from the decoded block.
pub fn block_height(block: &Block) -> (r: u64)
    ensures
        r == block.height,
{
    block.height
}

} // verus!
