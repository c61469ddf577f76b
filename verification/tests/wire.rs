//! The wire formats: JSON-RPC bodies, Basic authentication, the
//! reference-height decoder, the alert payload, and configuration.

use bitcoin_proxy::bitcoin::{block_height, BitcoinClientImpl, Block};
use bitcoin_proxy::blockchaininfo::{parse_block_count, BlockchainInfoClientImpl};
use bitcoin_proxy::config::{Client, Config, CpuPool, Healthcheck, Node, OpsGenie, Server};
use bitcoin_proxy::models::Quarantine;
use bitcoin_proxy::opsgenie::{OpsGenieClientImpl, OpsGeniePayload, OpsGenieUser};

fn client() -> BitcoinClientImpl {
    BitcoinClientImpl::new(
        "http://node.example:8332".to_string(),
        "user".to_string(),
        "pass".to_string(),
    )
}

#[test]
fn basic_auth_header_carries_the_standard_base64_of_the_credentials() {
    let call = client().get_best_block_hash();
    assert_eq!(call.auth_header, "Basic dXNlcjpwYXNz");
}

#[test]
fn best_block_hash_call_has_the_exact_rpc_body() {
    let call = client().get_best_block_hash();
    assert_eq!(call.url, "http://node.example:8332");
    assert_eq!(
        call.body,
        br#"{"jsonrpc":"2","id":"1","method":"getbestblockhash","params":[]}"#.to_vec()
    );
}

#[test]
fn block_by_hash_call_quotes_the_hash() {
    let call = client().get_block_by_hash("00000000abcd".to_string());
    assert_eq!(
        call.body,
        br#"{"jsonrpc":"2","id":"1","method":"getblock","params":["00000000abcd"]}"#.to_vec()
    );
}

#[test]
fn block_by_hash_call_escapes_what_json_cannot_carry_raw() {
    let call = client().get_block_by_hash("a\"b\\c\nd".to_string());
    let expected = "{\"jsonrpc\":\"2\",\"id\":\"1\",\"method\":\"getblock\",\"params\":[\"a\\\"b\\\\c\\u000ad\"]}";
    assert_eq!(call.body, expected.as_bytes().to_vec());
}

#[test]
fn proxied_call_keeps_the_payload_verbatim() {
    let body = b"{\"method\":\"getinfo\"}".to_vec();
    let call = client().proxy_request(body.clone());
    assert_eq!(call.body, body);
    assert_eq!(call.url, "http://node.example:8332");
    assert_eq!(call.auth_header, "Basic dXNlcjpwYXNz");
}

#[test]
fn block_height_reads_the_height_field() {
    let block = Block {
        hash: "aa".to_string(),
        previousblockhash: "bb".to_string(),
        tx: vec!["t1".to_string()],
        height: 55_000,
        confirmations: 3,
    };
    assert_eq!(block_height(&block), 55_000);
}

#[test]
fn reference_height_decodes_a_bare_json_integer() {
    assert_eq!(parse_block_count(b"55563"), Some(55563));
    assert_eq!(parse_block_count(b"0"), Some(0));
    assert_eq!(parse_block_count(b" \n1000\t "), Some(1000));
    assert_eq!(parse_block_count(b"18446744073709551615"), Some(u64::MAX));
}

#[test]
fn reference_height_rejects_what_is_not_a_bare_json_integer() {
    assert_eq!(parse_block_count(b""), None);
    assert_eq!(parse_block_count(b"   "), None);
    assert_eq!(parse_block_count(b"007"), None);
    assert_eq!(parse_block_count(b"12a3"), None);
    assert_eq!(parse_block_count(b"-5"), None);
    assert_eq!(parse_block_count(b"10.5"), None);
    assert_eq!(parse_block_count(b"1 2"), None);
    assert_eq!(parse_block_count(b"18446744073709551616"), None);
    assert_eq!(parse_block_count(b"99999999999999999999999"), None);
}

fn config() -> Config {
    Config {
        server: Server { host: "0.0.0.0".to_string(), port: "8080".to_string() },
        client: Client { dns_threads: 4 },
        cpu_pool: CpuPool { size: 4 },
        nodes: vec![
            Node {
                bitcoin_rpc_url: "http://a:8332".to_string(),
                bitcoin_rpc_user: "ua".to_string(),
                bitcoin_rpc_password: "pa".to_string(),
            },
            Node {
                bitcoin_rpc_url: "http://b:8332".to_string(),
                bitcoin_rpc_user: "ub".to_string(),
                bitcoin_rpc_password: "pb".to_string(),
            },
        ],
        healthcheck: Healthcheck {
            timeout: 10,
            url: "https://blockchain.info/q/getblockcount".to_string(),
            quarantine: 600,
        },
        opsgenie: OpsGenie {
            enabled: true,
            api_key: "KEY".to_string(),
            url: "https://api.opsgenie.example/v2/alerts".to_string(),
            team: "ops".to_string(),
        },
    }
}

#[test]
fn to_nodes_builds_the_startup_pool_in_order() {
    let reg = config().to_nodes();
    assert_eq!(reg.len(), 2);
    assert_eq!(reg.get(0).url, "http://a:8332");
    assert_eq!(reg.get(0).user, "ua");
    assert_eq!(reg.get(0).password, "pa");
    assert_eq!(reg.get(0).quarantine, Quarantine::No);
    assert!(!reg.get(0).main);
    assert_eq!(reg.get(1).url, "http://b:8332");
    assert!(!reg.get(1).main);
}

#[test]
fn reference_client_takes_the_configured_url() {
    let cli = BlockchainInfoClientImpl::new(&config());
    assert_eq!(cli.url, "https://blockchain.info/q/getblockcount");
}

#[test]
fn alert_payload_serializes_to_its_exact_json() {
    let payload = OpsGeniePayload::new("all wrong".to_string(), "ops".to_string());
    let json = payload.to_json();
    assert_eq!(
        json,
        br#"{"message":"all wrong","responders":[{"name":"ops","type":"team"}],"visibleTo":[{"name":"ops","type":"team"}]}"#.to_vec()
    );
}

#[test]
fn alert_payload_escapes_its_message() {
    let payload = OpsGeniePayload::new("say \"hi\"".to_string(), "ops".to_string());
    let json = payload.to_json();
    assert_eq!(
        json,
        br#"{"message":"say \"hi\"","responders":[{"name":"ops","type":"team"}],"visibleTo":[{"name":"ops","type":"team"}]}"#.to_vec()
    );
}

#[test]
fn opsgenie_user_defaults_to_the_team_type() {
    let user = OpsGenieUser::new("ops".to_string());
    assert_eq!(user.name, "ops");
    assert_eq!(user.type_, "team");
}

#[test]
fn notify_is_gated_on_the_enabled_flag() {
    let enabled = OpsGenieClientImpl::new(&config());
    let payload = enabled.notify("m".to_string());
    let payload = payload.expect("alerting is enabled");
    assert_eq!(payload.message, "m");
    assert_eq!(payload.responders.len(), 1);
    assert_eq!(payload.responders[0].name, "ops");

    let mut cfg = config();
    cfg.opsgenie.enabled = false;
    let disabled = OpsGenieClientImpl::new(&cfg);
    assert!(disabled.notify("m".to_string()).is_none());
}

#[test]
fn opsgenie_auth_header_carries_the_key() {
    let cli = OpsGenieClientImpl::new(&config());
    assert_eq!(cli.auth_header(), "GenieKey KEY");
}
