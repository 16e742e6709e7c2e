use clawchain::client::{ConnectionState, TransportEvent};
use clawchain::codec::{build_register_call, build_vote_call};
use clawchain::{AgentDID, ClawChainClient, ClawChainError};

const VALID: &str = "did:claw:1234567890abcdef1234567890abcdef1234567890abcdef1234567890abcdef";

fn connected() -> ClawChainClient {
    let mut c = ClawChainClient::new("ws://localhost:9944").unwrap();
    let h = c.handshake().unwrap();
    assert_eq!(h.method, "chain_subscribeFinalizedHeads");
    assert_eq!(h.id, 1);
    c.on_transport_event(TransportEvent::HandshakeCompleted);
    c
}

#[test]
fn new_rejects_bad_endpoint() {
    assert!(matches!(ClawChainClient::new("not a url"), Err(ClawChainError::ConnectionError(_))));
    let c = ClawChainClient::new("ws://localhost:9944").unwrap();
    assert_eq!(c.state(), ConnectionState::Connecting);
    assert_eq!(c.endpoint(), "ws://localhost:9944");
}

#[test]
fn ids_increase_per_request() {
    let mut c = connected();
    assert!(c.is_connected());
    let a = c.get_agent(VALID).unwrap();
    let b = c.vote(5, true).unwrap();
    let d = c.submit_extrinsic("0xdead").unwrap();
    assert_eq!((a.id, b.id, d.id), (2, 3, 4));
    assert_eq!(a.jsonrpc, "2.0");
    assert_eq!(a.method, "state_getStorage");
    assert_eq!(a.params, vec![format!("0x{}", clawchain::keys::storage_key_for_agent(VALID))]);
    assert_eq!(b.params, vec!["0x020105".to_string()]);
    assert_eq!(b.method, "author_submitExtrinsic");
    assert_eq!(d.method, "agent_submitExtrinsic");
    assert_eq!(d.params, vec!["0xdead".to_string()]);
}

#[test]
fn balance_checks_identifier_first() {
    let mut c = connected();
    assert!(matches!(c.get_token_balance("did:eth:1"), Err(ClawChainError::InvalidDID(_))));
    let q = c.get_token_balance(VALID).unwrap();
    assert_eq!(q.id, 2);
    assert_eq!(q.params, vec![format!("0x{}", clawchain::keys::balance_key_for_did(VALID))]);
}

#[test]
fn register_returns_locally_derived_identifier() {
    let mut c = connected();
    let (did, q) = c.register_agent(b"meta", "0xowner").unwrap();
    assert_eq!(did, AgentDID::generate(b"meta", "0xowner").as_str());
    assert_eq!(q.params, vec!["0x0149".to_string()]);
}

#[test]
fn closed_session_refuses_requests() {
    let mut c = connected();
    c.on_transport_event(TransportEvent::RemoteClosed);
    assert_eq!(c.state(), ConnectionState::Closed);
    assert!(matches!(c.vote(1, false), Err(ClawChainError::ConnectionError(_))));
    c.on_transport_event(TransportEvent::HandshakeCompleted);
    assert_eq!(c.state(), ConnectionState::Closed);
}

#[test]
fn failed_handshake_closes() {
    let mut c = ClawChainClient::new("ws://localhost:9944").unwrap();
    c.on_transport_event(TransportEvent::HandshakeFailed);
    assert_eq!(c.state(), ConnectionState::Closed);
    assert!(matches!(c.handshake(), Err(ClawChainError::ConnectionError(_))));
}

#[test]
fn reputation_comes_from_agent_record() {
    let reply = "{\"did\":\"d\",\"owner\":\"o\",\"metadata\":\"m\",\"reputation\":42,\"verifications\":3,\"registered_at_block\":7}";
    assert_eq!(ClawChainClient::get_agent_reputation(reply).unwrap(), 42);
}

#[test]
fn call_payloads() {
    assert_eq!(build_vote_call(5, true).unwrap(), "0x020105");
    assert_eq!(build_vote_call(300, false).unwrap(), "0x020012c");
    assert_eq!(build_register_call(VALID, b"m").unwrap(), "0x0149");
    assert!(matches!(build_register_call("did:x", b"m"), Err(ClawChainError::SerializationError(_))));
}
