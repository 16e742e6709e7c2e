use clawchain::client::{
    classify_frame, events_from_frames, is_reply_to, on_subscription_frame, reply_result, FrameKind,
};
use clawchain::codec::{decode_submit_ack, event_from_fields, parse_chain_event, parse_submit_response};
use clawchain::{ChainEvent, ClawChainError};

const VALID: &str = "did:claw:1234567890abcdef1234567890abcdef1234567890abcdef1234567890abcdef";

fn registered_frame() -> String {
    format!(
        "{{\"result\":{{\"event\":{{\"method\":\"AgentRegistered\"}},\"params\":{{\"did\":\"{VALID}\"}}}}}}"
    )
}

#[test]
fn submit_ack_yields_hash() {
    assert_eq!(
        parse_submit_response("{\"result\":{\"extrinsic_hash\":\"0xabc123\"}}").unwrap(),
        "0xabc123"
    );
}

#[test]
fn submit_ack_without_hash_fails() {
    assert!(matches!(
        parse_submit_response("{\"result\":{}}"),
        Err(ClawChainError::TransactionError(_))
    ));
    assert!(matches!(parse_submit_response("not json"), Err(ClawChainError::TransactionError(_))));
    assert!(matches!(decode_submit_ack(None), Err(ClawChainError::TransactionError(_))));
    assert_eq!(decode_submit_ack(Some("0x1".to_string())).unwrap(), "0x1");
}

#[test]
fn agent_registered_event() {
    match parse_chain_event(&registered_frame()).unwrap() {
        ChainEvent::AgentRegistered { did } => assert_eq!(did, VALID),
        other => panic!("unexpected {other:?}"),
    }
}

#[test]
fn proposal_executed_without_success_is_rejected() {
    let text = "{\"result\":{\"event\":{\"method\":\"ProposalExecuted\"},\"params\":{\"proposal_id\":9,\"success\":false}}}";
    assert!(matches!(parse_chain_event(text).unwrap(), ChainEvent::ProposalRejected { id: 9 }));
    let absent = "{\"result\":{\"event\":{\"method\":\"ProposalExecuted\"},\"params\":{}}}";
    assert!(matches!(parse_chain_event(absent).unwrap(), ChainEvent::ProposalRejected { id: 0 }));
}

#[test]
fn proposal_executed_with_success_is_passed() {
    let text = "{\"result\":{\"event\":{\"method\":\"ProposalExecuted\"},\"params\":{\"proposal_id\":4,\"success\":true}}}";
    assert!(matches!(parse_chain_event(text).unwrap(), ChainEvent::ProposalPassed { id: 4 }));
}

#[test]
fn unknown_method_is_block_with_defaults() {
    let text = "{\"result\":{\"event\":{\"method\":\"Whatever\"},\"params\":{\"hash\":\"0xbeef\"}}}";
    match parse_chain_event(text).unwrap() {
        ChainEvent::Block { number, hash } => {
            assert_eq!(number, 0);
            assert_eq!(hash, "0xbeef");
        }
        other => panic!("unexpected {other:?}"),
    }
    match parse_chain_event("{}").unwrap() {
        ChainEvent::Block { number, hash } => {
            assert_eq!(number, 0);
            assert_eq!(hash, "");
        }
        other => panic!("unexpected {other:?}"),
    }
}

#[test]
fn block_event_reads_number() {
    let text = "{\"result\":{\"params\":{\"number\":77,\"hash\":\"0x1\"}}}";
    assert!(matches!(parse_chain_event(text).unwrap(), ChainEvent::Block { number: 77, .. }));
}

#[test]
fn malformed_event_fails() {
    assert!(matches!(parse_chain_event("{oops"), Err(ClawChainError::DeserializationError(_))));
}

#[test]
fn events_from_fields_defaults() {
    let e = event_from_fields(Some("AgentRegistered".to_string()), None, None, None, None, None);
    assert!(matches!(e, ChainEvent::AgentRegistered { did } if did.is_empty()));
}

#[test]
fn malformed_frame_then_registered_frame_gives_one_event() {
    let frames = vec!["{not json".to_string(), registered_frame()];
    let events = events_from_frames(&frames);
    assert_eq!(events.len(), 1);
    assert!(matches!(&events[0], ChainEvent::AgentRegistered { did } if did == VALID));
    assert!(on_subscription_frame("{not json").is_none());
}

#[test]
fn frames_with_ids_are_replies() {
    assert_eq!(classify_frame("{\"id\":3,\"result\":\"0x\"}"), FrameKind::Reply(3));
    assert_eq!(classify_frame(&registered_frame()), FrameKind::Push);
}

#[test]
fn reply_ids_match_requests() {
    assert!(is_reply_to("{\"id\":3,\"result\":\"0x\"}", 3));
    assert!(!is_reply_to("{\"id\":4,\"result\":\"0x\"}", 3));
    assert!(!is_reply_to(&registered_frame(), 3));
}

#[test]
fn reply_result_reads_string_or_json() {
    assert_eq!(reply_result("{\"id\":1,\"result\":\"0xff\"}").unwrap(), "0xff");
    assert_eq!(reply_result("{\"id\":1,\"result\":{\"a\":1}}").unwrap(), "{\"a\":1}");
    assert_eq!(reply_result("{\"id\":1,\"result\":12}").unwrap(), "12");
    assert!(matches!(reply_result("{\"id\":1}"), Err(ClawChainError::DeserializationError(_))));
    assert!(matches!(reply_result("nope"), Err(ClawChainError::DeserializationError(_))));
}
