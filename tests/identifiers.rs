use clawchain::{AgentDID, ClawChainError};

const GIVEN: &str = "did:claw:1234567890abcdef1234567890abcdef1234567890abcdef1234567890abcdef12";
const VALID: &str = "did:claw:1234567890abcdef1234567890abcdef1234567890abcdef1234567890abcdef";

#[test]
fn test_agent_did_parse() {
    // The given text has 66 digits after the prefix; an identifier has exactly 64.
    assert!(matches!(AgentDID::parse(GIVEN), Err(ClawChainError::InvalidDID(_))));
    let did = AgentDID::parse(VALID).unwrap();
    assert_eq!(did.as_str(), VALID);
}

#[test]
fn test_agent_did_generate() {
    let metadata = "{\"name\":\"test\"}";
    let owner = "0x1234567890abcdef1234567890abcdef1234567890";
    let did = AgentDID::generate(metadata.as_bytes(), owner);

    assert!(did.as_str().starts_with("did:claw:"));
    assert_eq!(did.as_str().len(), 9 + 64); // "did:claw:" + 64 hex chars
}

#[test]
fn test_agent_did_parse_invalid() {
    let result = AgentDID::parse("did:eth:123456");
    assert!(result.is_err());
}

#[test]
fn parse_rejects_uppercase_digits() {
    let s = "did:claw:ABCDEF7890abcdef1234567890abcdef1234567890abcdef1234567890ABCDEF";
    assert!(matches!(AgentDID::parse(s), Err(ClawChainError::InvalidDID(_))));
}

#[test]
fn parse_rejects_wrong_prefix_of_right_length() {
    let s = "did:clay:1234567890abcdef1234567890abcdef1234567890abcdef1234567890abcdef";
    assert!(matches!(AgentDID::parse(s), Err(ClawChainError::InvalidDID(_))));
}

#[test]
fn parse_rejects_short_hash() {
    let s = "did:claw:1234567890abcdef1234567890abcdef1234567890abcdef1234567890abcde";
    assert!(matches!(AgentDID::parse(s), Err(ClawChainError::InvalidDID(_))));
}

#[test]
fn parse_rejects_non_hex_digit() {
    let s = "did:claw:1234567890abcdef1234567890abcdef1234567890abcdef1234567890abcdeg";
    assert!(matches!(AgentDID::parse(s), Err(ClawChainError::InvalidDID(_))));
}

#[test]
fn parse_rejects_empty() {
    assert!(matches!(AgentDID::parse(""), Err(ClawChainError::InvalidDID(_))));
}

#[test]
fn generate_is_sha256_of_metadata_then_owner() {
    let did = AgentDID::generate(
        "{\"name\":\"test\"}".as_bytes(),
        "0x1234567890abcdef1234567890abcdef1234567890",
    );
    assert_eq!(
        did.as_str(),
        "did:claw:424517a6ddf16794733c89dc935f22b7c6484a23e6ad8d028665c62a9cac82db"
    );
}

#[test]
fn generate_is_deterministic_and_parses() {
    let a = AgentDID::generate(b"meta", "owner");
    let b = AgentDID::generate(b"meta", "owner");
    let c = AgentDID::generate(b"meta", "other");
    assert_eq!(a.as_str(), b.as_str());
    assert_ne!(a.as_str(), c.as_str());
    assert_eq!(AgentDID::parse(a.as_str()).unwrap().as_str(), a.as_str());
}

#[test]
fn error_message_names_the_kind() {
    let e = ClawChainError::TransactionError("No tx hash".to_string());
    assert_eq!(e.message(), "Transaction failed: No tx hash");
}
