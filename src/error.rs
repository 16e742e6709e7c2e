use vstd::prelude::*;

verus! {

/// Every failure the client reports.
#[derive(Debug, Clone)]
pub enum ClawChainError {
    /// The endpoint could not be reached, or the connection went away.
    ConnectionError(String),
    /// A submission was not acknowledged with a transaction hash.
    TransactionError(String),
    /// The requested record does not exist.
    NotFound(String),
    /// The node refused the operation.
    Unauthorized(String),
    /// A string does not have the shape of an agent identifier.
    InvalidDID(String),
    /// The node reported an error of its own.
    ChainError(String),
    /// An outgoing call could not be encoded.
    SerializationError(String),
    /// A reply could not be decoded.
    DeserializationError(String),
    /// No reply came within the given number of seconds.
    Timeout(u64),
}

impl ClawChainError {
    /// A human-readable description of the error.
    pub fn message(&self) -> (r: String) {
        let (head, tail) = match self {
            ClawChainError::ConnectionError(m) => ("RPC connection failed: ", m.clone()),
            ClawChainError::TransactionError(m) => ("Transaction failed: ", m.clone()),
            ClawChainError::NotFound(m) => ("Agent not found: ", m.clone()),
            ClawChainError::Unauthorized(m) => ("Unauthorized: ", m.clone()),
            ClawChainError::InvalidDID(m) => ("Invalid DID format: ", m.clone()),
            ClawChainError::ChainError(m) => ("Chain error: ", m.clone()),
            ClawChainError::SerializationError(m) => ("Serialization error: ", m.clone()),
            ClawChainError::DeserializationError(m) => ("Deserialization error: ", m.clone()),
            ClawChainError::Timeout(_) => ("Timeout", String::new()),
        };
        let r = String::from_str(head);
        r.concat(tail.as_str())
    }
}

/// Result of the client's operations.
pub type Result<T> = std::result::Result<T, ClawChainError>;

} // verus!
