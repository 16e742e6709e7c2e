use vstd::prelude::*;
use crate::error::{ClawChainError, Result};
use crate::hashing::{sha256_concat, sha256_of};
use crate::hex::{
    all_lower_hex, hex_of_bytes, is_lower_hex_char, lemma_hex_of_bytes, push_hex_bytes,
};

verus! {

/// The prefix every agent identifier carries.
pub open spec fn did_prefix() -> Seq<char> {
    "did:claw:"@
}

/// Whether `s` is an agent identifier: the prefix followed by exactly 64
/// hexadecimal digits.
pub open spec fn is_did(s: Seq<char>) -> bool {
    &&& s.len() == 73
    &&& s.subrange(0, 9) == did_prefix()
    &&& all_lower_hex(s.subrange(9, 73))
}

/// What parsing `s` yields: the identifier itself, or nothing.
pub open spec fn did_parse_outcome(s: Seq<char>) -> Option<Seq<char>> {
    if is_did(s) {
        Some(s)
    } else {
        None
    }
}

/// The identifier derived from an agent's metadata and its owner's address:
/// the prefix, then the SHA-256 digest of the metadata bytes followed by the
/// owner's UTF-8 bytes, in lowercase hex.
pub open spec fn generated_did(metadata: Seq<u8>, owner: Seq<char>) -> Seq<char> {
    did_prefix() + hex_of_bytes(sha256_of(metadata + utf8_of(owner)))
}

/// UTF-8 bytes of a character sequence.
pub open spec fn utf8_of(s: Seq<char>) -> Seq<u8> {
    vstd::utf8::encode_utf8(s)
}

/// A validated agent identifier, `did:claw:` followed by 64 lowercase hex digits.
#[derive(Debug)]
pub struct AgentDID(String);

impl View for AgentDID {
    type V = Seq<char>;

    closed spec fn view(&self) -> Seq<char> {
        self.0@
    }
}

impl AgentDID {
    #[verifier::type_invariant]
    spec fn well_formed(self) -> bool {
        is_did(self.0@)
    }

    /// Validates `did` and wraps it; any other shape is `InvalidDID`.
    pub fn parse(did: &str) -> (r: Result<AgentDID>)
        ensures
            match r {
                Ok(d) => did_parse_outcome(did@) == Some(d@),
                Err(e) => did_parse_outcome(did@) is None && e is InvalidDID,
            },
    {
        let prefix = "did:claw:";
        proof {
            reveal_strlit("did:claw:");
        }
        let n = did.unicode_len();
        if n != 73 {
            return Err(ClawChainError::InvalidDID(String::from_str("Expected 'did:claw:' followed by a 64-char hash")));
        }
        let mut i: usize = 0;
        while i < 9
            invariant
                n == did@.len() == 73,
                prefix@ == did_prefix(),
                prefix@.len() == 9,
                i <= 9,
                forall|j: int| 0 <= j < i ==> did@[j] == prefix@[j],
            decreases 9 - i,
        {
            if did.get_char(i) != prefix.get_char(i) {
                return Err(ClawChainError::InvalidDID(String::from_str("Expected 'did:claw:' prefix")));
            }
            i = i + 1;
        }
        assert(did@.subrange(0, 9) =~= did_prefix());
        while i < 73
            invariant
                n == did@.len() == 73,
                9 <= i <= 73,
                forall|j: int| 9 <= j < i ==> is_lower_hex_char(#[trigger] did@[j]),
            decreases 73 - i,
        {
            let c = did.get_char(i);
            if !(('0' <= c && c <= '9') || ('a' <= c && c <= 'f')) {
                assert(!is_lower_hex_char(did@.subrange(9, 73)[i - 9]));
                return Err(ClawChainError::InvalidDID(String::from_str("Expected a lowercase hexadecimal hash")));
            }
            i = i + 1;
        }
        assert(all_lower_hex(did@.subrange(9, 73)));
        Ok(AgentDID(String::from_str(did)))
    }

    /// The identifier as text.
    pub fn as_str(&self) -> (r: &str)
        ensures
            r@ == self@,
            is_did(r@),
    {
        proof {
            use_type_invariant(self);
        }
        self.0.as_str()
    }

    /// Derives an identifier from an agent's metadata and its owner's
    /// address: the prefix followed by the SHA-256 digest of the metadata
    /// bytes and then the owner's UTF-8 bytes, in lowercase hex.
    pub fn generate(metadata: &[u8], owner: &str) -> (r: AgentDID)
        ensures
            r@ == generated_did(metadata@, owner@),
            is_did(r@),
    {
        let digest = sha256_concat(metadata, owner.as_bytes());
        let mut s = String::from_str("did:claw:");
        proof {
            reveal_strlit("did:claw:");
        }
        push_hex_bytes(&mut s, digest.as_slice());
        proof {
            lemma_hex_of_bytes(digest@);
            assert(s@.subrange(0, 9) =~= did_prefix());
            assert(s@.subrange(9, 73) =~= hex_of_bytes(digest@));
        }
        AgentDID(s)
    }
}


/// Registry record of one agent, as stored by the node.
#[derive(Debug, Clone)]
pub struct AgentInfo {
    pub did: String,
    pub owner: String,
    pub metadata: String,
    pub reputation: u64,
    pub verifications: u32,
    pub registered_at_block: u64,
}

/// Governance proposal.
#[derive(Debug, Clone)]
pub struct Proposal {
    pub id: u64,
    pub proposer: String,
    pub title: String,
    pub description: String,
    pub yes_votes: u64,
    pub no_votes: u64,
    pub status: ProposalStatus,
}

/// Stage of a proposal's life.
#[derive(Debug, Clone, Copy, PartialEq, Eq, Structural)]
pub enum ProposalStatus {
    Pending,
    Active,
    Passed,
    Rejected,
    Executed,
}

/// Something that happened on chain, as announced on a subscription.
#[derive(Debug, Clone)]
pub enum ChainEvent {
    Block { number: u64, hash: String },
    AgentRegistered { did: String },
    AgentVerified { did: String, by: String },
    ProposalCreated { id: u64 },
    ProposalPassed { id: u64 },
    ProposalRejected { id: u64 },
    TokenTransfer { from: String, to: String, amount: u128 },
}

/// A chain event with its text fields as character sequences.
pub enum EventModel {
    Block { number: u64, hash: Seq<char> },
    AgentRegistered { did: Seq<char> },
    AgentVerified { did: Seq<char>, by: Seq<char> },
    ProposalCreated { id: u64 },
    ProposalPassed { id: u64 },
    ProposalRejected { id: u64 },
    TokenTransfer { from: Seq<char>, to: Seq<char>, amount: u128 },
}

impl View for ChainEvent {
    type V = EventModel;

    open spec fn view(&self) -> EventModel {
        match self {
            ChainEvent::Block { number, hash } => EventModel::Block { number: *number, hash: hash@ },
            ChainEvent::AgentRegistered { did } => EventModel::AgentRegistered { did: did@ },
            ChainEvent::AgentVerified { did, by } => EventModel::AgentVerified { did: did@, by: by@ },
            ChainEvent::ProposalCreated { id } => EventModel::ProposalCreated { id: *id },
            ChainEvent::ProposalPassed { id } => EventModel::ProposalPassed { id: *id },
            ChainEvent::ProposalRejected { id } => EventModel::ProposalRejected { id: *id },
            ChainEvent::TokenTransfer { from, to, amount } => EventModel::TokenTransfer {
                from: from@,
                to: to@,
                amount: *amount,
            },
        }
    }
}

/// An agent record with its text fields as character sequences.
pub struct AgentInfoModel {
    pub did: Seq<char>,
    pub owner: Seq<char>,
    pub metadata: Seq<char>,
    pub reputation: u64,
    pub verifications: u32,
    pub registered_at_block: u64,
}

impl View for AgentInfo {
    type V = AgentInfoModel;

    open spec fn view(&self) -> AgentInfoModel {
        AgentInfoModel {
            did: self.did@,
            owner: self.owner@,
            metadata: self.metadata@,
            reputation: self.reputation,
            verifications: self.verifications,
            registered_at_block: self.registered_at_block,
        }
    }
}

} // verus!
