use vstd::prelude::*;
use crate::error::{ClawChainError, Result};
use crate::hex::{all_hex, hex_of_nat_min2, is_hex_char, push_hex_u64_min2};
use crate::json::{
    json_bool, json_bool_at, json_is_valid, json_str, json_str_at, json_u128, json_u128_of,
    json_u64, json_u64_at, json_valid,
};
use crate::types::{AgentDID, AgentInfo, AgentInfoModel, ChainEvent, EventModel, is_did};

verus! {

/// The value of a hexadecimal digit.
pub open spec fn hex_digit_value(c: char) -> nat {
    if '0' <= c && c <= '9' {
        (c as u32 - 48) as nat
    } else if 'a' <= c && c <= 'f' {
        (c as u32 - 87) as nat
    } else {
        (c as u32 - 55) as nat
    }
}

/// The number written by a string of hexadecimal digits, most significant first.
pub open spec fn hex_value(s: Seq<char>) -> nat
    decreases s.len(),
{
    if s.len() == 0 {
        0
    } else {
        hex_value(s.drop_last()) * 16 + hex_digit_value(s.last())
    }
}

/// A base-16 numeral read into 128 unsigned bits: at least one hexadecimal
/// digit and nothing else, with a value that fits.
pub open spec fn radix16_u128(s: Seq<char>) -> Option<u128> {
    if s.len() > 0 && all_hex(s) && hex_value(s) <= u128::MAX {
        Some(hex_value(s) as u128)
    } else {
        None
    }
}

/// Whether a reply starts with the hex-numeral marker `0x`.
pub open spec fn has_hex_marker(s: Seq<char>) -> bool {
    s.len() >= 2 && s[0] == '0' && s[1] == 'x'
}

/// A storage reply read as a 128-bit amount: raw hex after the marker,
/// otherwise a JSON number.
pub open spec fn u128_storage_value(s: Seq<char>) -> Option<u128> {
    if has_hex_marker(s) {
        radix16_u128(s.subrange(2, s.len() as int))
    } else {
        json_u128_of(s)
    }
}

/// A missing text field reads as the empty text.
pub open spec fn text_or_empty(o: Option<Seq<char>>) -> Seq<char> {
    match o {
        Some(s) => s,
        None => seq![],
    }
}

/// The characters of an optional string.
pub open spec fn opt_chars(o: Option<String>) -> Option<Seq<char>> {
    match o {
        Some(s) => Some(s@),
        None => None,
    }
}

/// The event announced by a frame with the given fields.
///
/// An `AgentRegistered` method carries the agent's identifier; a
/// `ProposalExecuted` method is a passed proposal when its success flag is
/// set and a rejected one otherwise. Any other method, or none, is read as a
/// new-block notification: that is the fallback for announcements this
/// client does not know, not a loss of them. Absent numbers read as zero,
/// absent flags as false and absent texts as empty.
pub open spec fn event_of(
    method: Option<Seq<char>>,
    did: Option<Seq<char>>,
    proposal_id: Option<u64>,
    success: Option<bool>,
    number: Option<u64>,
    hash: Option<Seq<char>>,
) -> EventModel {
    let id = match proposal_id {
        Some(v) => v,
        None => 0,
    };
    if method == Some("AgentRegistered"@) {
        EventModel::AgentRegistered { did: text_or_empty(did) }
    } else if method == Some("ProposalExecuted"@) {
        if success == Some(true) {
            EventModel::ProposalPassed { id }
        } else {
            EventModel::ProposalRejected { id }
        }
    } else {
        EventModel::Block {
            number: match number {
                Some(v) => v,
                None => 0,
            },
            hash: text_or_empty(hash),
        }
    }
}

/// The event that a well-formed subscription frame announces.
pub open spec fn event_in(text: Seq<char>) -> EventModel {
    event_of(
        json_str_at(text, "/result/event/method"@),
        json_str_at(text, "/result/params/did"@),
        json_u64_at(text, "/result/params/proposal_id"@),
        json_bool_at(text, "/result/params/success"@),
        json_u64_at(text, "/result/params/number"@),
        json_str_at(text, "/result/params/hash"@),
    )
}

/// The agent record made of the given fields: every field present, and the
/// verification count within 32 bits.
pub open spec fn agent_info_of(
    did: Option<Seq<char>>,
    owner: Option<Seq<char>>,
    metadata: Option<Seq<char>>,
    reputation: Option<u64>,
    verifications: Option<u64>,
    registered_at_block: Option<u64>,
) -> Option<AgentInfoModel> {
    if did is Some && owner is Some && metadata is Some && reputation is Some
        && verifications is Some && registered_at_block is Some
        && verifications->Some_0 <= u32::MAX {
        Some(
            AgentInfoModel {
                did: did->Some_0,
                owner: owner->Some_0,
                metadata: metadata->Some_0,
                reputation: reputation->Some_0,
                verifications: verifications->Some_0 as u32,
                registered_at_block: registered_at_block->Some_0,
            },
        )
    } else {
        None
    }
}

/// The agent record held by a storage reply.
pub open spec fn agent_info_in(text: Seq<char>) -> Option<AgentInfoModel> {
    agent_info_of(
        json_str_at(text, "/did"@),
        json_str_at(text, "/owner"@),
        json_str_at(text, "/metadata"@),
        json_u64_at(text, "/reputation"@),
        json_u64_at(text, "/verifications"@),
        json_u64_at(text, "/registered_at_block"@),
    )
}

/// Where a submission acknowledgement carries the transaction hash.
pub open spec fn submit_hash_in(text: Seq<char>) -> Option<Seq<char>> {
    json_str_at(text, "/result/extrinsic_hash"@)
}

/// The register-call payload for a valid identifier: call tag 1, then the
/// identifier's length, each as at least two hex digits, after the marker.
pub open spec fn register_payload(did: Seq<char>) -> Seq<char> {
    "0x"@ + hex_of_nat_min2(1) + hex_of_nat_min2(did.len())
}

/// The vote payload: call tag 2, the approval flag, then the proposal id,
/// each as at least two hex digits, after the marker.
pub open spec fn vote_payload(proposal_id: u64, approve: bool) -> Seq<char> {
    "0x"@ + hex_of_nat_min2(2) + hex_of_nat_min2(if approve { 1 } else { 0 })
        + hex_of_nat_min2(proposal_id as nat)
}

/// Whether two texts are equal, character by character.
pub fn text_eq(a: &str, b: &str) -> (r: bool)
    ensures
        r == (a@ == b@),
{
    let n = a.unicode_len();
    if n != b.unicode_len() {
        return false;
    }
    let mut i: usize = 0;
    while i < n
        invariant
            n == a@.len() == b@.len(),
            i <= n,
            forall|j: int| 0 <= j < i ==> a@[j] == b@[j],
        decreases n - i,
    {
        if a.get_char(i) != b.get_char(i) {
            return false;
        }
        i = i + 1;
    }
    assert(a@ =~= b@);
    true
}

/// The value of a hexadecimal digit, or `None` for any other character.
pub fn hex_digit(c: char) -> (r: Option<u8>)
    ensures
        r is Some <==> is_hex_char(c),
        r is Some ==> r->Some_0 as nat == hex_digit_value(c) && r->Some_0 < 16,
{
    if '0' <= c && c <= '9' {
        Some((c as u32 - 48) as u8)
    } else if 'a' <= c && c <= 'f' {
        Some((c as u32 - 87) as u8)
    } else if 'A' <= c && c <= 'F' {
        Some((c as u32 - 55) as u8)
    } else {
        None
    }
}

/// A prefix of a digit string never writes a larger number.
pub proof fn lemma_hex_value_prefix(s: Seq<char>, j: int)
    requires
        0 <= j <= s.len(),
    ensures
        hex_value(s.subrange(0, j)) <= hex_value(s),
    decreases s.len(),
{
    if j < s.len() {
        lemma_hex_value_prefix(s.drop_last(), j);
        assert(s.drop_last().subrange(0, j) =~= s.subrange(0, j));
    } else {
        assert(s.subrange(0, j) =~= s);
    }
}

/// Reads a base-16 numeral into 128 unsigned bits: hex digits in either
/// case and nothing else; empty input, any other character (a sign
/// included) or overflow gives `None`.
pub fn parse_hex_u128(s: &str) -> (r: Option<u128>)
    ensures
        r == radix16_u128(s@),
{
    let n = s.unicode_len();
    let ghost d = s@;
    if n == 0 {
        return None;
    }
    let mut v: u128 = 0;
    let mut i: usize = 0;
    while i < n
        invariant
            n == s@.len(),
            i <= n,
            0 < n,
            d == s@,
            v as nat == hex_value(d.subrange(0, i as int)),
            all_hex(d.subrange(0, i as int)),
        decreases n - i,
    {
        let c = s.get_char(i);
        let ghost k = i as int;
        let dv = match hex_digit(c) {
            Some(x) => x,
            None => {
                assert(d[k] == c);
                assert(!is_hex_char(d[k]));
                assert(!all_hex(d));
                return None;
            },
        };
        proof {
            let next = d.subrange(0, k + 1);
            assert(next.drop_last() =~= d.subrange(0, k));
            assert(next.last() == c);
            assert(hex_value(next) == v as nat * 16 + dv as nat);
            assert forall|j: int| 0 <= j < next.len() implies is_hex_char(#[trigger] next[j]) by {
                if j < k {
                    assert(next[j] == d.subrange(0, k)[j]);
                }
            }
        }
        match v.checked_mul(16) {
            Some(m) => match m.checked_add(dv as u128) {
                Some(w) => {
                    v = w;
                },
                None => {
                    proof {
                        lemma_hex_value_prefix(d, k + 1);
                    }
                    return None;
                },
            },
            None => {
                proof {
                    lemma_hex_value_prefix(d, k + 1);
                    assert(hex_value(d) > u128::MAX);
                }
                return None;
            },
        }
        i = i + 1;
    }
    assert(d.subrange(0, n as int) =~= d);
    Some(v)
}

/// Decodes a storage reply holding a 128-bit amount. A reply that starts
/// with `0x` is raw hex; any other reply is read as a JSON number. A reply
/// that is neither is a `DeserializationError`.
pub fn parse_u128_storage(response: &str) -> (r: Result<u128>)
    ensures
        match r {
            Ok(v) => u128_storage_value(response@) == Some(v),
            Err(e) => u128_storage_value(response@) is None && e is DeserializationError,
        },
{
    let n = response.unicode_len();
    let decoded = if n >= 2 && response.get_char(0) == '0' && response.get_char(1) == 'x' {
        parse_hex_u128(response.substring_char(2, n))
    } else {
        json_u128(response)
    };
    match decoded {
        Some(v) => Ok(v),
        None => Err(ClawChainError::DeserializationError(String::from_str("Invalid storage value"))),
    }
}

/// Builds the event that frames with the given fields announce.
pub fn event_from_fields(
    method: Option<String>,
    did: Option<String>,
    proposal_id: Option<u64>,
    success: Option<bool>,
    number: Option<u64>,
    hash: Option<String>,
) -> (r: ChainEvent)
    ensures
        r@ == event_of(opt_chars(method), opt_chars(did), proposal_id, success, number, opt_chars(hash)),
{
    let registered = "AgentRegistered";
    let executed = "ProposalExecuted";
    let id = match proposal_id {
        Some(v) => v,
        None => 0,
    };
    let (is_registered, is_executed) = match &method {
        Some(m) => (text_eq(m.as_str(), registered), text_eq(m.as_str(), executed)),
        None => (false, false),
    };
    if is_registered {
        ChainEvent::AgentRegistered { did: text_or_new(did) }
    } else if is_executed {
        let passed = match success {
            Some(b) => b,
            None => false,
        };
        if passed {
            ChainEvent::ProposalPassed { id }
        } else {
            ChainEvent::ProposalRejected { id }
        }
    } else {
        let number = match number {
            Some(v) => v,
            None => 0,
        };
        ChainEvent::Block { number, hash: text_or_new(hash) }
    }
}

/// The string held, or a new empty one.
fn text_or_new(o: Option<String>) -> (r: String)
    ensures
        r@ == text_or_empty(opt_chars(o)),
{
    match o {
        Some(s) => s,
        None => String::new(),
    }
}

/// Decodes a subscription frame into the event it announces (see
/// `event_of`). Text that is not a JSON document is a `DeserializationError`.
pub fn parse_chain_event(text: &str) -> (r: Result<ChainEvent>)
    ensures
        match r {
            Ok(e) => json_is_valid(text@) && e@ == event_in(text@),
            Err(e) => !json_is_valid(text@) && e is DeserializationError,
        },
{
    if !json_valid(text) {
        return Err(ClawChainError::DeserializationError(String::from_str("Malformed event frame")));
    }
    let method = json_str(text, "/result/event/method");
    let did = json_str(text, "/result/params/did");
    let proposal_id = json_u64(text, "/result/params/proposal_id");
    let success = json_bool(text, "/result/params/success");
    let number = json_u64(text, "/result/params/number");
    let hash = json_str(text, "/result/params/hash");
    Ok(event_from_fields(method, did, proposal_id, success, number, hash))
}

/// Builds the agent record made of the given fields (see `agent_info_of`).
pub fn agent_info_from_fields(
    did: Option<String>,
    owner: Option<String>,
    metadata: Option<String>,
    reputation: Option<u64>,
    verifications: Option<u64>,
    registered_at_block: Option<u64>,
) -> (r: Option<AgentInfo>)
    ensures
        match r {
            Some(a) => agent_info_of(
                opt_chars(did),
                opt_chars(owner),
                opt_chars(metadata),
                reputation,
                verifications,
                registered_at_block,
            ) == Some(a@),
            None => agent_info_of(
                opt_chars(did),
                opt_chars(owner),
                opt_chars(metadata),
                reputation,
                verifications,
                registered_at_block,
            ) is None,
        },
{
    match (did, owner, metadata, reputation, verifications, registered_at_block) {
        (Some(did), Some(owner), Some(metadata), Some(reputation), Some(v), Some(registered_at_block)) => {
            if v <= u32::MAX as u64 {
                Some(AgentInfo { did, owner, metadata, reputation, verifications: v as u32, registered_at_block })
            } else {
                None
            }
        },
        _ => None,
    }
}

/// Decodes a storage reply holding an agent record: a JSON object with the
/// record's six fields. Anything else is a `DeserializationError`.
pub fn parse_agent_storage(response: &str) -> (r: Result<AgentInfo>)
    ensures
        match r {
            Ok(a) => agent_info_in(response@) == Some(a@),
            Err(e) => agent_info_in(response@) is None && e is DeserializationError,
        },
{
    let info = agent_info_from_fields(
        json_str(response, "/did"),
        json_str(response, "/owner"),
        json_str(response, "/metadata"),
        json_u64(response, "/reputation"),
        json_u64(response, "/verifications"),
        json_u64(response, "/registered_at_block"),
    );
    match info {
        Some(a) => Ok(a),
        None => Err(ClawChainError::DeserializationError(String::from_str("Malformed agent record"))),
    }
}

/// Turns the hash found in a submission acknowledgement into the result of
/// the submission: no hash is a `TransactionError`.
pub fn decode_submit_ack(hash: Option<String>) -> (r: Result<String>)
    ensures
        match r {
            Ok(h) => opt_chars(hash) == Some(h@),
            Err(e) => hash is None && e is TransactionError,
        },
{
    match hash {
        Some(h) => Ok(h),
        None => Err(ClawChainError::TransactionError(String::from_str("No tx hash"))),
    }
}

/// Decodes a submission acknowledgement into its transaction hash, found at
/// `result.extrinsic_hash`. A reply without it is a `TransactionError`.
pub fn parse_submit_response(response: &str) -> (r: Result<String>)
    ensures
        match r {
            Ok(h) => submit_hash_in(response@) == Some(h@),
            Err(e) => submit_hash_in(response@) is None && e is TransactionError,
        },
{
    decode_submit_ack(json_str(response, "/result/extrinsic_hash"))
}

/// Encodes the call that registers the agent `did`. An identifier of the
/// wrong shape cannot be encoded: `SerializationError`. The metadata does
/// not enter this payload.
pub fn build_register_call(did: &str, metadata: &[u8]) -> (r: Result<String>)
    ensures
        match r {
            Ok(p) => is_did(did@) && p@ == register_payload(did@),
            Err(e) => !is_did(did@) && e is SerializationError,
        },
{
    match AgentDID::parse(did) {
        Ok(_) => {},
        Err(_) => {
            return Err(ClawChainError::SerializationError(String::from_str("Invalid DID for register call")));
        },
    }
    let mut p = String::from_str("0x");
    push_hex_u64_min2(&mut p, 1);
    push_hex_u64_min2(&mut p, did.unicode_len() as u64);
    Ok(p)
}

/// Encodes the call that votes on a proposal.
pub fn build_vote_call(proposal_id: u64, approve: bool) -> (r: Result<String>)
    ensures
        r is Ok,
        r->Ok_0@ == vote_payload(proposal_id, approve),
{
    let mut p = String::from_str("0x");
    push_hex_u64_min2(&mut p, 2);
    push_hex_u64_min2(&mut p, if approve { 1 } else { 0 });
    push_hex_u64_min2(&mut p, proposal_id);
    Ok(p)
}

} // verus!
