use vstd::prelude::*;
use crate::codec::{
    agent_info_in, build_register_call, build_vote_call, event_in, parse_agent_storage,
    parse_chain_event, register_payload, vote_payload,
};
use crate::error::{ClawChainError, Result};
use crate::json::{json_is_valid, json_str, json_str_at, json_text, json_text_at, json_u64, json_u64_at};
use crate::keys::{balance_key_for_did, storage_address_of, storage_key_for_agent};
use crate::types::{AgentDID, ChainEvent, EventModel, generated_did, is_did, utf8_of};

verus! {

/// Whether `s` is an absolute URL.
pub uninterp spec fn parses_as_url(s: Seq<char>) -> bool;

/// Relies on url::Url::parse: whether the endpoint is a URL it accepts.
#[verifier::external_body]
fn url_is_valid(s: &str) -> (r: bool)
    ensures
        r == parses_as_url(s@),
{
    url::Url::parse(s).is_ok()
}

/// Stage of the connection to the node.
#[derive(Debug, Clone, Copy, PartialEq, Eq, Structural)]
pub enum ConnectionState {
    Disconnected,
    Connecting,
    Connected,
    Closed,
}

/// What the transport reports about the connection.
#[derive(Debug, Clone, Copy, PartialEq, Eq, Structural)]
pub enum TransportEvent {
    OpenRequested,
    HandshakeCompleted,
    HandshakeFailed,
    RemoteClosed,
    ProtocolFailure,
}

/// The connection's next stage. Opening moves a disconnected session to
/// connecting; a completed handshake makes it connected and a failed one
/// closes it; the remote closing the stream, or a failed send or receive,
/// closes it from any stage. Closed is final; anything else leaves the stage
/// as it is.
pub open spec fn next_state(s: ConnectionState, e: TransportEvent) -> ConnectionState {
    match (s, e) {
        (ConnectionState::Closed, _) => ConnectionState::Closed,
        (_, TransportEvent::RemoteClosed) => ConnectionState::Closed,
        (_, TransportEvent::ProtocolFailure) => ConnectionState::Closed,
        (ConnectionState::Disconnected, TransportEvent::OpenRequested) => ConnectionState::Connecting,
        (ConnectionState::Connecting, TransportEvent::HandshakeCompleted) => ConnectionState::Connected,
        (ConnectionState::Connecting, TransportEvent::HandshakeFailed) => ConnectionState::Closed,
        _ => s,
    }
}

/// One outbound call: protocol version, method, parameters and the id its
/// reply carries.
#[derive(Debug, Clone)]
pub struct Request {
    pub jsonrpc: String,
    pub method: String,
    pub params: Vec<String>,
    pub id: u64,
}

/// A request with its texts as character sequences.
pub struct RequestModel {
    pub jsonrpc: Seq<char>,
    pub method: Seq<char>,
    pub params: Seq<Seq<char>>,
    pub id: u64,
}

impl View for Request {
    type V = RequestModel;

    open spec fn view(&self) -> RequestModel {
        RequestModel {
            jsonrpc: self.jsonrpc@,
            method: self.method@,
            params: self.params@.map_values(|p: String| p@),
            id: self.id,
        }
    }
}

/// The request a session issues: version `2.0`, the given method and
/// parameters, and the given id.
pub open spec fn request_of(method: Seq<char>, params: Seq<Seq<char>>, id: u64) -> RequestModel {
    RequestModel { jsonrpc: "2.0"@, method, params, id }
}

/// How an inbound frame is routed: a reply to the request with that id, or a
/// push on a subscription.
#[derive(Debug, Clone, Copy, PartialEq, Eq, Structural)]
pub enum FrameKind {
    Reply(u64),
    Push,
}

/// Frames that carry an id are replies; all others are pushes.
pub open spec fn frame_kind_of(text: Seq<char>) -> FrameKind {
    match json_u64_at(text, "/id"@) {
        Some(id) => FrameKind::Reply(id),
        None => FrameKind::Push,
    }
}

/// The events a run of subscription frames hands to its consumer, in order:
/// one per well-formed frame; malformed frames are skipped.
pub open spec fn frame_events(frames: Seq<Seq<char>>) -> Seq<EventModel>
    decreases frames.len(),
{
    if frames.len() == 0 {
        seq![]
    } else if json_is_valid(frames.last()) {
        frame_events(frames.drop_last()) + seq![event_in(frames.last())]
    } else {
        frame_events(frames.drop_last())
    }
}

/// Bookkeeping of one session with a node.
pub struct ClientModel {
    pub endpoint: Seq<char>,
    pub state: ConnectionState,
    pub next_id: u64,
}

/// A session with a node: its endpoint, the stage of its connection, and
/// the id the next request gets. Ids increase with every request, so no two
/// requests of a session share one.
pub struct ClawChainClient {
    endpoint: String,
    state: ConnectionState,
    next_id: u64,
}

impl View for ClawChainClient {
    type V = ClientModel;

    closed spec fn view(&self) -> ClientModel {
        ClientModel { endpoint: self.endpoint@, state: self.state, next_id: self.next_id }
    }
}

impl ClawChainClient {
    /// Starts a session with the endpoint `url`, about to open its
    /// connection. An endpoint that is not a URL is a `ConnectionError`.
    pub fn new(url: &str) -> (r: Result<ClawChainClient>)
        ensures
            match r {
                Ok(c) => parses_as_url(url@) && c@ == (ClientModel {
                    endpoint: url@,
                    state: ConnectionState::Connecting,
                    next_id: 1,
                }),
                Err(e) => !parses_as_url(url@) && e is ConnectionError,
            },
    {
        if !url_is_valid(url) {
            return Err(ClawChainError::ConnectionError(String::from_str("Invalid endpoint URL")));
        }
        Ok(ClawChainClient { endpoint: String::from_str(url), state: ConnectionState::Connecting, next_id: 1 })
    }

    /// The endpoint of the session.
    pub fn endpoint(&self) -> (r: &str)
        ensures
            r@ == self@.endpoint,
    {
        self.endpoint.as_str()
    }

    /// The stage of the connection.
    pub fn state(&self) -> (r: ConnectionState)
        ensures
            r == self@.state,
    {
        self.state
    }

    /// The id the next request will carry.
    pub fn next_id(&self) -> (r: u64)
        ensures
            r == self@.next_id,
    {
        self.next_id
    }

    /// Whether the connection is up.
    pub fn is_connected(&self) -> (r: bool)
        ensures
            r == (self@.state == ConnectionState::Connected),
    {
        self.state == ConnectionState::Connected
    }

    /// Records what the transport reported.
    pub fn on_transport_event(&mut self, e: TransportEvent)
        ensures
            final(self)@ == (ClientModel { state: next_state(old(self)@.state, e), ..old(self)@ }),
    {
        self.state = match (self.state, e) {
            (ConnectionState::Closed, _) => ConnectionState::Closed,
            (_, TransportEvent::RemoteClosed) => ConnectionState::Closed,
            (_, TransportEvent::ProtocolFailure) => ConnectionState::Closed,
            (ConnectionState::Disconnected, TransportEvent::OpenRequested) => ConnectionState::Connecting,
            (ConnectionState::Connecting, TransportEvent::HandshakeCompleted) => ConnectionState::Connected,
            (ConnectionState::Connecting, TransportEvent::HandshakeFailed) => ConnectionState::Closed,
            (s, _) => s,
        };
    }

    /// Issues a request with the next id, on a connected session.
    fn issue(&mut self, method: &str, params: Vec<String>) -> (r: Result<Request>)
        requires
            old(self)@.next_id < u64::MAX,
        ensures
            match r {
                Ok(q) => old(self)@.state == ConnectionState::Connected
                    && q@ == request_of(method@, params@.map_values(|p: String| p@), old(self)@.next_id)
                    && final(self)@ == (ClientModel { next_id: (old(self)@.next_id + 1) as u64, ..old(self)@ }),
                Err(e) => old(self)@.state != ConnectionState::Connected && e is ConnectionError
                    && final(self)@ == old(self)@,
            },
    {
        if self.state != ConnectionState::Connected {
            return Err(ClawChainError::ConnectionError(String::from_str("Not connected")));
        }
        let id = self.next_id;
        self.next_id = self.next_id + 1;
        Ok(Request { jsonrpc: String::from_str("2.0"), method: String::from_str(method), params, id })
    }

    /// The subscription to finalized heads that completes the handshake; it
    /// is sent while the connection is being opened.
    pub fn handshake(&mut self) -> (r: Result<Request>)
        requires
            old(self)@.next_id < u64::MAX,
        ensures
            match r {
                Ok(q) => old(self)@.state == ConnectionState::Connecting
                    && q@ == request_of("chain_subscribeFinalizedHeads"@, seq![], old(self)@.next_id)
                    && final(self)@ == (ClientModel { next_id: (old(self)@.next_id + 1) as u64, ..old(self)@ }),
                Err(e) => old(self)@.state != ConnectionState::Connecting && e is ConnectionError
                    && final(self)@ == old(self)@,
            },
    {
        if self.state != ConnectionState::Connecting {
            return Err(ClawChainError::ConnectionError(String::from_str("Handshake outside connection setup")));
        }
        let id = self.next_id;
        self.next_id = self.next_id + 1;
        let params: Vec<String> = Vec::new();
        let q = Request {
            jsonrpc: String::from_str("2.0"),
            method: String::from_str("chain_subscribeFinalizedHeads"),
            params,
            id,
        };
        assert(q@.params =~= seq![]);
        Ok(q)
    }

    /// The storage read for an agent's record; decode its reply with
    /// `parse_agent_storage`.
    pub fn get_agent(&mut self, did: &str) -> (r: Result<Request>)
        requires
            old(self)@.next_id < u64::MAX,
        ensures
            match r {
                Ok(q) => old(self)@.state == ConnectionState::Connected
                    && q@ == request_of(
                        "state_getStorage"@,
                        seq!["0x"@ + storage_address_of(utf8_of("Agents"@), utf8_of(did@))],
                        old(self)@.next_id,
                    )
                    && final(self)@ == (ClientModel { next_id: (old(self)@.next_id + 1) as u64, ..old(self)@ }),
                Err(e) => old(self)@.state != ConnectionState::Connected && e is ConnectionError
                    && final(self)@ == old(self)@,
            },
    {
        let key = String::from_str("0x").concat(storage_key_for_agent(did).as_str());
        let params = vec![key];
        assert(params@.map_values(|p: String| p@) =~= seq!["0x"@ + storage_address_of(utf8_of("Agents"@), utf8_of(did@))]);
        self.issue("state_getStorage", params)
    }

    /// The reputation in the reply to `get_agent`.
    pub fn get_agent_reputation(reply: &str) -> (r: Result<u64>)
        ensures
            match r {
                Ok(v) => agent_info_in(reply@) is Some && v == agent_info_in(reply@)->Some_0.reputation,
                Err(e) => agent_info_in(reply@) is None && e is DeserializationError,
            },
    {
        match parse_agent_storage(reply) {
            Ok(a) => Ok(a.reputation),
            Err(e) => Err(e),
        }
    }

    /// The storage read for an agent's token balance; decode its reply with
    /// `parse_u128_storage`. The identifier is checked before anything is
    /// issued: a malformed one is `InvalidDID`.
    pub fn get_token_balance(&mut self, did: &str) -> (r: Result<Request>)
        requires
            old(self)@.next_id < u64::MAX,
        ensures
            match r {
                Ok(q) => is_did(did@) && old(self)@.state == ConnectionState::Connected
                    && q@ == request_of(
                        "state_getStorage"@,
                        seq!["0x"@ + storage_address_of(utf8_of("AirdropAllocations"@), utf8_of(did@))],
                        old(self)@.next_id,
                    )
                    && final(self)@ == (ClientModel { next_id: (old(self)@.next_id + 1) as u64, ..old(self)@ }),
                Err(e) => final(self)@ == old(self)@ && if !is_did(did@) {
                    e is InvalidDID
                } else {
                    old(self)@.state != ConnectionState::Connected && e is ConnectionError
                },
            },
    {
        let did = match AgentDID::parse(did) {
            Ok(d) => d,
            Err(e) => {
                return Err(e);
            },
        };
        let key = String::from_str("0x").concat(balance_key_for_did(did.as_str()).as_str());
        let params = vec![key];
        assert(params@.map_values(|p: String| p@) =~= seq![
            "0x"@ + storage_address_of(utf8_of("AirdropAllocations"@), utf8_of(did@)),
        ]);
        self.issue("state_getStorage", params)
    }

    /// Registers an agent: derives its identifier from the metadata and the
    /// owner's address and issues the register call. The identifier is
    /// computed here, not read back from the chain; decode the reply with
    /// `parse_submit_response` to learn whether the node accepted the call.
    pub fn register_agent(&mut self, metadata: &[u8], owner: &str) -> (r: Result<(String, Request)>)
        requires
            old(self)@.next_id < u64::MAX,
        ensures
            match r {
                Ok((did, q)) => old(self)@.state == ConnectionState::Connected
                    && did@ == generated_did(metadata@, owner@)
                    && q@ == request_of("author_submitExtrinsic"@, seq![register_payload(did@)], old(self)@.next_id)
                    && final(self)@ == (ClientModel { next_id: (old(self)@.next_id + 1) as u64, ..old(self)@ }),
                Err(e) => old(self)@.state != ConnectionState::Connected && e is ConnectionError
                    && final(self)@ == old(self)@,
            },
    {
        let did = AgentDID::generate(metadata, owner);
        let call = match build_register_call(did.as_str(), metadata) {
            Ok(c) => c,
            Err(e) => {
                return Err(e);
            },
        };
        let params = vec![call];
        assert(params@.map_values(|p: String| p@) =~= seq![register_payload(did@)]);
        match self.issue("author_submitExtrinsic", params) {
            Ok(q) => Ok((String::from_str(did.as_str()), q)),
            Err(e) => Err(e),
        }
    }

    /// The call that votes on a proposal; its reply acknowledges the
    /// submission only, not the vote's finalization.
    pub fn vote(&mut self, proposal_id: u64, approve: bool) -> (r: Result<Request>)
        requires
            old(self)@.next_id < u64::MAX,
        ensures
            match r {
                Ok(q) => old(self)@.state == ConnectionState::Connected
                    && q@ == request_of(
                        "author_submitExtrinsic"@,
                        seq![vote_payload(proposal_id, approve)],
                        old(self)@.next_id,
                    )
                    && final(self)@ == (ClientModel { next_id: (old(self)@.next_id + 1) as u64, ..old(self)@ }),
                Err(e) => old(self)@.state != ConnectionState::Connected && e is ConnectionError
                    && final(self)@ == old(self)@,
            },
    {
        let call = match build_vote_call(proposal_id, approve) {
            Ok(c) => c,
            Err(e) => {
                return Err(e);
            },
        };
        let params = vec![call];
        assert(params@.map_values(|p: String| p@) =~= seq![vote_payload(proposal_id, approve)]);
        self.issue("author_submitExtrinsic", params)
    }

    /// Submits a payload the caller has already encoded, through the node's
    /// generic submission method; decode the reply with
    /// `parse_submit_response`.
    pub fn submit_extrinsic(&mut self, call_data: &str) -> (r: Result<Request>)
        requires
            old(self)@.next_id < u64::MAX,
        ensures
            match r {
                Ok(q) => old(self)@.state == ConnectionState::Connected
                    && q@ == request_of("agent_submitExtrinsic"@, seq![call_data@], old(self)@.next_id)
                    && final(self)@ == (ClientModel { next_id: (old(self)@.next_id + 1) as u64, ..old(self)@ }),
                Err(e) => old(self)@.state != ConnectionState::Connected && e is ConnectionError
                    && final(self)@ == old(self)@,
            },
    {
        let params = vec![String::from_str(call_data)];
        assert(params@.map_values(|p: String| p@) =~= seq![call_data@]);
        self.issue("agent_submitExtrinsic", params)
    }

    /// The subscription to finalized heads whose pushes `subscribe_events`
    /// turns into events.
    pub fn subscribe_events(&mut self) -> (r: Result<Request>)
        requires
            old(self)@.next_id < u64::MAX,
        ensures
            match r {
                Ok(q) => old(self)@.state == ConnectionState::Connected
                    && q@ == request_of("chain_finalizedHead"@, seq![], old(self)@.next_id)
                    && final(self)@ == (ClientModel { next_id: (old(self)@.next_id + 1) as u64, ..old(self)@ }),
                Err(e) => old(self)@.state != ConnectionState::Connected && e is ConnectionError
                    && final(self)@ == old(self)@,
            },
    {
        let params: Vec<String> = Vec::new();
        assert(params@.map_values(|p: String| p@) =~= seq![]);
        self.issue("chain_finalizedHead", params)
    }
}

/// Routes an inbound frame: replies carry an id, pushes do not.
pub fn classify_frame(text: &str) -> (r: FrameKind)
    ensures
        r == frame_kind_of(text@),
{
    match json_u64(text, "/id") {
        Some(id) => FrameKind::Reply(id),
        None => FrameKind::Push,
    }
}

/// Whether a frame is the reply to the request with id `id`.
pub fn is_reply_to(text: &str, id: u64) -> (r: bool)
    ensures
        r == (frame_kind_of(text@) == FrameKind::Reply(id)),
{
    match classify_frame(text) {
        FrameKind::Reply(got) => got == id,
        FrameKind::Push => false,
    }
}

/// What a reply's `result` member holds for the decoders: its text when it
/// is a string, its JSON form otherwise.
pub open spec fn reply_result_of(reply: Seq<char>) -> Option<Seq<char>> {
    match json_str_at(reply, "/result"@) {
        Some(s) => Some(s),
        None => json_text_at(reply, "/result"@),
    }
}

/// The `result` member of a reply, as `reply_result_of` reads it. A reply
/// without one is a `DeserializationError`.
pub fn reply_result(reply: &str) -> (r: Result<String>)
    ensures
        match r {
            Ok(v) => reply_result_of(reply@) == Some(v@),
            Err(e) => reply_result_of(reply@) is None && e is DeserializationError,
        },
{
    match json_str(reply, "/result") {
        Some(s) => Ok(s),
        None => match json_text(reply, "/result") {
            Some(t) => Ok(t),
            None => Err(ClawChainError::DeserializationError(String::from_str("Reply without result"))),
        },
    }
}

/// The event a subscription frame hands to the consumer, if any: a frame
/// that does not decode is dropped and the stream goes on.
pub fn on_subscription_frame(text: &str) -> (r: Option<ChainEvent>)
    ensures
        match r {
            Some(e) => json_is_valid(text@) && e@ == event_in(text@),
            None => !json_is_valid(text@),
        },
{
    match parse_chain_event(text) {
        Ok(e) => Some(e),
        Err(_) => None,
    }
}

/// The events that a run of subscription frames hands to the consumer, in
/// order, skipping the frames that do not decode.
pub fn events_from_frames(frames: &Vec<String>) -> (r: Vec<ChainEvent>)
    ensures
        r@.map_values(|e: ChainEvent| e@) == frame_events(frames@.map_values(|f: String| f@)),
{
    let mut out: Vec<ChainEvent> = Vec::new();
    let mut i: usize = 0;
    while i < frames.len()
        invariant
            i <= frames@.len(),
            out@.map_values(|e: ChainEvent| e@) == frame_events(
                frames@.subrange(0, i as int).map_values(|f: String| f@),
            ),
        decreases frames@.len() - i,
    {
        let ghost texts = frames@.subrange(0, i + 1).map_values(|f: String| f@);
        proof {
            assert(texts.drop_last() =~= frames@.subrange(0, i as int).map_values(|f: String| f@));
            assert(texts.last() == frames@[i as int]@);
        }
        match on_subscription_frame(frames[i].as_str()) {
            Some(e) => {
                out.push(e);
                assert(out@.map_values(|e: ChainEvent| e@) =~= frame_events(texts));
            },
            None => {},
        }
        i = i + 1;
    }
    assert(frames@.subrange(0, frames@.len() as int) =~= frames@);
    out
}

} // verus!
