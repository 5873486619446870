//! The connector: a strict state machine that owns one connection
//! attempt. It emits exactly one outbound handshake, then judges the
//! first inbound message — tag, payload, node role, network — before the
//! session may stream. The surrounding runtime performs the transport
//! work and feeds every observation back in as a plain value.

use vstd::prelude::*;
use vstd::pervasive::unreached;
use vstd::string::StringExecFns;

use crate::codec::{decode_handshake, parsed_handshake};
use crate::dispatch::{dispatch_message, spec_dispatch_step, DispatchStep, Event};
use crate::protocol::{
    spec_lift_handshake, ConnectError, DecodeError, Handshake, HandshakeModel, Message,
    MessageKind, MessageModel, NetworkId, NodeType,
};

verus! {

/// Where one connection attempt stands.
#[derive(Clone, Copy, Debug, PartialEq, Eq, Structural)]
pub enum SessionState {
    /// Transport opened, nothing sent yet.
    Uninitialized,
    /// The one outbound handshake is out; awaiting the first reply.
    HandshakeSent,
    /// The peer passed every check; streaming may begin.
    Validated,
    /// The inbound stream belongs to the dispatcher.
    Streaming,
    /// The attempt failed or the channel closed; nothing more happens.
    Closed,
}

/// The handshake this client sends: the requested network's canonical
/// string, the supported protocol version, a zero server port (the client
/// does not listen), the full-node role, and the fixed capability list,
/// each capability enabled with the sentinel value "1".
pub open spec fn spec_local_handshake(network: NetworkId) -> HandshakeModel {
    HandshakeModel {
        network_id: network.spec_name(),
        protocol_version: "0.0.37"@,
        software_version: "0.0.0"@,
        server_port: 0,
        node_type: NodeType::FullNode,
        capabilities: seq![(1u16, "1"@), (2u16, "1"@), (3u16, "1"@)],
    }
}

/// What `receive_first` must decide about a first observation: a closed
/// channel is a missing handshake; a first message of any other kind is
/// an invalid response; an unparsable handshake is a decode failure; a
/// non-full-node role or a foreign network is rejected with expected and
/// actual values; only a full node on the requested network is accepted,
/// and its handshake is handed back.
pub open spec fn spec_first_outcome(
    network: NetworkId,
    first: Option<MessageModel>,
    r: Result<Handshake, ConnectError>,
) -> bool {
    match first {
        None => r matches Err(e) && e is MissingHandshake,
        Some(m) => if m.kind != MessageKind::Handshake {
            &&& r matches Err(e)
            &&& e matches ConnectError::InvalidResponse(expected, actual)
            &&& expected@ == seq![MessageKind::Handshake]
            &&& actual == m.kind
        } else {
            match parsed_handshake(m.data) {
                None => r matches Err(e) && e matches ConnectError::Decode(d) && d == DecodeError,
                Some(w) => if NodeType::spec_from_wire(w.node_type) != Some(NodeType::FullNode) {
                    &&& r matches Err(e)
                    &&& e matches ConnectError::WrongNodeType(expected, actual)
                    &&& expected == NodeType::FullNode
                    &&& Some(actual) == NodeType::spec_from_wire(w.node_type)
                } else if w.network_id != network.spec_name() {
                    &&& r matches Err(e)
                    &&& e matches ConnectError::WrongNetwork(expected, actual)
                    &&& expected@ == network.spec_name()
                    &&& actual@ == w.network_id
                } else {
                    r matches Ok(h) && h@ == spec_lift_handshake(w, NodeType::FullNode)
                },
            }
        },
    }
}

/// One connection attempt. All session state lives here; the channel and
/// the transport stay with the runtime.
pub struct Session {
    state: SessionState,
    network: NetworkId,
    sent: Ghost<Seq<HandshakeModel>>,
}

impl Session {
    pub closed spec fn spec_state(self) -> SessionState {
        self.state
    }

    pub closed spec fn spec_network(self) -> NetworkId {
        self.network
    }

    /// Every outbound message this session has emitted, in order. The
    /// session only ever emits handshakes, so the trace is a sequence of
    /// handshake values.
    pub closed spec fn spec_sent(self) -> Seq<HandshakeModel> {
        self.sent@
    }

    /// The session's invariant: nothing is sent before the handshake
    /// step, and from then on the trace is exactly the one local
    /// handshake for the requested network.
    pub open spec fn wf(self) -> bool {
        match self.spec_state() {
            SessionState::Uninitialized => self.spec_sent() == Seq::<HandshakeModel>::empty(),
            _ => self.spec_sent() == seq![spec_local_handshake(self.spec_network())],
        }
    }

    /// Begin a connection attempt for the given network.
    pub fn new(network: NetworkId) -> (s: Session)
        ensures
            s.wf(),
            s.spec_state() is Uninitialized,
            s.spec_network() == network,
            s.spec_sent() == Seq::<HandshakeModel>::empty(),
    {
        Session { state: SessionState::Uninitialized, network, sent: Ghost(Seq::empty()) }
    }

    pub fn state(&self) -> (st: SessionState)
        ensures
            st == self.spec_state(),
    {
        self.state
    }

    /// Produce the one outbound handshake of this session. It can be
    /// produced only once, before anything else, and the session records
    /// it as sent.
    pub fn outbound_handshake(&mut self) -> (h: Handshake)
        requires
            old(self).wf(),
            old(self).spec_state() is Uninitialized,
        ensures
            final(self).wf(),
            final(self).spec_state() is HandshakeSent,
            final(self).spec_network() == old(self).spec_network(),
            h@ == spec_local_handshake(old(self).spec_network()),
            final(self).spec_sent() == seq![h@],
    {
        let mut capabilities: Vec<(u16, String)> = Vec::new();
        capabilities.push((1, String::from_str("1")));
        capabilities.push((2, String::from_str("1")));
        capabilities.push((3, String::from_str("1")));
        let h = Handshake {
            network_id: self.network.name(),
            protocol_version: String::from_str("0.0.37"),
            software_version: String::from_str("0.0.0"),
            server_port: 0,
            node_type: NodeType::FullNode,
            capabilities,
        };
        proof {
            assert(h@.capabilities =~= spec_local_handshake(self.network).capabilities);
            assert(h@ =~= spec_local_handshake(self.network));
        }
        let ghost trace: Seq<HandshakeModel> = seq![h@];
        self.state = SessionState::HandshakeSent;
        self.sent = Ghost(trace);
        h
    }

    /// Judge the first observation on the inbound channel: `None` when
    /// the channel closed before any message. On acceptance the session
    /// is validated and the peer's handshake is handed back; on any
    /// rejection the session closes.
    pub fn receive_first(&mut self, first: Option<Message>) -> (r: Result<Handshake, ConnectError>)
        requires
            old(self).wf(),
            old(self).spec_state() is HandshakeSent,
        ensures
            final(self).wf(),
            final(self).spec_network() == old(self).spec_network(),
            final(self).spec_sent() == old(self).spec_sent(),
            r is Ok ==> final(self).spec_state() is Validated,
            r is Err ==> final(self).spec_state() is Closed,
            spec_first_outcome(
                old(self).spec_network(),
                match first {
                    Some(m) => Some(m@),
                    None => None,
                },
                r,
            ),
    {
        let m = match first {
            Some(m) => m,
            None => {
                self.state = SessionState::Closed;
                return Err(ConnectError::MissingHandshake);
            },
        };
        if m.kind != MessageKind::Handshake {
            self.state = SessionState::Closed;
            let mut expected: Vec<MessageKind> = Vec::new();
            expected.push(MessageKind::Handshake);
            proof {
                assert(expected@ =~= seq![MessageKind::Handshake]);
            }
            return Err(ConnectError::InvalidResponse(expected, m.kind));
        }
        let w = match decode_handshake(&m.data) {
            Ok(w) => w,
            Err(d) => {
                self.state = SessionState::Closed;
                return Err(ConnectError::Decode(d));
            },
        };
        let actual = match NodeType::from_wire(w.node_type) {
            Some(actual) => actual,
            None => unreached(),
        };
        if !matches!(actual, NodeType::FullNode) {
            self.state = SessionState::Closed;
            return Err(ConnectError::WrongNodeType(NodeType::FullNode, actual));
        }
        let expected_network = self.network.name();
        if !(w.network_id == expected_network) {
            self.state = SessionState::Closed;
            return Err(ConnectError::WrongNetwork(expected_network, w.network_id));
        }
        let h = Handshake {
            network_id: w.network_id,
            protocol_version: w.protocol_version,
            software_version: w.software_version,
            server_port: w.server_port,
            node_type: actual,
            capabilities: w.capabilities,
        };
        proof {
            assert(h@ =~= spec_lift_handshake(parsed_handshake(m.data@)->0, NodeType::FullNode));
        }
        self.state = SessionState::Validated;
        Ok(h)
    }

    /// Hand the validated session over to the streaming phase.
    pub fn begin_streaming(&mut self)
        requires
            old(self).wf(),
            old(self).spec_state() is Validated,
        ensures
            final(self).wf(),
            final(self).spec_state() is Streaming,
            final(self).spec_network() == old(self).spec_network(),
            final(self).spec_sent() == old(self).spec_sent(),
    {
        self.state = SessionState::Streaming;
    }

    /// Dispatch one streamed message. The session itself never changes
    /// during streaming: the dispatcher is a pure consume step.
    pub fn on_message(&self, m: &Message) -> (r: Result<Option<Event>, DecodeError>)
        requires
            self.wf(),
            self.spec_state() is Streaming,
        ensures
            match spec_dispatch_step(m@) {
                DispatchStep::Surface(e) => r matches Ok(Some(ev)) && ev@ == e,
                DispatchStep::Skip => r matches Ok(None),
                DispatchStep::Fail => r matches Err(ee) && ee == DecodeError,
            },
    {
        dispatch_message(m)
    }

    /// The channel reported closed: the stream ends cleanly.
    pub fn on_closed(&mut self)
        requires
            old(self).wf(),
            old(self).spec_state() is Streaming,
        ensures
            final(self).wf(),
            final(self).spec_state() is Closed,
            final(self).spec_network() == old(self).spec_network(),
            final(self).spec_sent() == old(self).spec_sent(),
    {
        self.state = SessionState::Closed;
    }
}

/// Exactly one outbound handshake, and nothing else, has been sent on
/// any session that has passed validation — and already from the moment
/// the handshake goes out.
pub proof fn lemma_single_handshake(s: Session)
    requires
        s.wf(),
        s.spec_state() is HandshakeSent || s.spec_state() is Validated || s.spec_state()
            is Streaming,
    ensures
        s.spec_sent().len() == 1,
        s.spec_sent() == seq![spec_local_handshake(s.spec_network())],
{
}

/// A first inbound message that is not a handshake is always rejected as
/// an invalid response carrying the expected kind set and the actual
/// kind; no later message is ever consulted.
pub proof fn lemma_first_not_handshake_rejected(
    network: NetworkId,
    m: MessageModel,
    r: Result<Handshake, ConnectError>,
)
    requires
        m.kind != MessageKind::Handshake,
        spec_first_outcome(network, Some(m), r),
    ensures
        r matches Err(e) && (e matches ConnectError::InvalidResponse(expected, actual)
            && expected@ == seq![MessageKind::Handshake] && actual == m.kind),
{
}

/// A peer that declares any role other than full node is rejected with
/// the expected and the actual role, whatever the rest of its handshake.
pub proof fn lemma_wrong_node_type_rejected(
    network: NetworkId,
    m: MessageModel,
    nt: NodeType,
    r: Result<Handshake, ConnectError>,
)
    requires
        m.kind == MessageKind::Handshake,
        parsed_handshake(m.data) matches Some(w) && NodeType::spec_from_wire(w.node_type)
            == Some(nt),
        nt != NodeType::FullNode,
        spec_first_outcome(network, Some(m), r),
    ensures
        r matches Err(e) && (e matches ConnectError::WrongNodeType(expected, actual) && expected
            == NodeType::FullNode && actual == nt),
{
}

/// A full-node peer that declares a network other than the requested one
/// is rejected with the expected and the actual network string, however
/// valid its other fields are.
pub proof fn lemma_wrong_network_rejected(
    network: NetworkId,
    m: MessageModel,
    r: Result<Handshake, ConnectError>,
)
    requires
        m.kind == MessageKind::Handshake,
        parsed_handshake(m.data) matches Some(w) && NodeType::spec_from_wire(w.node_type)
            == Some(NodeType::FullNode) && w.network_id != network.spec_name(),
        spec_first_outcome(network, Some(m), r),
    ensures
        r matches Err(e) && (e matches ConnectError::WrongNetwork(expected, actual) && expected@
            == network.spec_name() && actual@ == parsed_handshake(m.data)->0.network_id),
{
}

/// A channel that closes before any message arrived always yields the
/// missing-handshake failure.
pub proof fn lemma_missing_handshake(network: NetworkId, r: Result<Handshake, ConnectError>)
    requires
        spec_first_outcome(network, None, r),
    ensures
        r matches Err(e) && e is MissingHandshake,
{
}

} // verus!

