//! The data model of the peer protocol: node roles, message envelopes,
//! handshake values, network identifiers, and the error taxonomy.

use vstd::prelude::*;
use vstd::string::StringExecFns;

verus! {

/// The role a peer advertises in its handshake.
#[derive(Clone, Copy, Debug, PartialEq, Eq, Structural)]
pub enum NodeType {
    FullNode,
    Harvester,
    Farmer,
    Timelord,
    Introducer,
    Wallet,
    DataLayer,
}

impl NodeType {
    /// The single-byte code this role carries on the wire.
    pub open spec fn spec_wire_code(self) -> u8 {
        match self {
            NodeType::FullNode => 1,
            NodeType::Harvester => 2,
            NodeType::Farmer => 3,
            NodeType::Timelord => 4,
            NodeType::Introducer => 5,
            NodeType::Wallet => 6,
            NodeType::DataLayer => 7,
        }
    }

    pub fn wire_code(&self) -> (c: u8)
        ensures
            c == self.spec_wire_code(),
    {
        match self {
            NodeType::FullNode => 1,
            NodeType::Harvester => 2,
            NodeType::Farmer => 3,
            NodeType::Timelord => 4,
            NodeType::Introducer => 5,
            NodeType::Wallet => 6,
            NodeType::DataLayer => 7,
        }
    }

    /// The role a wire code denotes, if it is one of the declared codes.
    pub open spec fn spec_from_wire(c: u8) -> Option<NodeType> {
        if c == 1 {
            Some(NodeType::FullNode)
        } else if c == 2 {
            Some(NodeType::Harvester)
        } else if c == 3 {
            Some(NodeType::Farmer)
        } else if c == 4 {
            Some(NodeType::Timelord)
        } else if c == 5 {
            Some(NodeType::Introducer)
        } else if c == 6 {
            Some(NodeType::Wallet)
        } else if c == 7 {
            Some(NodeType::DataLayer)
        } else {
            None
        }
    }

    pub fn from_wire(c: u8) -> (r: Option<NodeType>)
        ensures
            r == Self::spec_from_wire(c),
    {
        if c == 1 {
            Some(NodeType::FullNode)
        } else if c == 2 {
            Some(NodeType::Harvester)
        } else if c == 3 {
            Some(NodeType::Farmer)
        } else if c == 4 {
            Some(NodeType::Timelord)
        } else if c == 5 {
            Some(NodeType::Introducer)
        } else if c == 6 {
            Some(NodeType::Wallet)
        } else if c == 7 {
            Some(NodeType::DataLayer)
        } else {
            None
        }
    }
}

/// The type tag of a message envelope. Kinds outside this core's interest
/// are carried as `Other` with their wire code, so that future kinds are
/// representable and can be skipped rather than rejected.
#[derive(Clone, Copy, Debug, PartialEq, Eq, Structural)]
pub enum MessageKind {
    Handshake,
    NewPeak,
    NewTransaction,
    NewPeakWallet,
    Other(u8),
}

/// The wire codes of the kinds this core recognizes by name.
pub open spec fn spec_kind_from_wire(c: u8) -> MessageKind {
    if c == 1 {
        MessageKind::Handshake
    } else if c == 20 {
        MessageKind::NewPeak
    } else if c == 21 {
        MessageKind::NewTransaction
    } else if c == 50 {
        MessageKind::NewPeakWallet
    } else {
        MessageKind::Other(c)
    }
}

impl MessageKind {
    pub fn from_wire(c: u8) -> (k: MessageKind)
        ensures
            k == spec_kind_from_wire(c),
    {
        if c == 1 {
            MessageKind::Handshake
        } else if c == 20 {
            MessageKind::NewPeak
        } else if c == 21 {
            MessageKind::NewTransaction
        } else if c == 50 {
            MessageKind::NewPeakWallet
        } else {
            MessageKind::Other(c)
        }
    }
}

/// An inbound message envelope: a type tag and the framed payload bytes.
#[derive(Clone, Debug, PartialEq, Eq)]
pub struct Message {
    pub kind: MessageKind,
    pub data: Vec<u8>,
}

#[verifier::ext_equal]
pub struct MessageModel {
    pub kind: MessageKind,
    pub data: Seq<u8>,
}

impl View for Message {
    type V = MessageModel;

    open spec fn view(&self) -> MessageModel {
        MessageModel { kind: self.kind, data: self.data@ }
    }
}

/// A handshake as it stands on the wire, before the node-type code has
/// been interpreted: exactly the fields the codec yields.
#[derive(Clone, Debug, PartialEq, Eq)]
pub struct WireHandshake {
    pub network_id: String,
    pub protocol_version: String,
    pub software_version: String,
    pub server_port: u16,
    pub node_type: u8,
    pub capabilities: Vec<(u16, String)>,
}

#[verifier::ext_equal]
pub struct WireHandshakeModel {
    pub network_id: Seq<char>,
    pub protocol_version: Seq<char>,
    pub software_version: Seq<char>,
    pub server_port: u16,
    pub node_type: u8,
    pub capabilities: Seq<(u16, Seq<char>)>,
}

pub open spec fn spec_caps_view(caps: Seq<(u16, String)>) -> Seq<(u16, Seq<char>)> {
    caps.map_values(|p: (u16, String)| (p.0, p.1@))
}

impl View for WireHandshake {
    type V = WireHandshakeModel;

    open spec fn view(&self) -> WireHandshakeModel {
        WireHandshakeModel {
            network_id: self.network_id@,
            protocol_version: self.protocol_version@,
            software_version: self.software_version@,
            server_port: self.server_port,
            node_type: self.node_type,
            capabilities: spec_caps_view(self.capabilities@),
        }
    }
}

/// A handshake whose node-type code has been interpreted as a role.
#[derive(Clone, Debug, PartialEq, Eq)]
pub struct Handshake {
    pub network_id: String,
    pub protocol_version: String,
    pub software_version: String,
    pub server_port: u16,
    pub node_type: NodeType,
    pub capabilities: Vec<(u16, String)>,
}

#[verifier::ext_equal]
pub struct HandshakeModel {
    pub network_id: Seq<char>,
    pub protocol_version: Seq<char>,
    pub software_version: Seq<char>,
    pub server_port: u16,
    pub node_type: NodeType,
    pub capabilities: Seq<(u16, Seq<char>)>,
}

impl View for Handshake {
    type V = HandshakeModel;

    open spec fn view(&self) -> HandshakeModel {
        HandshakeModel {
            network_id: self.network_id@,
            protocol_version: self.protocol_version@,
            software_version: self.software_version@,
            server_port: self.server_port,
            node_type: self.node_type,
            capabilities: spec_caps_view(self.capabilities@),
        }
    }
}

/// The interpretation of a wire handshake whose node-type code is a
/// declared one.
pub open spec fn spec_lift_handshake(w: WireHandshakeModel, nt: NodeType) -> HandshakeModel {
    HandshakeModel {
        network_id: w.network_id,
        protocol_version: w.protocol_version,
        software_version: w.software_version,
        server_port: w.server_port,
        node_type: nt,
        capabilities: w.capabilities,
    }
}

/// The logical blockchain network a connection is meant for.
#[derive(Clone, Copy, Debug, PartialEq, Eq, Structural)]
pub enum NetworkId {
    Mainnet,
    Testnet11,
}

impl NetworkId {
    /// The canonical string a peer of this network declares in its
    /// handshake.
    pub open spec fn spec_name(self) -> Seq<char> {
        match self {
            NetworkId::Mainnet => "mainnet"@,
            NetworkId::Testnet11 => "testnet11"@,
        }
    }

    pub fn name(&self) -> (s: String)
        ensures
            s@ == self.spec_name(),
    {
        match self {
            NetworkId::Mainnet => String::from_str("mainnet"),
            NetworkId::Testnet11 => String::from_str("testnet11"),
        }
    }
}

/// A payload of a recognized kind did not parse as its structured form.
#[derive(Clone, Copy, Debug, PartialEq, Eq, Structural)]
pub struct DecodeError;

/// Why a connection attempt was rejected. Every variant is terminal: the
/// connector never retries.
#[derive(Clone, Debug, PartialEq, Eq)]
pub enum ConnectError {
    /// The transport failed to connect, send or receive; the description
    /// comes from the transport collaborator.
    Transport(String),
    /// The channel closed before any message arrived.
    MissingHandshake,
    /// The first inbound message was not a handshake: the kinds that were
    /// acceptable, and the kind that arrived.
    InvalidResponse(Vec<MessageKind>, MessageKind),
    /// The handshake payload did not parse.
    Decode(DecodeError),
    /// The peer is not of the required role: expected, then actual.
    WrongNodeType(NodeType, NodeType),
    /// The peer declared a different network: expected, then actual.
    WrongNetwork(String, String),
}

} // verus!
