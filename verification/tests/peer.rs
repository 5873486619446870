use chia_peer::codec::{NewPeak, NewTransaction};
use chia_peer::dispatch::{dispatch_all, dispatch_message, Event};
use chia_peer::protocol::{
    ConnectError, DecodeError, Handshake, Message, MessageKind, NetworkId, NodeType,
};
use chia_peer::session::{Session, SessionState};

use chia_traits::Streamable;

fn peer_handshake_bytes(network_id: &str, node_type: chia_protocol::NodeType) -> Vec<u8> {
    chia_protocol::Handshake {
        network_id: network_id.to_string(),
        protocol_version: "0.0.37".to_string(),
        software_version: "2.4.0".to_string(),
        server_port: 8444,
        node_type,
        capabilities: vec![(1, "1".to_string())],
    }
    .to_bytes()
    .unwrap()
}

fn handshake_message(network_id: &str, node_type: chia_protocol::NodeType) -> Message {
    Message {
        kind: MessageKind::Handshake,
        data: peer_handshake_bytes(network_id, node_type),
    }
}

fn session_awaiting_reply(network: NetworkId) -> Session {
    let mut session = Session::new(network);
    let _ = session.outbound_handshake();
    session
}

#[test]
fn outbound_handshake_has_fixed_fields() {
    let mut session = Session::new(NetworkId::Mainnet);
    assert_eq!(session.state(), SessionState::Uninitialized);
    let h = session.outbound_handshake();
    assert_eq!(session.state(), SessionState::HandshakeSent);
    assert_eq!(h.network_id, "mainnet");
    assert_eq!(h.protocol_version, "0.0.37");
    assert_eq!(h.software_version, "0.0.0");
    assert_eq!(h.server_port, 0);
    assert_eq!(h.node_type, NodeType::FullNode);
    assert_eq!(
        h.capabilities,
        vec![
            (1, "1".to_string()),
            (2, "1".to_string()),
            (3, "1".to_string()),
        ]
    );
}

#[test]
fn outbound_handshake_names_requested_network() {
    let mut session = Session::new(NetworkId::Testnet11);
    let h = session.outbound_handshake();
    assert_eq!(h.network_id, "testnet11");
}

#[test]
fn connect_succeeds_on_mainnet_full_node() {
    let mut session = session_awaiting_reply(NetworkId::Mainnet);
    let message = handshake_message("mainnet", chia_protocol::NodeType::FullNode);
    let handshake = session.receive_first(Some(message)).unwrap();
    assert_eq!(session.state(), SessionState::Validated);
    assert_eq!(handshake.network_id, "mainnet");
    assert_eq!(handshake.protocol_version, "0.0.37");
    assert_eq!(handshake.software_version, "2.4.0");
    assert_eq!(handshake.server_port, 8444);
    assert_eq!(handshake.node_type, NodeType::FullNode);
    assert_eq!(handshake.capabilities, vec![(1, "1".to_string())]);
    session.begin_streaming();
    assert_eq!(session.state(), SessionState::Streaming);
}

#[test]
fn connect_rejects_wrong_network() {
    let mut session = session_awaiting_reply(NetworkId::Mainnet);
    let message = handshake_message("testnet", chia_protocol::NodeType::FullNode);
    let err = session.receive_first(Some(message)).unwrap_err();
    assert_eq!(
        err,
        ConnectError::WrongNetwork("mainnet".to_string(), "testnet".to_string())
    );
    assert_eq!(session.state(), SessionState::Closed);
}

#[test]
fn connect_rejects_wrong_node_type() {
    let mut session = session_awaiting_reply(NetworkId::Mainnet);
    let message = handshake_message("mainnet", chia_protocol::NodeType::Wallet);
    let err = session.receive_first(Some(message)).unwrap_err();
    assert_eq!(
        err,
        ConnectError::WrongNodeType(NodeType::FullNode, NodeType::Wallet)
    );
    assert_eq!(session.state(), SessionState::Closed);
}

#[test]
fn connect_rejects_wrong_node_type_before_network() {
    let mut session = session_awaiting_reply(NetworkId::Mainnet);
    let message = handshake_message("testnet", chia_protocol::NodeType::Harvester);
    let err = session.receive_first(Some(message)).unwrap_err();
    assert_eq!(
        err,
        ConnectError::WrongNodeType(NodeType::FullNode, NodeType::Harvester)
    );
}

#[test]
fn connect_rejects_non_handshake_first_message() {
    let mut session = session_awaiting_reply(NetworkId::Mainnet);
    let new_transaction = chia_protocol::NewTransaction {
        transaction_id: chia_protocol::Bytes32::new([7u8; 32]),
        cost: 11,
        fees: 1,
    };
    let message = Message {
        kind: MessageKind::NewTransaction,
        data: new_transaction.to_bytes().unwrap(),
    };
    let err = session.receive_first(Some(message)).unwrap_err();
    assert_eq!(
        err,
        ConnectError::InvalidResponse(vec![MessageKind::Handshake], MessageKind::NewTransaction)
    );
    assert_eq!(session.state(), SessionState::Closed);
}

#[test]
fn connect_fails_when_channel_closes_without_messages() {
    let mut session = session_awaiting_reply(NetworkId::Mainnet);
    let err = session.receive_first(None).unwrap_err();
    assert_eq!(err, ConnectError::MissingHandshake);
    assert_eq!(session.state(), SessionState::Closed);
}

#[test]
fn connect_rejects_malformed_handshake_payload() {
    let mut session = session_awaiting_reply(NetworkId::Mainnet);
    let message = Message {
        kind: MessageKind::Handshake,
        data: vec![0xff, 0x00, 0x01],
    };
    let err = session.receive_first(Some(message)).unwrap_err();
    assert_eq!(err, ConnectError::Decode(DecodeError));
    assert_eq!(session.state(), SessionState::Closed);
}

fn new_peak_message() -> (Message, chia_protocol::NewPeak) {
    let peak = chia_protocol::NewPeak {
        header_hash: chia_protocol::Bytes32::new([3u8; 32]),
        height: 4_200_000,
        weight: 9_000_000_000_000,
        fork_point_with_previous_peak: 4_199_999,
        unfinished_reward_block_hash: chia_protocol::Bytes32::new([9u8; 32]),
    };
    let message = Message {
        kind: MessageKind::NewPeak,
        data: peak.to_bytes().unwrap(),
    };
    (message, peak)
}

fn new_transaction_message() -> (Message, chia_protocol::NewTransaction) {
    let transaction = chia_protocol::NewTransaction {
        transaction_id: chia_protocol::Bytes32::new([5u8; 32]),
        cost: 123_456,
        fees: 789,
    };
    let message = Message {
        kind: MessageKind::NewTransaction,
        data: transaction.to_bytes().unwrap(),
    };
    (message, transaction)
}

fn assert_peak_matches(event: &Event, expected: &chia_protocol::NewPeak) {
    match event {
        Event::Peak(p) => {
            assert_eq!(p.header_hash, expected.header_hash.to_vec());
            assert_eq!(p.height, expected.height);
            assert_eq!(p.weight, expected.weight);
            assert_eq!(
                p.fork_point_with_previous_peak,
                expected.fork_point_with_previous_peak
            );
            assert_eq!(
                p.unfinished_reward_block_hash,
                expected.unfinished_reward_block_hash.to_vec()
            );
        }
        Event::Transaction(_) => panic!("expected a peak event"),
    }
}

fn assert_transaction_matches(event: &Event, expected: &chia_protocol::NewTransaction) {
    match event {
        Event::Transaction(t) => {
            assert_eq!(t.transaction_id, expected.transaction_id.to_vec());
            assert_eq!(t.cost, expected.cost);
            assert_eq!(t.fees, expected.fees);
        }
        Event::Peak(_) => panic!("expected a transaction event"),
    }
}

#[test]
fn dispatcher_surfaces_recognized_kinds_in_order() {
    let (peak_message, peak) = new_peak_message();
    let wallet_peak = Message {
        kind: MessageKind::NewPeakWallet,
        data: vec![0xde, 0xad, 0xbe, 0xef],
    };
    let (transaction_message, transaction) = new_transaction_message();
    let events = dispatch_all(&vec![peak_message, wallet_peak, transaction_message]).unwrap();
    assert_eq!(events.len(), 2);
    assert_peak_matches(&events[0], &peak);
    assert_transaction_matches(&events[1], &transaction);
}

#[test]
fn dispatcher_skips_unrecognized_kinds_without_decoding() {
    let unknown = Message {
        kind: MessageKind::Other(99),
        data: vec![0x01, 0x02],
    };
    let wallet_peak = Message {
        kind: MessageKind::NewPeakWallet,
        data: vec![],
    };
    let events = dispatch_all(&vec![unknown, wallet_peak]).unwrap();
    assert!(events.is_empty());
}

#[test]
fn dispatcher_fails_on_malformed_recognized_payload() {
    let bad_peak = Message {
        kind: MessageKind::NewPeak,
        data: vec![0x01],
    };
    let err = dispatch_all(&vec![bad_peak]).unwrap_err();
    assert_eq!(err, DecodeError);
}

#[test]
fn dispatch_message_decodes_one_transaction() {
    let (message, transaction) = new_transaction_message();
    let event = dispatch_message(&message).unwrap().unwrap();
    assert_transaction_matches(&event, &transaction);
}

#[test]
fn dispatch_message_skips_handshake_kind_mid_stream() {
    let message = handshake_message("mainnet", chia_protocol::NodeType::FullNode);
    assert!(dispatch_message(&message).unwrap().is_none());
}

#[test]
fn session_streams_and_observes_close() {
    let mut session = session_awaiting_reply(NetworkId::Mainnet);
    let message = handshake_message("mainnet", chia_protocol::NodeType::FullNode);
    session.receive_first(Some(message)).unwrap();
    session.begin_streaming();
    let (peak_message, peak) = new_peak_message();
    let event = session.on_message(&peak_message).unwrap().unwrap();
    assert_peak_matches(&event, &peak);
    session.on_closed();
    assert_eq!(session.state(), SessionState::Closed);
}

#[test]
fn node_type_wire_codes_round_trip() {
    let all = [
        NodeType::FullNode,
        NodeType::Harvester,
        NodeType::Farmer,
        NodeType::Timelord,
        NodeType::Introducer,
        NodeType::Wallet,
        NodeType::DataLayer,
    ];
    for node_type in all {
        assert_eq!(NodeType::from_wire(node_type.wire_code()), Some(node_type));
    }
    assert_eq!(NodeType::FullNode.wire_code(), 1);
    assert_eq!(NodeType::from_wire(0), None);
    assert_eq!(NodeType::from_wire(8), None);
}

#[test]
fn message_kinds_match_wire_codes() {
    assert_eq!(MessageKind::from_wire(1), MessageKind::Handshake);
    assert_eq!(MessageKind::from_wire(20), MessageKind::NewPeak);
    assert_eq!(MessageKind::from_wire(21), MessageKind::NewTransaction);
    assert_eq!(MessageKind::from_wire(50), MessageKind::NewPeakWallet);
    assert_eq!(MessageKind::from_wire(44), MessageKind::Other(44));
    assert_eq!(
        MessageKind::from_wire(chia_protocol::ProtocolMessageTypes::Handshake as u8),
        MessageKind::Handshake
    );
    assert_eq!(
        MessageKind::from_wire(chia_protocol::ProtocolMessageTypes::NewPeak as u8),
        MessageKind::NewPeak
    );
    assert_eq!(
        MessageKind::from_wire(chia_protocol::ProtocolMessageTypes::NewTransaction as u8),
        MessageKind::NewTransaction
    );
    assert_eq!(
        MessageKind::from_wire(chia_protocol::ProtocolMessageTypes::NewPeakWallet as u8),
        MessageKind::NewPeakWallet
    );
}

#[test]
fn network_names_are_canonical() {
    assert_eq!(NetworkId::Mainnet.name(), "mainnet");
    assert_eq!(NetworkId::Testnet11.name(), "testnet11");
}

#[test]
fn decoded_peak_mirrors_library_type() {
    let (message, _) = new_peak_message();
    let event = dispatch_message(&message).unwrap().unwrap();
    let peak: NewPeak = match event {
        Event::Peak(p) => p,
        Event::Transaction(_) => panic!("expected a peak event"),
    };
    let reencoded = chia_protocol::NewPeak {
        header_hash: chia_protocol::Bytes32::try_from(peak.header_hash.as_slice()).unwrap(),
        height: peak.height,
        weight: peak.weight,
        fork_point_with_previous_peak: peak.fork_point_with_previous_peak,
        unfinished_reward_block_hash: chia_protocol::Bytes32::try_from(
            peak.unfinished_reward_block_hash.as_slice(),
        )
        .unwrap(),
    };
    assert_eq!(reencoded.to_bytes().unwrap(), message.data);
}

#[test]
fn decoded_transaction_mirrors_library_type() {
    let (message, _) = new_transaction_message();
    let event = dispatch_message(&message).unwrap().unwrap();
    let transaction: NewTransaction = match event {
        Event::Transaction(t) => t,
        Event::Peak(_) => panic!("expected a transaction event"),
    };
    assert_eq!(transaction.cost, 123_456);
    assert_eq!(transaction.fees, 789);
    assert_eq!(transaction.transaction_id, vec![5u8; 32]);
}
