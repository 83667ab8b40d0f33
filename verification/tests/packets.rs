use ibc_core::channel::{ChannelRecord, ChannelState};
use ibc_core::client::{ClientRecord, ClientStatus, ConsensusEntry, ConsensusSnapshot};
use ibc_core::connection::{ConnectionRecord, ConnectionState, Version};
use ibc_core::envelope::Ics26Envelope;
use ibc_core::error::Error;
use ibc_core::evidence::ScriptedVerifier;
use ibc_core::fee::{Ics20ServiceCharge, Pallet, Percent};
use ibc_core::output::Event;
use ibc_core::packet::{
    has_timeout_passed, is_timeout_in_future, LedgerTime, MsgAcknowledgement, MsgRecvPacket,
    MsgTimeout, MsgTimeoutOnClose, Packet, PacketMsg, SendRequest,
};
use ibc_core::router::{dispatch, Context};
use ibc_core::store::{ChannelEntry, Store};
use ibc_core::transfer_module::DummyTransferModule;
use ibc_core::types::{ChannelId, ClientId, ClientType, ConnectionId, Height, ModuleId, Order, PortId, Signer};

type Module = Ics20ServiceCharge<DummyTransferModule>;
type Ctx = Context<ScriptedVerifier, Module>;

fn signer() -> Signer {
    Signer::new("relayer")
}

fn open_store(ordering: Order) -> Store {
    let mut store = Store::new();
    store.clients.push(ClientRecord {
        client_type: ClientType::Mock,
        status: ClientStatus::Active,
        latest_height: Height::new(0, 10),
        consensus: vec![ConsensusEntry {
            height: Height::new(0, 10),
            snapshot: ConsensusSnapshot { timestamp: 100, root: 0 },
        }],
    });
    store.connections.push(ConnectionRecord {
        state: ConnectionState::Open,
        client_id: ClientId::new(ClientType::Mock, 0),
        counterparty_client_id: ClientId::new(ClientType::Mock, 4),
        counterparty_connection_id: Some(ConnectionId(2)),
        versions: vec![Version { identifier: 1, ordered: true, unordered: true }],
    });
    store.channels.push(ChannelEntry::fresh(ChannelRecord {
        state: ChannelState::Open,
        ordering,
        port_id: PortId::new("transfer"),
        connection_id: ConnectionId(0),
        counterparty_port_id: PortId::new("transfer"),
        counterparty_channel_id: Some(ChannelId(5)),
        version: "ics20-1".to_string(),
    }));
    store
}

fn context(ordering: Order, verifier: ScriptedVerifier) -> Ctx {
    let mut ctx: Ctx =
        Context::new(verifier, LedgerTime { height: Height::new(0, 50), timestamp: 500 });
    ctx.store = open_store(ordering);
    let module = Ics20ServiceCharge::new(DummyTransferModule::new(), Pallet::new(Percent(1), "fees"));
    assert!(ctx.registry.add_route(ModuleId::new("transfer"), module).is_none());
    assert_eq!(ctx.registry.bind(PortId::new("transfer"), ModuleId::new("transfer")), Ok(()));
    ctx
}

/// The client learns of the counterparty at height 20 and time 200.
fn advance(ctx: &mut Ctx) {
    ctx.store.clients[0].latest_height = Height::new(0, 20);
    ctx.store.clients[0].consensus.push(ConsensusEntry {
        height: Height::new(0, 20),
        snapshot: ConsensusSnapshot { timestamp: 200, root: 0 },
    });
}

fn incoming(sequence: u64) -> Packet {
    Packet {
        sequence,
        source_port: PortId::new("transfer"),
        source_channel: ChannelId(5),
        destination_port: PortId::new("transfer"),
        destination_channel: ChannelId(0),
        data: br#"{"denom":"uatom","amount":"1000000","sender":"alice","receiver":"bob","memo":""}"#
            .to_vec(),
        timeout_height: Height::new(0, 60),
        timeout_timestamp: 600,
    }
}

fn recv(packet: Packet) -> Ics26Envelope {
    Ics26Envelope::Ics4PacketMsg(PacketMsg::RecvPacket(MsgRecvPacket {
        packet,
        proof_commitment: vec![1],
        proof_height: Height::new(0, 10),
        signer: signer(),
    }))
}

fn ack(packet: Packet) -> Ics26Envelope {
    Ics26Envelope::Ics4PacketMsg(PacketMsg::AckPacket(MsgAcknowledgement {
        packet,
        acknowledgement: br#"{"result":"AQ=="}"#.to_vec(),
        proof_acked: vec![1],
        proof_height: Height::new(0, 10),
        signer: signer(),
    }))
}

fn timeout(packet: Packet, proof_height: Height) -> Ics26Envelope {
    Ics26Envelope::Ics4PacketMsg(PacketMsg::TimeoutPacket(MsgTimeout {
        packet,
        proof_unreceived: vec![1],
        proof_height,
        signer: signer(),
    }))
}

fn timeout_on_close(packet: Packet) -> Ics26Envelope {
    Ics26Envelope::Ics4PacketMsg(PacketMsg::TimeoutOnClosePacket(MsgTimeoutOnClose {
        packet,
        proof_unreceived: vec![1],
        proof_close: vec![1],
        proof_height: Height::new(0, 20),
        signer: signer(),
    }))
}

fn request(timeout_height: Height, timeout_timestamp: u64) -> SendRequest {
    SendRequest {
        source_port: PortId::new("transfer"),
        source_channel: ChannelId(0),
        data: vec![1, 2, 3],
        timeout_height,
        timeout_timestamp,
    }
}

fn error_of(ctx: &mut Ctx, msg: Ics26Envelope) -> Option<Error> {
    dispatch(ctx, msg).err()
}

#[test]
fn an_ordered_channel_receives_in_sequence_only() {
    let mut ctx = context(Order::Ordered, ScriptedVerifier::accepting());
    assert_eq!(error_of(&mut ctx, recv(incoming(2))), Some(Error::OutOfOrderPacket));
    assert_eq!(error_of(&mut ctx, recv(incoming(0))), Some(Error::OutOfOrderPacket));
    assert_eq!(ctx.store.next_sequence_recv(&PortId::new("transfer"), ChannelId(0)), Some(1));
    assert_eq!(error_of(&mut ctx, recv(incoming(1))), None);
    assert_eq!(ctx.store.next_sequence_recv(&PortId::new("transfer"), ChannelId(0)), Some(2));
    assert_eq!(error_of(&mut ctx, recv(incoming(1))), Some(Error::OutOfOrderPacket));
    assert_eq!(error_of(&mut ctx, recv(incoming(4))), Some(Error::OutOfOrderPacket));
    assert_eq!(error_of(&mut ctx, recv(incoming(2))), None);
    assert_eq!(ctx.store.next_sequence_recv(&PortId::new("transfer"), ChannelId(0)), Some(3));
    assert_eq!(error_of(&mut ctx, recv(incoming(u64::MAX))), Some(Error::OutOfOrderPacket));
    assert!(ctx.store.channels[0].receipts.is_empty());
}

#[test]
fn a_received_packet_is_received_once() {
    let mut ctx = context(Order::Unordered, ScriptedVerifier::accepting());
    let first = dispatch(&mut ctx, recv(incoming(7))).unwrap();
    assert_eq!(
        first.events,
        vec![
            Event::ReceivePacket { channel_id: ChannelId(0), sequence: 7 },
            Event::IbcTransferFeeCollected { amount: 10_000 },
            Event::WriteAcknowledgement { channel_id: ChannelId(0), sequence: 7 },
        ]
    );
    assert_eq!(first.log, vec!["packet received".to_string(), "acknowledgement written".to_string()]);
    assert_eq!(ctx.store.channels[0].receipts, vec![7]);
    assert_eq!(ctx.store.channels[0].acks.len(), 1);
    assert_eq!(ctx.store.channels[0].acks[0].sequence, 7);
    assert_eq!(ctx.store.channels[0].acks[0].acknowledgement, br#"{"result":"AQ=="}"#.to_vec());
    let store = format!("{:?}", ctx.store);
    let modules = format!("{:?}", ctx.registry);
    let second = dispatch(&mut ctx, recv(incoming(7))).unwrap();
    assert!(second.events.is_empty());
    assert!(second.log.is_empty());
    assert_eq!(format!("{:?}", ctx.store), store);
    assert_eq!(format!("{:?}", ctx.registry), modules);
    let bank = &ctx.registry.modules[0].module.inner.bank;
    assert_eq!(bank.balance_of("bob", "transfer/channel-0/uatom"), 990_000);
    assert_eq!(bank.balance_of("fees", "transfer/channel-0/uatom"), 10_000);
    assert_eq!(error_of(&mut ctx, recv(incoming(3))), None);
    assert_eq!(ctx.store.channels[0].receipts, vec![7, 3]);
}

#[test]
fn an_acknowledged_packet_cannot_time_out() {
    let mut ctx = context(Order::Unordered, ScriptedVerifier::accepting());
    let (packet, output) = ctx.send(&request(Height::new(0, 15), 0)).unwrap();
    assert_eq!(packet.sequence, 1);
    assert_eq!(packet.destination_channel, ChannelId(5));
    assert_eq!(output.events, vec![Event::SendPacket { channel_id: ChannelId(0), sequence: 1 }]);
    assert!(ctx.store.channels[0].commitments[0].is_some());
    let done = dispatch(&mut ctx, ack(packet.clone())).unwrap();
    assert_eq!(done.events, vec![Event::AcknowledgePacket { channel_id: ChannelId(0), sequence: 1 }]);
    assert!(ctx.store.channels[0].commitments[0].is_none());
    advance(&mut ctx);
    assert_eq!(
        error_of(&mut ctx, timeout(packet.clone(), Height::new(0, 20))),
        Some(Error::ProofVerificationFailed)
    );
    assert_eq!(
        error_of(&mut ctx, timeout_on_close(packet.clone())),
        Some(Error::ProofVerificationFailed)
    );
    assert_eq!(error_of(&mut ctx, ack(packet)), Some(Error::ProofVerificationFailed));
}

#[test]
fn a_timed_out_packet_cannot_be_acknowledged() {
    let mut ctx = context(Order::Unordered, ScriptedVerifier::accepting());
    let (first, _) = ctx.send(&request(Height::new(0, 15), 0)).unwrap();
    let (second, _) = ctx.send(&request(Height::zero(), 150)).unwrap();
    assert_eq!((first.sequence, second.sequence), (1, 2));
    assert_eq!(ctx.store.next_sequence_send(&PortId::new("transfer"), ChannelId(0)), Some(3));
    // At height 10 the first timeout has not passed on the destination.
    assert_eq!(
        error_of(&mut ctx, timeout(first.clone(), Height::new(0, 10))),
        Some(Error::InvalidTimeout)
    );
    // No state was verified at height 15.
    assert_eq!(
        error_of(&mut ctx, timeout(first.clone(), Height::new(0, 15))),
        Some(Error::InvalidConsensusHeight)
    );
    advance(&mut ctx);
    let done = dispatch(&mut ctx, timeout(first.clone(), Height::new(0, 20))).unwrap();
    assert_eq!(done.events, vec![Event::TimeoutPacket { channel_id: ChannelId(0), sequence: 1 }]);
    assert!(ctx.store.channels[0].commitments[0].is_none());
    assert!(ctx.store.channels[0].commitments[1].is_some());
    assert_eq!(error_of(&mut ctx, ack(first.clone())), Some(Error::ProofVerificationFailed));
    assert_eq!(
        error_of(&mut ctx, timeout(first, Height::new(0, 20))),
        Some(Error::ProofVerificationFailed)
    );
    // The second packet times out by time: 100 is before 150, 200 is after.
    assert_eq!(
        error_of(&mut ctx, timeout(second.clone(), Height::new(0, 10))),
        Some(Error::InvalidTimeout)
    );
    assert_eq!(error_of(&mut ctx, timeout(second.clone(), Height::new(0, 20))), None);
    assert_eq!(error_of(&mut ctx, ack(second)), Some(Error::ProofVerificationFailed));
}

#[test]
fn a_packet_that_was_tampered_with_has_no_commitment() {
    let mut ctx = context(Order::Unordered, ScriptedVerifier::accepting());
    let (packet, _) = ctx.send(&request(Height::new(0, 15), 0)).unwrap();
    let mut other = packet.clone();
    other.data = vec![9];
    assert_eq!(error_of(&mut ctx, ack(other)), Some(Error::ProofVerificationFailed));
    let mut later = packet.clone();
    later.timeout_height = Height::new(0, 16);
    assert_eq!(
        error_of(&mut ctx, timeout(later, Height::new(0, 20))),
        Some(Error::ProofVerificationFailed)
    );
    let mut next = packet.clone();
    next.sequence = 2;
    assert_eq!(error_of(&mut ctx, ack(next)), Some(Error::ProofVerificationFailed));
    assert_eq!(error_of(&mut ctx, ack(packet)), None);
}

#[test]
fn a_late_packet_is_not_received() {
    let mut ctx = context(Order::Unordered, ScriptedVerifier::accepting());
    let mut by_height = incoming(1);
    by_height.timeout_height = Height::new(0, 50);
    by_height.timeout_timestamp = 0;
    assert_eq!(error_of(&mut ctx, recv(by_height)), Some(Error::InvalidTimeout));
    let mut by_time = incoming(1);
    by_time.timeout_height = Height::zero();
    by_time.timeout_timestamp = 500;
    assert_eq!(error_of(&mut ctx, recv(by_time)), Some(Error::InvalidTimeout));
    let mut in_time = incoming(1);
    in_time.timeout_height = Height::new(0, 51);
    in_time.timeout_timestamp = 501;
    assert_eq!(error_of(&mut ctx, recv(in_time)), None);
    assert!(ctx.store.channels[0].receipts == vec![1]);
}

#[test]
fn a_timeout_needs_a_proof_of_absence() {
    let mut ctx = context(Order::Unordered, ScriptedVerifier::rejecting_proofs());
    let (packet, _) = ctx.send(&request(Height::new(0, 15), 0)).unwrap();
    advance(&mut ctx);
    assert_eq!(
        error_of(&mut ctx, timeout(packet.clone(), Height::new(0, 20))),
        Some(Error::ProofVerificationFailed)
    );
    assert_eq!(
        error_of(&mut ctx, timeout_on_close(packet.clone())),
        Some(Error::ProofVerificationFailed)
    );
    assert_eq!(error_of(&mut ctx, ack(packet.clone())), Some(Error::ProofVerificationFailed));
    assert_eq!(error_of(&mut ctx, recv(incoming(1))), Some(Error::ProofVerificationFailed));
    assert!(ctx.store.channels[0].commitments[0].is_some());
    ctx.verifier = ScriptedVerifier::accepting();
    assert_eq!(error_of(&mut ctx, timeout(packet, Height::new(0, 20))), None);
}

#[test]
fn a_timeout_must_lie_in_the_future_when_sending() {
    let mut ctx = context(Order::Unordered, ScriptedVerifier::accepting());
    let sent = |ctx: &mut Ctx, height: Height, time: u64| ctx.send(&request(height, time)).err();
    assert_eq!(sent(&mut ctx, Height::zero(), 0), Some(Error::InvalidTimeout));
    assert_eq!(sent(&mut ctx, Height::new(0, 10), 0), Some(Error::InvalidTimeout));
    assert_eq!(sent(&mut ctx, Height::new(0, 11), 100), Some(Error::InvalidTimeout));
    assert_eq!(sent(&mut ctx, Height::zero(), 100), Some(Error::InvalidTimeout));
    assert!(ctx.store.channels[0].commitments.is_empty());
    assert_eq!(sent(&mut ctx, Height::new(0, 11), 101), None);
    assert_eq!(sent(&mut ctx, Height::new(1, 0), 0), None);
    assert_eq!(sent(&mut ctx, Height::zero(), 101), None);
    assert_eq!(ctx.store.channels[0].commitments.len(), 3);
    let now = LedgerTime { height: Height::new(0, 20), timestamp: 200 };
    assert!(is_timeout_in_future(Height::new(0, 21), 0, now));
    assert!(!is_timeout_in_future(Height::new(0, 20), 0, now));
    assert!(has_timeout_passed(Height::new(0, 20), 0, now));
    assert!(has_timeout_passed(Height::zero(), 200, now));
    assert!(!has_timeout_passed(Height::new(0, 21), 201, now));
    assert!(!has_timeout_passed(Height::zero(), 0, now));
}

#[test]
fn nothing_moves_on_a_channel_that_is_not_open() {
    let mut ctx = context(Order::Unordered, ScriptedVerifier::accepting());
    let (packet, _) = ctx.send(&request(Height::new(0, 15), 0)).unwrap();
    advance(&mut ctx);
    ctx.store.channels[0].end.state = ChannelState::Closed;
    assert_eq!(ctx.send(&request(Height::new(0, 30), 0)).err(), Some(Error::ChannelNotOpen));
    assert_eq!(error_of(&mut ctx, recv(incoming(1))), Some(Error::ChannelNotOpen));
    assert_eq!(error_of(&mut ctx, ack(packet.clone())), Some(Error::ChannelNotOpen));
    // A timeout still resolves what was in flight.
    assert_eq!(error_of(&mut ctx, timeout_on_close(packet)), None);
    ctx.store.channels[0].end.state = ChannelState::Open;
    let mut elsewhere = incoming(1);
    elsewhere.destination_channel = ChannelId(3);
    assert_eq!(error_of(&mut ctx, recv(elsewhere)), Some(Error::ChannelNotOpen));
    let mut stranger = incoming(1);
    stranger.source_channel = ChannelId(6);
    assert_eq!(error_of(&mut ctx, recv(stranger)), Some(Error::ChannelNotOpen));
    ctx.store.connections[0].state = ConnectionState::TryOpen;
    assert_eq!(error_of(&mut ctx, recv(incoming(1))), Some(Error::ConnectionNotOpen));
    assert_eq!(ctx.send(&request(Height::new(0, 30), 0)).err(), Some(Error::ConnectionNotOpen));
    ctx.store.connections[0].state = ConnectionState::Open;
    ctx.store.clients[0].status = ClientStatus::Frozen;
    assert_eq!(error_of(&mut ctx, recv(incoming(1))), Some(Error::ClientFrozen));
    ctx.store.clients[0].status = ClientStatus::Active;
    let mut unknown_height = recv(incoming(1));
    if let Ics26Envelope::Ics4PacketMsg(PacketMsg::RecvPacket(m)) = &mut unknown_height {
        m.proof_height = Height::new(0, 11);
    }
    assert_eq!(error_of(&mut ctx, unknown_height), Some(Error::InvalidConsensusHeight));
    assert!(ctx.store.channels[0].receipts.is_empty());
}

#[test]
fn a_port_without_a_module_is_not_served() {
    let mut ctx: Ctx = Context::new(
        ScriptedVerifier::accepting(),
        LedgerTime { height: Height::new(0, 50), timestamp: 500 },
    );
    ctx.store = open_store(Order::Unordered);
    assert_eq!(error_of(&mut ctx, recv(incoming(1))), Some(Error::ModuleNotFound));
    // A binding to a module that was never registered serves nobody either.
    assert_eq!(ctx.registry.bind(PortId::new("transfer"), ModuleId::new("transfer")), Ok(()));
    assert_eq!(error_of(&mut ctx, recv(incoming(1))), Some(Error::ModuleNotFound));
    assert!(ctx.store.channels[0].receipts.is_empty());
}

#[test]
fn a_module_that_rejects_aborts_the_message() {
    let mut ctx = context(Order::Unordered, ScriptedVerifier::accepting());
    // The collecting account is full: the fee cannot be moved, and the decorator rejects.
    assert!(ctx.registry.modules[0].module.inner.bank.mint(
        "fees",
        "transfer/channel-0/uatom",
        u128::MAX
    ));
    let store = format!("{:?}", ctx.store);
    let registry = format!("{:?}", ctx.registry);
    assert_eq!(error_of(&mut ctx, recv(incoming(1))), Some(Error::ApplicationCallbackRejected));
    // Nothing is left behind: no receipt, and the receiver is not credited either.
    assert_eq!(format!("{:?}", ctx.store), store);
    assert_eq!(format!("{:?}", ctx.registry), registry);
    let bank = &ctx.registry.modules[0].module.inner.bank;
    assert_eq!(bank.balance_of("bob", "transfer/channel-0/uatom"), 0);
    assert_eq!(bank.balance_of("fees", "transfer/channel-0/uatom"), u128::MAX);
}

#[test]
fn data_that_hold_no_payload_are_for_the_inner_module_to_judge() {
    let mut ctx = context(Order::Unordered, ScriptedVerifier::accepting());
    let mut packet = incoming(1);
    packet.data = b"no payload".to_vec();
    let output = dispatch(&mut ctx, recv(packet)).unwrap();
    assert_eq!(
        output.events,
        vec![
            Event::ReceivePacket { channel_id: ChannelId(0), sequence: 1 },
            Event::WriteAcknowledgement { channel_id: ChannelId(0), sequence: 1 },
        ]
    );
    assert_eq!(ctx.store.channels[0].receipts, vec![1]);
    assert_eq!(
        ctx.store.channels[0].acks[0].acknowledgement,
        br#"{"error":"transfer failed"}"#.to_vec()
    );
    assert!(ctx.registry.modules[0].module.inner.bank.balances.is_empty());
}

#[test]
fn an_application_failure_is_acknowledged_not_rejected() {
    let mut ctx = context(Order::Unordered, ScriptedVerifier::accepting());
    assert!(ctx.registry.modules[0].module.inner.bank.mint(
        "bob",
        "transfer/channel-0/uatom",
        u128::MAX
    ));
    let output = dispatch(&mut ctx, recv(incoming(1))).unwrap();
    assert_eq!(
        output.events,
        vec![
            Event::ReceivePacket { channel_id: ChannelId(0), sequence: 1 },
            Event::WriteAcknowledgement { channel_id: ChannelId(0), sequence: 1 },
        ]
    );
    assert_eq!(ctx.store.channels[0].receipts, vec![1]);
    assert_eq!(
        ctx.store.channels[0].acks[0].acknowledgement,
        br#"{"error":"transfer failed"}"#.to_vec()
    );
}
