//! The packet lifecycle: send, receive, and then acknowledge or time out.

use crate::channel::{find_open_link, mirror, mirror_of, open_link, ChannelState};
use crate::error::Error;
use crate::evidence::{check_proof, proof_check, Claim, ClaimView, ProofVerifier};
use crate::output::{Event, HandlerOutput, OutputView};
use crate::store::{
    ChannelEntry, ChannelEntryView, PacketResult, PacketResultView, RecvPacketResult, Store,
    StoreView,
};
use crate::types::{
    copy_bytes, same_bytes, ChannelId, ClientId, Height, Order, PortId, Signer,
};
use vstd::prelude::*;

verus! {

/// One unit of application data on its way over a channel.
#[derive(Debug)]
pub struct Packet {
    pub sequence: u64,
    pub source_port: PortId,
    pub source_channel: ChannelId,
    pub destination_port: PortId,
    pub destination_channel: ChannelId,
    pub data: Vec<u8>,
    pub timeout_height: Height,
    pub timeout_timestamp: u64,
}

/// The mathematical content of a [`Packet`].
pub struct PacketView {
    pub sequence: u64,
    pub source_port: Seq<char>,
    pub source_channel: ChannelId,
    pub destination_port: Seq<char>,
    pub destination_channel: ChannelId,
    pub data: Seq<u8>,
    pub timeout_height: Height,
    pub timeout_timestamp: u64,
}

impl View for Packet {
    type V = PacketView;

    open spec fn view(&self) -> PacketView {
        PacketView {
            sequence: self.sequence,
            source_port: self.source_port@,
            source_channel: self.source_channel,
            destination_port: self.destination_port@,
            destination_channel: self.destination_channel,
            data: self.data@,
            timeout_height: self.timeout_height,
            timeout_timestamp: self.timeout_timestamp,
        }
    }
}

impl Clone for Packet {
    fn clone(&self) -> (p: Packet)
        ensures
            p@ == self@,
    {
        Packet {
            sequence: self.sequence,
            source_port: self.source_port.clone(),
            source_channel: self.source_channel,
            destination_port: self.destination_port.clone(),
            destination_channel: self.destination_channel,
            data: copy_bytes(&self.data),
            timeout_height: self.timeout_height,
            timeout_timestamp: self.timeout_timestamp,
        }
    }
}

/// What the sender keeps of a packet until it is acknowledged or timed out.
#[derive(Debug)]
pub struct Commitment {
    pub timeout_height: Height,
    pub timeout_timestamp: u64,
    pub data: Vec<u8>,
}

/// The mathematical content of a [`Commitment`].
pub struct CommitmentView {
    pub timeout_height: Height,
    pub timeout_timestamp: u64,
    pub data: Seq<u8>,
}

impl View for Commitment {
    type V = CommitmentView;

    open spec fn view(&self) -> CommitmentView {
        CommitmentView {
            timeout_height: self.timeout_height,
            timeout_timestamp: self.timeout_timestamp,
            data: self.data@,
        }
    }
}

impl PacketView {
    /// The commitment that the sender of this packet keeps.
    pub open spec fn commitment(self) -> CommitmentView {
        CommitmentView {
            timeout_height: self.timeout_height,
            timeout_timestamp: self.timeout_timestamp,
            data: self.data,
        }
    }
}

impl Clone for Commitment {
    fn clone(&self) -> (c: Commitment)
        ensures
            c@ == self@,
    {
        Commitment {
            timeout_height: self.timeout_height,
            timeout_timestamp: self.timeout_timestamp,
            data: copy_bytes(&self.data),
        }
    }
}

impl Packet {
    /// The commitment that the sender of this packet keeps.
    pub fn commitment(&self) -> (c: Commitment)
        ensures
            c@ == self@.commitment(),
    {
        Commitment {
            timeout_height: self.timeout_height,
            timeout_timestamp: self.timeout_timestamp,
            data: copy_bytes(&self.data),
        }
    }
}

/// A height and a time on one ledger.
#[derive(Clone, Copy, Debug, PartialEq, Eq, Structural)]
pub struct LedgerTime {
    pub height: Height,
    pub timestamp: u64,
}

/// A timeout lies in the future of `known` when a height or a time is set, and each one
/// that is set lies strictly after what is known.
pub open spec fn timeout_in_future(
    timeout_height: Height,
    timeout_timestamp: u64,
    known: LedgerTime,
) -> bool {
    &&& !timeout_height.unset() || timeout_timestamp != 0
    &&& timeout_height.unset() || known.height.before(timeout_height)
    &&& timeout_timestamp == 0 || known.timestamp < timeout_timestamp
}

/// A timeout has passed at `at` when its height is set and reached, or its time is set and
/// reached.
pub open spec fn timeout_passed(timeout_height: Height, timeout_timestamp: u64, at: LedgerTime) -> bool {
    (!timeout_height.unset() && timeout_height.at_or_before(at.height)) || (timeout_timestamp != 0
        && timeout_timestamp <= at.timestamp)
}

/// Computes [`timeout_in_future`].
pub fn is_timeout_in_future(timeout_height: Height, timeout_timestamp: u64, known: LedgerTime) -> (r:
    bool)
    ensures
        r == timeout_in_future(timeout_height, timeout_timestamp, known),
{
    (!timeout_height.is_zero() || timeout_timestamp != 0) && (timeout_height.is_zero()
        || known.height.lt(&timeout_height)) && (timeout_timestamp == 0 || known.timestamp
        < timeout_timestamp)
}

/// Computes [`timeout_passed`].
pub fn has_timeout_passed(timeout_height: Height, timeout_timestamp: u64, at: LedgerTime) -> (r:
    bool)
    ensures
        r == timeout_passed(timeout_height, timeout_timestamp, at),
{
    (!timeout_height.is_zero() && timeout_height.le(&at.height)) || (timeout_timestamp != 0
        && timeout_timestamp <= at.timestamp)
}

/// What an application asks to have sent.
#[derive(Debug)]
pub struct SendRequest {
    pub source_port: PortId,
    pub source_channel: ChannelId,
    pub data: Vec<u8>,
    pub timeout_height: Height,
    pub timeout_timestamp: u64,
}

/// Delivers a packet that the counterparty committed to.
#[derive(Debug)]
pub struct MsgRecvPacket {
    pub packet: Packet,
    pub proof_commitment: Vec<u8>,
    pub proof_height: Height,
    pub signer: Signer,
}

/// Brings back the acknowledgement that the counterparty wrote for a sent packet.
#[derive(Debug)]
pub struct MsgAcknowledgement {
    pub packet: Packet,
    pub acknowledgement: Vec<u8>,
    pub proof_acked: Vec<u8>,
    pub proof_height: Height,
    pub signer: Signer,
}

/// Shows that a sent packet was not received before its timeout.
#[derive(Debug)]
pub struct MsgTimeout {
    pub packet: Packet,
    pub proof_unreceived: Vec<u8>,
    pub proof_height: Height,
    pub signer: Signer,
}

/// Shows that a sent packet was not received before the counterparty closed the channel.
#[derive(Debug)]
pub struct MsgTimeoutOnClose {
    pub packet: Packet,
    pub proof_unreceived: Vec<u8>,
    pub proof_close: Vec<u8>,
    pub proof_height: Height,
    pub signer: Signer,
}

/// A message of the packet lifecycle.
#[derive(Debug)]
pub enum PacketMsg {
    RecvPacket(MsgRecvPacket),
    AckPacket(MsgAcknowledgement),
    TimeoutPacket(MsgTimeout),
    TimeoutOnClosePacket(MsgTimeoutOnClose),
}

impl PacketMsg {
    /// The packet that the message is about.
    pub open spec fn packet(&self) -> PacketView {
        match self {
            PacketMsg::RecvPacket(m) => m.packet@,
            PacketMsg::AckPacket(m) => m.packet@,
            PacketMsg::TimeoutPacket(m) => m.packet@,
            PacketMsg::TimeoutOnClosePacket(m) => m.packet@,
        }
    }

    /// The local port that the message addresses: the destination of a packet that
    /// arrives, the source of one that was sent.
    pub open spec fn port(&self) -> Seq<char> {
        match self {
            PacketMsg::RecvPacket(m) => m.packet@.destination_port,
            PacketMsg::AckPacket(m) => m.packet@.source_port,
            PacketMsg::TimeoutPacket(m) => m.packet@.source_port,
            PacketMsg::TimeoutOnClosePacket(m) => m.packet@.source_port,
        }
    }

    /// The local port that the message addresses.
    pub fn port_id(&self) -> (port: &PortId)
        ensures
            port@ == self.port(),
    {
        match self {
            PacketMsg::RecvPacket(m) => &m.packet.destination_port,
            PacketMsg::AckPacket(m) => &m.packet.source_port,
            PacketMsg::TimeoutPacket(m) => &m.packet.source_port,
            PacketMsg::TimeoutOnClosePacket(m) => &m.packet.source_port,
        }
    }

    /// The packet that the message is about.
    pub fn packet_ref(&self) -> (packet: &Packet)
        ensures
            packet@ == self.packet(),
    {
        match self {
            PacketMsg::RecvPacket(m) => &m.packet,
            PacketMsg::AckPacket(m) => &m.packet,
            PacketMsg::TimeoutPacket(m) => &m.packet,
            PacketMsg::TimeoutOnClosePacket(m) => &m.packet,
        }
    }
}

/// What a packet message comes to: the change to commit and what to report.
pub struct PacketOutcome {
    pub result: PacketResultView,
    pub output: OutputView,
}

/// Whether a handler's answer is the outcome that the model gives.
pub open spec fn packet_answer(
    answer: Result<(PacketResult, HandlerOutput), Error>,
    outcome: Result<PacketOutcome, Error>,
) -> bool {
    match answer {
        Ok((result, output)) => outcome == Ok::<PacketOutcome, Error>(
            PacketOutcome { result: result@, output: output@ },
        ),
        Err(e) => outcome == Err::<PacketOutcome, Error>(e),
    }
}

/// What sending comes to: the packet as it goes out, the change to commit and what to
/// report.
pub struct SendOutcome {
    pub packet: PacketView,
    pub result: PacketResultView,
    pub output: OutputView,
}

/// What the sender trusts to be the counterparty's latest height and time: the latest
/// verified height of the client and the time of the snapshot taken there (zero where the
/// client keeps none).
pub open spec fn trusted_time(store: StoreView, client_id: ClientId) -> Option<
    LedgerTime,
> {
    match store.client(client_id) {
        None => None,
        Some(client) => Some(
            LedgerTime {
                height: client.latest_height,
                timestamp: match client.snapshot_at(client.latest_height) {
                    Some(snapshot) => snapshot.timestamp,
                    None => 0,
                },
            },
        ),
    }
}

/// The packet that goes out for `request` on the channel `entry`.
pub open spec fn outgoing(request: &SendRequest, entry: ChannelEntryView) -> PacketView {
    PacketView {
        sequence: entry.next_send() as u64,
        source_port: request.source_port@,
        source_channel: request.source_channel,
        destination_port: entry.end.counterparty_port_id,
        destination_channel: entry.end.counterparty_channel_id->0,
        data: request.data@,
        timeout_height: request.timeout_height,
        timeout_timestamp: request.timeout_timestamp,
    }
}

/// The outcome of sending.
///
/// The channel must exist under the port, be `Open`, name its counterparty and have a
/// sequence number left (else `ChannelNotOpen`); its connection must be open. The timeout
/// must lie strictly in the future of what the sender trusts of the counterparty (else
/// `InvalidTimeout`, also where nothing is known of the counterparty). The packet gets the
/// next sequence number of the channel, and its commitment is kept.
pub open spec fn send_outcome(store: StoreView, request: &SendRequest) -> Result<SendOutcome, Error> {
    match store.channel(request.source_port@, request.source_channel) {
        None => Err(Error::ChannelNotOpen),
        Some(entry) => {
            let link = open_link(store, entry.end.connection_id);
            let packet = outgoing(request, entry);
            if entry.end.state != ChannelState::Open || entry.end.counterparty_channel_id.is_none()
                || entry.next_send() > u64::MAX {
                Err(Error::ChannelNotOpen)
            } else if link is Err {
                Err(link->Err_0)
            } else {
                match trusted_time(store, link->Ok_0.client_id) {
                    None => Err(Error::InvalidTimeout),
                    Some(known) => {
                        if !timeout_in_future(
                            request.timeout_height,
                            request.timeout_timestamp,
                            known,
                        ) {
                            Err(Error::InvalidTimeout)
                        } else {
                            Ok(
                                SendOutcome {
                                    packet,
                                    result: PacketResultView::Send {
                                        channel_id: request.source_channel,
                                        commitment: packet.commitment(),
                                    },
                                    output: OutputView::single(
                                        Event::SendPacket {
                                            channel_id: request.source_channel,
                                            sequence: packet.sequence,
                                        },
                                        "packet sent"@,
                                    ),
                                },
                            )
                        }
                    },
                }
            }
        },
    }
}

/// Whether the channel end `entry` is the end that `packet` names as its destination,
/// coming from the end that the channel names as its counterparty.
pub open spec fn arrives_on(packet: PacketView, entry: ChannelEntryView) -> bool {
    &&& entry.end.counterparty_port_id == packet.source_port
    &&& entry.end.counterparty_channel_id == Some(packet.source_channel)
}

/// Whether the channel end `entry` is the end that `packet` names as its source, going to
/// the end that the channel names as its counterparty.
pub open spec fn leaves_from(packet: PacketView, entry: ChannelEntryView) -> bool {
    &&& entry.end.counterparty_port_id == packet.destination_port
    &&& entry.end.counterparty_channel_id == Some(packet.destination_channel)
}

/// The outcome of receiving, on a ledger that is now at `now`.
///
/// In this order: the destination channel must exist under the destination port, be
/// `Open` and have the packet's source as its counterparty (else `ChannelNotOpen`); on an
/// ordered channel the sequence must be the next one expected (else `OutOfOrderPacket`);
/// the connection must be open; the timeout must not have passed at `now` (else
/// `InvalidTimeout`); the proof that the source committed to this packet must hold. On
/// an unordered channel a packet that was received before is then a no-op without events;
/// a new one is recorded. On an ordered channel a packet that was received before does
/// not carry the next sequence, so it fails with `OutOfOrderPacket` and never comes to be
/// a no-op.
pub open spec fn recv_outcome<V: ProofVerifier>(
    store: StoreView,
    verifier: &V,
    now: LedgerTime,
    msg: &MsgRecvPacket,
) -> Result<PacketOutcome, Error> {
    let packet = msg.packet@;
    match store.channel(packet.destination_port, packet.destination_channel) {
        None => Err(Error::ChannelNotOpen),
        Some(entry) => {
            let link = open_link(store, entry.end.connection_id);
            if entry.end.state != ChannelState::Open || !arrives_on(packet, entry) {
                Err(Error::ChannelNotOpen)
            } else if entry.end.ordering == Order::Ordered && (packet.sequence != entry.next_recv
                || packet.sequence == u64::MAX) {
                Err(Error::OutOfOrderPacket)
            } else if link is Err {
                Err(link->Err_0)
            } else if timeout_passed(packet.timeout_height, packet.timeout_timestamp, now) {
                Err(Error::InvalidTimeout)
            } else {
                let checked = proof_check(
                    store,
                    verifier,
                    link->Ok_0.client_id,
                    msg.proof_height,
                    msg.proof_commitment@,
                    ClaimView::PacketCommitment { packet },
                );
                if checked is Err {
                    Err(checked->Err_0)
                } else if entry.received(packet.sequence) {
                    Ok(
                        PacketOutcome {
                            result: PacketResultView::Recv(RecvPacketResult::NoOp),
                            output: OutputView::empty(),
                        },
                    )
                } else {
                    Ok(
                        PacketOutcome {
                            result: PacketResultView::Recv(
                                RecvPacketResult::Success {
                                    channel_id: packet.destination_channel,
                                    sequence: packet.sequence,
                                },
                            ),
                            output: OutputView::single(
                                Event::ReceivePacket {
                                    channel_id: packet.destination_channel,
                                    sequence: packet.sequence,
                                },
                                "packet received"@,
                            ),
                        },
                    )
                }
            }
        },
    }
}

/// The outcome of an acknowledgement that comes back to the sender.
///
/// The source channel must exist under the source port, be `Open` and have the packet's
/// destination as its counterparty (else `ChannelNotOpen`); the commitment kept for the
/// sequence must be that of this packet (else `ProofVerificationFailed`: there is nothing
/// left to acknowledge); on an ordered channel the sequence must be the next one to be
/// acknowledged (else `OutOfOrderPacket`); the connection must be open; the proof that the
/// destination wrote this acknowledgement must hold. The commitment is deleted.
pub open spec fn ack_outcome<V: ProofVerifier>(
    store: StoreView,
    verifier: &V,
    msg: &MsgAcknowledgement,
) -> Result<PacketOutcome, Error> {
    let packet = msg.packet@;
    match store.channel(packet.source_port, packet.source_channel) {
        None => Err(Error::ChannelNotOpen),
        Some(entry) => {
            let link = open_link(store, entry.end.connection_id);
            if entry.end.state != ChannelState::Open || !leaves_from(packet, entry) {
                Err(Error::ChannelNotOpen)
            } else if entry.commitment_at(packet.sequence) != Some(packet.commitment()) {
                Err(Error::ProofVerificationFailed)
            } else if entry.end.ordering == Order::Ordered && packet.sequence != entry.next_ack {
                Err(Error::OutOfOrderPacket)
            } else if link is Err {
                Err(link->Err_0)
            } else {
                let checked = proof_check(
                    store,
                    verifier,
                    link->Ok_0.client_id,
                    msg.proof_height,
                    msg.proof_acked@,
                    ClaimView::Acknowledgement { packet, acknowledgement: msg.acknowledgement@ },
                );
                if checked is Err {
                    Err(checked->Err_0)
                } else {
                    Ok(
                        PacketOutcome {
                            result: PacketResultView::Ack {
                                channel_id: packet.source_channel,
                                sequence: packet.sequence,
                            },
                            output: OutputView::single(
                                Event::AcknowledgePacket {
                                    channel_id: packet.source_channel,
                                    sequence: packet.sequence,
                                },
                                "packet acknowledged"@,
                            ),
                        },
                    )
                }
            }
        },
    }
}

/// What stands against resolving a sent packet by timeout, before any proof is looked at.
///
/// The source channel must be `Open` or `Closed` and have the packet's destination as its
/// counterparty (else `ChannelNotOpen`); the commitment kept for the sequence must be that
/// of this packet (else `ProofVerificationFailed`: there is nothing left to time out).
pub open spec fn timeout_obstacle(packet: PacketView, entry: ChannelEntryView) -> Option<Error> {
    if (entry.end.state != ChannelState::Open && entry.end.state != ChannelState::Closed)
        || !leaves_from(packet, entry) {
        Some(Error::ChannelNotOpen)
    } else if entry.commitment_at(packet.sequence) != Some(packet.commitment()) {
        Some(Error::ProofVerificationFailed)
    } else {
        None
    }
}

/// The claim that the destination holds no receipt for `packet`.
pub open spec fn absence_claim(packet: PacketView) -> ClaimView {
    ClaimView::ReceiptAbsent {
        port_id: packet.destination_port,
        channel_id: packet.destination_channel,
        sequence: packet.sequence,
    }
}

/// The outcome of a timeout.
///
/// Nothing may stand against it (see [`timeout_obstacle`]); the connection must be open;
/// the proof that the destination holds no receipt must hold at the proof height; and the
/// packet's timeout must have passed on the destination at that height and at the time of
/// the snapshot taken there (else `InvalidTimeout`). The commitment is deleted.
pub open spec fn timeout_outcome<V: ProofVerifier>(
    store: StoreView,
    verifier: &V,
    msg: &MsgTimeout,
) -> Result<PacketOutcome, Error> {
    let packet = msg.packet@;
    match store.channel(packet.source_port, packet.source_channel) {
        None => Err(Error::ChannelNotOpen),
        Some(entry) => {
            let link = open_link(store, entry.end.connection_id);
            if timeout_obstacle(packet, entry).is_some() {
                Err(timeout_obstacle(packet, entry)->0)
            } else if link is Err {
                Err(link->Err_0)
            } else {
                let client_id = link->Ok_0.client_id;
                let checked = proof_check(
                    store,
                    verifier,
                    client_id,
                    msg.proof_height,
                    msg.proof_unreceived@,
                    absence_claim(packet),
                );
                if checked is Err {
                    Err(checked->Err_0)
                } else if !timeout_passed(
                    packet.timeout_height,
                    packet.timeout_timestamp,
                    LedgerTime {
                        height: msg.proof_height,
                        timestamp: store.client(client_id)->0.snapshot_at(
                            msg.proof_height,
                        )->0.timestamp,
                    },
                ) {
                    Err(Error::InvalidTimeout)
                } else {
                    Ok(
                        PacketOutcome {
                            result: PacketResultView::Timeout {
                                channel_id: packet.source_channel,
                                sequence: packet.sequence,
                            },
                            output: OutputView::single(
                                Event::TimeoutPacket {
                                    channel_id: packet.source_channel,
                                    sequence: packet.sequence,
                                },
                                "packet timed out"@,
                            ),
                        },
                    )
                }
            }
        },
    }
}

/// The outcome of a timeout on close.
///
/// Nothing may stand against it (see [`timeout_obstacle`]); the connection must be open;
/// the proof that the destination closed its end of the channel must hold, and so must the
/// proof that the destination holds no receipt. The commitment is deleted.
pub open spec fn timeout_on_close_outcome<V: ProofVerifier>(
    store: StoreView,
    verifier: &V,
    msg: &MsgTimeoutOnClose,
) -> Result<PacketOutcome, Error> {
    let packet = msg.packet@;
    match store.channel(packet.source_port, packet.source_channel) {
        None => Err(Error::ChannelNotOpen),
        Some(entry) => {
            let link = open_link(store, entry.end.connection_id);
            if timeout_obstacle(packet, entry).is_some() {
                Err(timeout_obstacle(packet, entry)->0)
            } else if link is Err {
                Err(link->Err_0)
            } else {
                let client_id = link->Ok_0.client_id;
                let closed = proof_check(
                    store,
                    verifier,
                    client_id,
                    msg.proof_height,
                    msg.proof_close@,
                    ClaimView::Channel {
                        channel_id: packet.destination_channel,
                        record: mirror(
                            entry.end,
                            Some(packet.source_channel),
                            ChannelState::Closed,
                            link->Ok_0.counterparty_connection_id,
                            entry.end.version,
                        ),
                    },
                );
                let unreceived = proof_check(
                    store,
                    verifier,
                    client_id,
                    msg.proof_height,
                    msg.proof_unreceived@,
                    absence_claim(packet),
                );
                if closed is Err {
                    Err(closed->Err_0)
                } else if unreceived is Err {
                    Err(unreceived->Err_0)
                } else {
                    Ok(
                        PacketOutcome {
                            result: PacketResultView::Timeout {
                                channel_id: packet.source_channel,
                                sequence: packet.sequence,
                            },
                            output: OutputView::single(
                                Event::TimeoutOnClosePacket {
                                    channel_id: packet.source_channel,
                                    sequence: packet.sequence,
                                },
                                "packet timed out on a closed channel"@,
                            ),
                        },
                    )
                }
            }
        },
    }
}

/// The outcome of a packet message against `store`, on a ledger that is now at `now`.
pub open spec fn packet_outcome<V: ProofVerifier>(
    store: StoreView,
    verifier: &V,
    now: LedgerTime,
    msg: &PacketMsg,
) -> Result<PacketOutcome, Error> {
    match msg {
        PacketMsg::RecvPacket(m) => recv_outcome(store, verifier, now, m),
        PacketMsg::AckPacket(m) => ack_outcome(store, verifier, m),
        PacketMsg::TimeoutPacket(m) => timeout_outcome(store, verifier, m),
        PacketMsg::TimeoutOnClosePacket(m) => timeout_on_close_outcome(store, verifier, m),
    }
}

/// Computes [`trusted_time`].
pub fn trusted_time_of(store: &Store, client_id: ClientId) -> (known: Option<
    LedgerTime,
>)
    ensures
        known == trusted_time(store@, client_id),
{
    match store.client(client_id) {
        None => None,
        Some(client) => {
            let timestamp = match client.snapshot_at(client.latest_height) {
                Some(snapshot) => snapshot.timestamp,
                None => 0,
            };
            Some(LedgerTime { height: client.latest_height, timestamp })
        },
    }
}

/// Computes [`arrives_on`].
pub fn packet_arrives_on(packet: &Packet, entry: &ChannelEntry) -> (r: bool)
    ensures
        r == arrives_on(packet@, entry@),
{
    entry.end.counterparty_port_id.same(&packet.source_port) && match entry.end.counterparty_channel_id {
        Some(id) => id == packet.source_channel,
        None => false,
    }
}

/// Computes [`leaves_from`].
pub fn packet_leaves_from(packet: &Packet, entry: &ChannelEntry) -> (r: bool)
    ensures
        r == leaves_from(packet@, entry@),
{
    entry.end.counterparty_port_id.same(&packet.destination_port) && match entry.end.counterparty_channel_id {
        Some(id) => id == packet.destination_channel,
        None => false,
    }
}

/// Whether `entry` still holds the commitment of `packet`.
pub fn holds_commitment_of(entry: &ChannelEntry, packet: &Packet) -> (r: bool)
    ensures
        r == (entry@.commitment_at(packet.sequence) == Some(packet@.commitment())),
{
    match entry.commitment_at(packet.sequence) {
        None => false,
        Some(kept) => kept.timeout_height == packet.timeout_height && kept.timeout_timestamp
            == packet.timeout_timestamp && same_bytes(&kept.data, &packet.data),
    }
}

/// Computes [`timeout_obstacle`].
pub fn find_timeout_obstacle(packet: &Packet, entry: &ChannelEntry) -> (obstacle: Option<Error>)
    ensures
        obstacle == timeout_obstacle(packet@, entry@),
{
    if (entry.end.state != ChannelState::Open && entry.end.state != ChannelState::Closed)
        || !packet_leaves_from(packet, entry) {
        Some(Error::ChannelNotOpen)
    } else if !holds_commitment_of(entry, packet) {
        Some(Error::ProofVerificationFailed)
    } else {
        None
    }
}

/// Assigns the next sequence number to what an application asks to have sent, and says
/// what has to be committed. The store is not changed.
pub fn send_packet(store: &Store, request: &SendRequest) -> (answer: Result<
    (Packet, PacketResult, HandlerOutput),
    Error,
>)
    ensures
        match answer {
            Ok((packet, result, output)) => send_outcome(store@, request) == Ok::<
                SendOutcome,
                Error,
            >(SendOutcome { packet: packet@, result: result@, output: output@ }),
            Err(e) => send_outcome(store@, request) == Err::<SendOutcome, Error>(e),
        },
{
    let entry = match store.channel(&request.source_port, request.source_channel) {
        None => {
            return Err(Error::ChannelNotOpen);
        },
        Some(entry) => entry,
    };
    if entry.end.state != ChannelState::Open {
        return Err(Error::ChannelNotOpen);
    }
    let destination_channel = match entry.end.counterparty_channel_id {
        None => {
            return Err(Error::ChannelNotOpen);
        },
        Some(id) => id,
    };
    let sent = entry.commitments.len() as u64;
    if sent == u64::MAX {
        return Err(Error::ChannelNotOpen);
    }
    let link = match find_open_link(store, entry.end.connection_id) {
        Err(e) => {
            return Err(e);
        },
        Ok(link) => link,
    };
    let known = match trusted_time_of(store, link.client_id) {
        None => {
            return Err(Error::InvalidTimeout);
        },
        Some(known) => known,
    };
    if !is_timeout_in_future(request.timeout_height, request.timeout_timestamp, known) {
        return Err(Error::InvalidTimeout);
    }
    let packet = Packet {
        sequence: sent + 1,
        source_port: request.source_port.clone(),
        source_channel: request.source_channel,
        destination_port: entry.end.counterparty_port_id.clone(),
        destination_channel,
        data: copy_bytes(&request.data),
        timeout_height: request.timeout_height,
        timeout_timestamp: request.timeout_timestamp,
    };
    let result = PacketResult::Send {
        channel_id: request.source_channel,
        commitment: packet.commitment(),
    };
    let output = HandlerOutput::single(
        Event::SendPacket { channel_id: request.source_channel, sequence: packet.sequence },
        "packet sent",
    );
    Ok((packet, result, output))
}

/// Handles `RecvPacket` on a ledger that is now at `now`.
pub fn recv_packet<V: ProofVerifier>(
    store: &Store,
    verifier: &V,
    now: LedgerTime,
    msg: &MsgRecvPacket,
) -> (answer: Result<(PacketResult, HandlerOutput), Error>)
    ensures
        packet_answer(answer, recv_outcome(store@, verifier, now, msg)),
{
    let packet = &msg.packet;
    let entry = match store.channel(&packet.destination_port, packet.destination_channel) {
        None => {
            return Err(Error::ChannelNotOpen);
        },
        Some(entry) => entry,
    };
    if entry.end.state != ChannelState::Open || !packet_arrives_on(packet, entry) {
        return Err(Error::ChannelNotOpen);
    }
    if entry.end.ordering == Order::Ordered && (packet.sequence != entry.next_recv
        || packet.sequence == u64::MAX) {
        return Err(Error::OutOfOrderPacket);
    }
    let link = match find_open_link(store, entry.end.connection_id) {
        Err(e) => {
            return Err(e);
        },
        Ok(link) => link,
    };
    if has_timeout_passed(packet.timeout_height, packet.timeout_timestamp, now) {
        return Err(Error::InvalidTimeout);
    }
    let claim = Claim::PacketCommitment { packet: packet.clone() };
    match check_proof(
        store,
        verifier,
        link.client_id,
        msg.proof_height,
        &msg.proof_commitment,
        &claim,
    ) {
        Err(e) => {
            return Err(e);
        },
        Ok(()) => {},
    }
    if entry.received(packet.sequence) {
        return Ok((PacketResult::Recv(RecvPacketResult::NoOp), HandlerOutput::new()));
    }
    let result = PacketResult::Recv(
        RecvPacketResult::Success {
            channel_id: packet.destination_channel,
            sequence: packet.sequence,
        },
    );
    let output = HandlerOutput::single(
        Event::ReceivePacket { channel_id: packet.destination_channel, sequence: packet.sequence },
        "packet received",
    );
    Ok((result, output))
}

/// Handles an acknowledgement that comes back to the sender.
pub fn acknowledge_packet<V: ProofVerifier>(
    store: &Store,
    verifier: &V,
    msg: &MsgAcknowledgement,
) -> (answer: Result<(PacketResult, HandlerOutput), Error>)
    ensures
        packet_answer(answer, ack_outcome(store@, verifier, msg)),
{
    let packet = &msg.packet;
    let entry = match store.channel(&packet.source_port, packet.source_channel) {
        None => {
            return Err(Error::ChannelNotOpen);
        },
        Some(entry) => entry,
    };
    if entry.end.state != ChannelState::Open || !packet_leaves_from(packet, entry) {
        return Err(Error::ChannelNotOpen);
    }
    if !holds_commitment_of(entry, packet) {
        return Err(Error::ProofVerificationFailed);
    }
    if entry.end.ordering == Order::Ordered && packet.sequence != entry.next_ack {
        return Err(Error::OutOfOrderPacket);
    }
    let link = match find_open_link(store, entry.end.connection_id) {
        Err(e) => {
            return Err(e);
        },
        Ok(link) => link,
    };
    let claim = Claim::Acknowledgement {
        packet: packet.clone(),
        acknowledgement: copy_bytes(&msg.acknowledgement),
    };
    match check_proof(store, verifier, link.client_id, msg.proof_height, &msg.proof_acked, &claim) {
        Err(e) => {
            return Err(e);
        },
        Ok(()) => {},
    }
    let result = PacketResult::Ack { channel_id: packet.source_channel, sequence: packet.sequence };
    let output = HandlerOutput::single(
        Event::AcknowledgePacket { channel_id: packet.source_channel, sequence: packet.sequence },
        "packet acknowledged",
    );
    Ok((result, output))
}

/// Handles a timeout.
pub fn timeout_packet<V: ProofVerifier>(store: &Store, verifier: &V, msg: &MsgTimeout) -> (answer:
    Result<(PacketResult, HandlerOutput), Error>)
    ensures
        packet_answer(answer, timeout_outcome(store@, verifier, msg)),
{
    let packet = &msg.packet;
    let entry = match store.channel(&packet.source_port, packet.source_channel) {
        None => {
            return Err(Error::ChannelNotOpen);
        },
        Some(entry) => entry,
    };
    match find_timeout_obstacle(packet, entry) {
        Some(e) => {
            return Err(e);
        },
        None => {},
    }
    let link = match find_open_link(store, entry.end.connection_id) {
        Err(e) => {
            return Err(e);
        },
        Ok(link) => link,
    };
    let claim = Claim::ReceiptAbsent {
        port_id: packet.destination_port.clone(),
        channel_id: packet.destination_channel,
        sequence: packet.sequence,
    };
    match check_proof(
        store,
        verifier,
        link.client_id,
        msg.proof_height,
        &msg.proof_unreceived,
        &claim,
    ) {
        Err(e) => {
            return Err(e);
        },
        Ok(()) => {},
    }
    let timestamp = match store.client(link.client_id) {
        None => 0,
        Some(client) => match client.snapshot_at(msg.proof_height) {
            None => 0,
            Some(snapshot) => snapshot.timestamp,
        },
    };
    if !has_timeout_passed(
        packet.timeout_height,
        packet.timeout_timestamp,
        LedgerTime { height: msg.proof_height, timestamp },
    ) {
        return Err(Error::InvalidTimeout);
    }
    let result = PacketResult::Timeout {
        channel_id: packet.source_channel,
        sequence: packet.sequence,
    };
    let output = HandlerOutput::single(
        Event::TimeoutPacket { channel_id: packet.source_channel, sequence: packet.sequence },
        "packet timed out",
    );
    Ok((result, output))
}

/// Handles a timeout on close.
pub fn timeout_on_close_packet<V: ProofVerifier>(
    store: &Store,
    verifier: &V,
    msg: &MsgTimeoutOnClose,
) -> (answer: Result<(PacketResult, HandlerOutput), Error>)
    ensures
        packet_answer(answer, timeout_on_close_outcome(store@, verifier, msg)),
{
    let packet = &msg.packet;
    let entry = match store.channel(&packet.source_port, packet.source_channel) {
        None => {
            return Err(Error::ChannelNotOpen);
        },
        Some(entry) => entry,
    };
    match find_timeout_obstacle(packet, entry) {
        Some(e) => {
            return Err(e);
        },
        None => {},
    }
    let link = match find_open_link(store, entry.end.connection_id) {
        Err(e) => {
            return Err(e);
        },
        Ok(link) => link,
    };
    let closed = Claim::Channel {
        channel_id: packet.destination_channel,
        record: mirror_of(
            &entry.end,
            Some(packet.source_channel),
            ChannelState::Closed,
            link.counterparty_connection_id,
            &entry.end.version,
        ),
    };
    match check_proof(store, verifier, link.client_id, msg.proof_height, &msg.proof_close, &closed) {
        Err(e) => {
            return Err(e);
        },
        Ok(()) => {},
    }
    let unreceived = Claim::ReceiptAbsent {
        port_id: packet.destination_port.clone(),
        channel_id: packet.destination_channel,
        sequence: packet.sequence,
    };
    match check_proof(
        store,
        verifier,
        link.client_id,
        msg.proof_height,
        &msg.proof_unreceived,
        &unreceived,
    ) {
        Err(e) => {
            return Err(e);
        },
        Ok(()) => {},
    }
    let result = PacketResult::Timeout {
        channel_id: packet.source_channel,
        sequence: packet.sequence,
    };
    let output = HandlerOutput::single(
        Event::TimeoutOnClosePacket { channel_id: packet.source_channel, sequence: packet.sequence },
        "packet timed out on a closed channel",
    );
    Ok((result, output))
}

/// Handles a packet message against `store`, without changing the store and without
/// calling the application module.
pub fn packet_dispatch<V: ProofVerifier>(
    store: &Store,
    verifier: &V,
    now: LedgerTime,
    msg: &PacketMsg,
) -> (answer: Result<(PacketResult, HandlerOutput), Error>)
    ensures
        packet_answer(answer, packet_outcome(store@, verifier, now, msg)),
{
    match msg {
        PacketMsg::RecvPacket(m) => recv_packet(store, verifier, now, m),
        PacketMsg::AckPacket(m) => acknowledge_packet(store, verifier, m),
        PacketMsg::TimeoutPacket(m) => timeout_packet(store, verifier, m),
        PacketMsg::TimeoutOnClosePacket(m) => timeout_on_close_packet(store, verifier, m),
    }
}

} // verus!
