//! The keyed state that the core reads and that the router commits to: client, connection
//! and channel records, and the packet bookkeeping of each channel.

use crate::channel::{ChannelRecord, ChannelRecordView};
use crate::client::{ClientRecord, ClientRecordView};
use crate::connection::{ConnectionRecord, ConnectionRecordView};
use crate::packet::{Commitment, CommitmentView};
use crate::types::{ChannelId, ClientId, ClientType, ConnectionId, Order, PortId};
use vstd::prelude::*;

verus! {

/// An acknowledgement written for a received packet.
#[derive(Debug)]
pub struct AckEntry {
    pub sequence: u64,
    pub acknowledgement: Vec<u8>,
}

/// The mathematical content of an [`AckEntry`].
pub struct AckEntryView {
    pub sequence: u64,
    pub acknowledgement: Seq<u8>,
}

impl View for AckEntry {
    type V = AckEntryView;

    open spec fn view(&self) -> AckEntryView {
        AckEntryView { sequence: self.sequence, acknowledgement: self.acknowledgement@ }
    }
}

/// A channel end with its packet bookkeeping.
///
/// The packet sent with sequence `n` has its commitment at position `n - 1` of
/// `commitments`, until it is acknowledged or timed out; so the next sequence to send is one
/// more than the length of `commitments`.
#[derive(Debug)]
pub struct ChannelEntry {
    pub end: ChannelRecord,
    pub next_recv: u64,
    pub next_ack: u64,
    pub commitments: Vec<Option<Commitment>>,
    pub receipts: Vec<u64>,
    pub acks: Vec<AckEntry>,
}

/// The mathematical content of a [`ChannelEntry`].
pub struct ChannelEntryView {
    pub end: ChannelRecordView,
    pub next_recv: u64,
    pub next_ack: u64,
    pub commitments: Seq<Option<CommitmentView>>,
    pub receipts: Seq<u64>,
    pub acks: Seq<AckEntryView>,
}

/// The content of an optional commitment.
pub open spec fn slot_view(slot: Option<Commitment>) -> Option<CommitmentView> {
    match slot {
        Some(c) => Some(c@),
        None => None,
    }
}

impl View for ChannelEntry {
    type V = ChannelEntryView;

    open spec fn view(&self) -> ChannelEntryView {
        ChannelEntryView {
            end: self.end@,
            next_recv: self.next_recv,
            next_ack: self.next_ack,
            commitments: self.commitments@.map_values(|slot: Option<Commitment>| slot_view(slot)),
            receipts: self.receipts@,
            acks: self.acks@.map_values(|a: AckEntry| a@),
        }
    }
}

impl ChannelEntryView {
    /// The entry of a channel on which no packet has moved yet.
    pub open spec fn fresh(end: ChannelRecordView) -> ChannelEntryView {
        ChannelEntryView {
            end,
            next_recv: 1,
            next_ack: 1,
            commitments: Seq::empty(),
            receipts: Seq::empty(),
            acks: Seq::empty(),
        }
    }

    /// The sequence that the next packet sent on this channel gets.
    pub open spec fn next_send(self) -> nat {
        self.commitments.len() + 1
    }

    /// The commitment still held for the packet sent with `sequence`.
    pub open spec fn commitment_at(self, sequence: u64) -> Option<CommitmentView> {
        if 1 <= sequence <= self.commitments.len() {
            self.commitments[sequence - 1]
        } else {
            None
        }
    }

    /// Whether a packet with `sequence` was received before: on an ordered channel every
    /// sequence below the next expected one, on an unordered channel every sequence with a
    /// receipt.
    ///
    /// Receiving asks this of unordered channels only, where a repeat is a no-op; on an
    /// ordered channel a repeat is out of order and fails before the question comes up.
    /// For ordered channels it serves where a store is held against a claim of absence.
    pub open spec fn received(self, sequence: u64) -> bool {
        match self.end.ordering {
            Order::Ordered => sequence < self.next_recv,
            Order::Unordered => self.receipts.contains(sequence),
        }
    }

    /// The entry after a packet with this commitment was sent.
    pub open spec fn with_commitment(self, commitment: CommitmentView) -> ChannelEntryView {
        ChannelEntryView { commitments: self.commitments.push(Some(commitment)), ..self }
    }

    /// The entry after the commitment for `sequence` was deleted.
    pub open spec fn without_commitment(self, sequence: u64) -> ChannelEntryView {
        if 1 <= sequence <= self.commitments.len() {
            ChannelEntryView { commitments: self.commitments.update(sequence - 1, None), ..self }
        } else {
            self
        }
    }

    /// The entry after the packet with `sequence` was received.
    pub open spec fn with_receipt(self, sequence: u64) -> ChannelEntryView {
        match self.end.ordering {
            Order::Ordered => ChannelEntryView {
                next_recv: if sequence < u64::MAX {
                    (sequence + 1) as u64
                } else {
                    sequence
                },
                ..self
            },
            Order::Unordered => ChannelEntryView { receipts: self.receipts.push(sequence), ..self },
        }
    }

    /// The entry after an acknowledgement was written for `sequence`.
    pub open spec fn with_ack(self, sequence: u64, acknowledgement: Seq<u8>) -> ChannelEntryView {
        ChannelEntryView {
            acks: self.acks.push(AckEntryView { sequence, acknowledgement }),
            ..self
        }
    }

    /// The entry after the acknowledgement for `sequence` arrived back at the sender.
    pub open spec fn with_acknowledged(self, sequence: u64) -> ChannelEntryView {
        let cleared = self.without_commitment(sequence);
        match self.end.ordering {
            Order::Ordered => ChannelEntryView {
                next_ack: if sequence < u64::MAX {
                    (sequence + 1) as u64
                } else {
                    sequence
                },
                ..cleared
            },
            Order::Unordered => cleared,
        }
    }
}

impl ChannelEntry {
    /// The entry of a channel on which no packet has moved yet.
    pub fn fresh(end: ChannelRecord) -> (entry: ChannelEntry)
        ensures
            entry@ == ChannelEntryView::fresh(end@),
    {
        let entry = ChannelEntry {
            end,
            next_recv: 1,
            next_ack: 1,
            commitments: Vec::new(),
            receipts: Vec::new(),
            acks: Vec::new(),
        };
        assert(entry@.commitments =~= Seq::empty());
        assert(entry@.acks =~= Seq::empty());
        entry
    }

    /// The commitment still held for the packet sent with `sequence`.
    pub fn commitment_at(&self, sequence: u64) -> (found: Option<&Commitment>)
        ensures
            match found {
                Some(c) => self@.commitment_at(sequence) == Some(c@),
                None => self@.commitment_at(sequence).is_none(),
            },
    {
        if sequence >= 1 && sequence - 1 < self.commitments.len() as u64 {
            self.commitments[(sequence - 1) as usize].as_ref()
        } else {
            None
        }
    }

    /// Whether a packet with `sequence` was received before.
    pub fn received(&self, sequence: u64) -> (r: bool)
        ensures
            r == self@.received(sequence),
    {
        match self.end.ordering {
            Order::Ordered => sequence < self.next_recv,
            Order::Unordered => {
                let mut i: usize = 0;
                while i < self.receipts.len()
                    invariant
                        i <= self.receipts.len(),
                        self.end.ordering == Order::Unordered,
                        !self.receipts@.subrange(0, i as int).contains(sequence),
                    decreases self.receipts.len() - i,
                {
                    if self.receipts[i] == sequence {
                        assert(self.receipts@[i as int] == sequence);
                        return true;
                    }
                    assert(self.receipts@.subrange(0, i + 1) == self.receipts@.subrange(
                        0,
                        i as int,
                    ).push(self.receipts@[i as int]));
                    i += 1;
                }
                assert(self.receipts@.subrange(0, i as int) == self.receipts@);
                false
            },
        }
    }
}

/// The records of one ledger: clients, connections and channels, each under its number.
#[derive(Debug)]
pub struct Store {
    pub clients: Vec<ClientRecord>,
    pub connections: Vec<ConnectionRecord>,
    pub channels: Vec<ChannelEntry>,
}

/// The mathematical content of a [`Store`].
pub struct StoreView {
    pub clients: Seq<ClientRecordView>,
    pub connections: Seq<ConnectionRecordView>,
    pub channels: Seq<ChannelEntryView>,
}

impl View for Store {
    type V = StoreView;

    open spec fn view(&self) -> StoreView {
        StoreView {
            clients: self.clients@.map_values(|c: ClientRecord| c@),
            connections: self.connections@.map_values(|c: ConnectionRecord| c@),
            channels: self.channels@.map_values(|c: ChannelEntry| c@),
        }
    }
}

/// A change to the packet bookkeeping of one channel.
#[derive(Debug)]
pub enum PacketResult {
    /// A packet was sent: keep its commitment.
    Send { channel_id: ChannelId, commitment: Commitment },
    /// A packet was received, or found to be a replay.
    Recv(RecvPacketResult),
    /// An acknowledgement was produced for a received packet.
    WriteAck { channel_id: ChannelId, sequence: u64, acknowledgement: Vec<u8> },
    /// The acknowledgement of a sent packet arrived: delete its commitment.
    Ack { channel_id: ChannelId, sequence: u64 },
    /// A sent packet timed out: delete its commitment.
    Timeout { channel_id: ChannelId, sequence: u64 },
}

/// What receiving a packet comes to.
#[derive(Clone, Copy, Debug, PartialEq, Eq, Structural)]
pub enum RecvPacketResult {
    /// The packet was received before: nothing changes and no callback runs.
    NoOp,
    /// The packet is new: record its receipt.
    Success { channel_id: ChannelId, sequence: u64 },
}

/// The mathematical content of a [`PacketResult`].
pub enum PacketResultView {
    Send { channel_id: ChannelId, commitment: CommitmentView },
    Recv(RecvPacketResult),
    WriteAck { channel_id: ChannelId, sequence: u64, acknowledgement: Seq<u8> },
    Ack { channel_id: ChannelId, sequence: u64 },
    Timeout { channel_id: ChannelId, sequence: u64 },
}

impl View for PacketResult {
    type V = PacketResultView;

    open spec fn view(&self) -> PacketResultView {
        match *self {
            PacketResult::Send { channel_id, commitment } => PacketResultView::Send {
                channel_id,
                commitment: commitment@,
            },
            PacketResult::Recv(r) => PacketResultView::Recv(r),
            PacketResult::WriteAck { channel_id, sequence, acknowledgement } => {
                PacketResultView::WriteAck { channel_id, sequence, acknowledgement: acknowledgement@ }
            },
            PacketResult::Ack { channel_id, sequence } => PacketResultView::Ack {
                channel_id,
                sequence,
            },
            PacketResult::Timeout { channel_id, sequence } => PacketResultView::Timeout {
                channel_id,
                sequence,
            },
        }
    }
}

impl PacketResultView {
    /// The channel whose bookkeeping changes, if any does.
    pub open spec fn channel_id(self) -> Option<ChannelId> {
        match self {
            PacketResultView::Send { channel_id, .. } => Some(channel_id),
            PacketResultView::Recv(RecvPacketResult::NoOp) => None,
            PacketResultView::Recv(RecvPacketResult::Success { channel_id, .. }) => Some(
                channel_id,
            ),
            PacketResultView::WriteAck { channel_id, .. } => Some(channel_id),
            PacketResultView::Ack { channel_id, .. } => Some(channel_id),
            PacketResultView::Timeout { channel_id, .. } => Some(channel_id),
        }
    }

    /// The entry of that channel after the change.
    pub open spec fn applied_to(self, entry: ChannelEntryView) -> ChannelEntryView {
        match self {
            PacketResultView::Send { commitment, .. } => entry.with_commitment(commitment),
            PacketResultView::Recv(RecvPacketResult::NoOp) => entry,
            PacketResultView::Recv(RecvPacketResult::Success { sequence, .. }) => {
                entry.with_receipt(sequence)
            },
            PacketResultView::WriteAck { sequence, acknowledgement, .. } => entry.with_ack(
                sequence,
                acknowledgement,
            ),
            PacketResultView::Ack { sequence, .. } => entry.with_acknowledged(sequence),
            PacketResultView::Timeout { sequence, .. } => entry.without_commitment(sequence),
        }
    }
}

/// The record that a client message leaves behind, and where it goes.
#[derive(Debug)]
pub struct ClientResult {
    pub client_id: ClientId,
    pub record: ClientRecord,
}

/// The mathematical content of a [`ClientResult`].
pub struct ClientResultView {
    pub client_id: ClientId,
    pub record: ClientRecordView,
}

impl View for ClientResult {
    type V = ClientResultView;

    open spec fn view(&self) -> ClientResultView {
        ClientResultView { client_id: self.client_id, record: self.record@ }
    }
}

/// The record that a connection message leaves behind, and where it goes.
#[derive(Debug)]
pub struct ConnectionResult {
    pub connection_id: ConnectionId,
    pub record: ConnectionRecord,
}

/// The mathematical content of a [`ConnectionResult`].
pub struct ConnectionResultView {
    pub connection_id: ConnectionId,
    pub record: ConnectionRecordView,
}

impl View for ConnectionResult {
    type V = ConnectionResultView;

    open spec fn view(&self) -> ConnectionResultView {
        ConnectionResultView { connection_id: self.connection_id, record: self.record@ }
    }
}

/// The record that a channel message leaves behind, and where it goes.
#[derive(Debug)]
pub struct ChannelResult {
    pub channel_id: ChannelId,
    pub record: ChannelRecord,
}

/// The mathematical content of a [`ChannelResult`].
pub struct ChannelResultView {
    pub channel_id: ChannelId,
    pub record: ChannelRecordView,
}

impl View for ChannelResult {
    type V = ChannelResultView;

    open spec fn view(&self) -> ChannelResultView {
        ChannelResultView { channel_id: self.channel_id, record: self.record@ }
    }
}

impl StoreView {
    /// A store without records.
    pub open spec fn empty() -> StoreView {
        StoreView { clients: Seq::empty(), connections: Seq::empty(), channels: Seq::empty() }
    }

    /// Whether the records can all be numbered in 64 bits, as those of every store in
    /// memory can.
    pub open spec fn numbered(self) -> bool {
        self.clients.len() <= u64::MAX && self.connections.len() <= u64::MAX
            && self.channels.len() <= u64::MAX
    }

    /// The identifier that the next client gets, which is of type `client_type`.
    pub open spec fn next_client_id(self, client_type: ClientType) -> ClientId {
        ClientId { client_type, counter: self.clients.len() as u64 }
    }

    /// The identifier that the next connection gets.
    pub open spec fn next_connection_id(self) -> ConnectionId {
        ConnectionId(self.connections.len() as u64)
    }

    /// The identifier that the next channel gets.
    pub open spec fn next_channel_id(self) -> ChannelId {
        ChannelId(self.channels.len() as u64)
    }

    /// The client stored under the number of `id`, if it is of the type that `id` names.
    pub open spec fn client(self, id: ClientId) -> Option<ClientRecordView> {
        if id.counter < self.clients.len() && self.clients[id.counter as int].client_type
            == id.client_type {
            Some(self.clients[id.counter as int])
        } else {
            None
        }
    }

    /// The connection stored under `id`.
    pub open spec fn connection(self, id: ConnectionId) -> Option<ConnectionRecordView> {
        if id.0 < self.connections.len() {
            Some(self.connections[id.0 as int])
        } else {
            None
        }
    }

    /// The channel stored under `id`, if it belongs to `port`.
    pub open spec fn channel(self, port: Seq<char>, id: ChannelId) -> Option<ChannelEntryView> {
        if id.0 < self.channels.len() && self.channels[id.0 as int].end.port_id == port {
            Some(self.channels[id.0 as int])
        } else {
            None
        }
    }

    /// The store after a client result was committed: the record replaces the one under
    /// the number of its identifier, or is added when that number is the next free one.
    pub open spec fn with_client(self, result: ClientResultView) -> StoreView {
        let i = result.client_id.counter as int;
        if i < self.clients.len() {
            StoreView { clients: self.clients.update(i, result.record), ..self }
        } else if i == self.clients.len() {
            StoreView { clients: self.clients.push(result.record), ..self }
        } else {
            self
        }
    }

    /// The store after a connection result was committed.
    pub open spec fn with_connection(self, result: ConnectionResultView) -> StoreView {
        let i = result.connection_id.0 as int;
        if i < self.connections.len() {
            StoreView { connections: self.connections.update(i, result.record), ..self }
        } else if i == self.connections.len() {
            StoreView { connections: self.connections.push(result.record), ..self }
        } else {
            self
        }
    }

    /// The store after a channel result was committed: the record replaces the end of the
    /// channel under its identifier and leaves the packet bookkeeping alone, or opens a
    /// fresh entry when the identifier is the next free one.
    pub open spec fn with_channel(self, result: ChannelResultView) -> StoreView {
        let i = result.channel_id.0 as int;
        if i < self.channels.len() {
            StoreView {
                channels: self.channels.update(
                    i,
                    ChannelEntryView { end: result.record, ..self.channels[i] },
                ),
                ..self
            }
        } else if i == self.channels.len() {
            StoreView { channels: self.channels.push(ChannelEntryView::fresh(result.record)), ..self }
        } else {
            self
        }
    }

    /// The store after a packet result was committed.
    pub open spec fn with_packet(self, result: PacketResultView) -> StoreView {
        match result.channel_id() {
            Some(id) => {
                if id.0 < self.channels.len() {
                    StoreView {
                        channels: self.channels.update(
                            id.0 as int,
                            result.applied_to(self.channels[id.0 as int]),
                        ),
                        ..self
                    }
                } else {
                    self
                }
            },
            None => self,
        }
    }
}

impl Store {
    /// A store without records.
    pub fn new() -> (store: Store)
        ensures
            store@ == StoreView::empty(),
    {
        let store = Store { clients: Vec::new(), connections: Vec::new(), channels: Vec::new() };
        assert(store@.clients =~= Seq::empty());
        assert(store@.connections =~= Seq::empty());
        assert(store@.channels =~= Seq::empty());
        store
    }

    /// The identifier that the next client gets, which is of type `client_type`.
    pub fn next_client_id(&self, client_type: ClientType) -> (id: ClientId)
        ensures
            id == self@.next_client_id(client_type),
    {
        ClientId { client_type, counter: self.clients.len() as u64 }
    }

    /// The identifier that the next connection gets.
    pub fn next_connection_id(&self) -> (id: ConnectionId)
        ensures
            id == self@.next_connection_id(),
    {
        ConnectionId(self.connections.len() as u64)
    }

    /// The identifier that the next channel gets.
    pub fn next_channel_id(&self) -> (id: ChannelId)
        ensures
            id == self@.next_channel_id(),
    {
        ChannelId(self.channels.len() as u64)
    }

    /// The client stored under the number of `id`, if it is of the type that `id` names.
    pub fn client(&self, id: ClientId) -> (found: Option<&ClientRecord>)
        ensures
            match found {
                Some(r) => self@.client(id) == Some(r@),
                None => self@.client(id).is_none(),
            },
    {
        if id.counter < self.clients.len() as u64 {
            let record = &self.clients[id.counter as usize];
            if record.client_type == id.client_type {
                Some(record)
            } else {
                None
            }
        } else {
            None
        }
    }

    /// The connection stored under `id`.
    pub fn connection(&self, id: ConnectionId) -> (found: Option<&ConnectionRecord>)
        ensures
            match found {
                Some(r) => self@.connection(id) == Some(r@),
                None => self@.connection(id).is_none(),
            },
    {
        if id.0 < self.connections.len() as u64 {
            Some(&self.connections[id.0 as usize])
        } else {
            None
        }
    }

    /// The channel stored under `id`, if it belongs to `port`.
    pub fn channel(&self, port: &PortId, id: ChannelId) -> (found: Option<&ChannelEntry>)
        ensures
            match found {
                Some(e) => self@.channel(port@, id) == Some(e@),
                None => self@.channel(port@, id).is_none(),
            },
    {
        if id.0 < self.channels.len() as u64 {
            let entry = &self.channels[id.0 as usize];
            if entry.end.port_id.same(port) {
                Some(entry)
            } else {
                None
            }
        } else {
            None
        }
    }

    /// The sequence that the next packet sent on the channel gets, where the store holds
    /// the channel under the port and a sequence is left.
    pub fn next_sequence_send(&self, port: &PortId, id: ChannelId) -> (next: Option<u64>)
        ensures
            next == match self@.channel(port@, id) {
                Some(entry) => if entry.next_send() <= u64::MAX {
                    Some(entry.next_send() as u64)
                } else {
                    None
                },
                None => None,
            },
    {
        match self.channel(port, id) {
            Some(entry) => {
                let sent = entry.commitments.len() as u64;
                if sent < u64::MAX {
                    Some(sent + 1)
                } else {
                    None
                }
            },
            None => None,
        }
    }

    /// The sequence that an ordered channel expects to receive next.
    pub fn next_sequence_recv(&self, port: &PortId, id: ChannelId) -> (next: Option<u64>)
        ensures
            next == match self@.channel(port@, id) {
                Some(entry) => Some(entry.next_recv),
                None => None,
            },
    {
        match self.channel(port, id) {
            Some(entry) => Some(entry.next_recv),
            None => None,
        }
    }

    /// The sequence whose acknowledgement an ordered channel expects next.
    pub fn next_sequence_ack(&self, port: &PortId, id: ChannelId) -> (next: Option<u64>)
        ensures
            next == match self@.channel(port@, id) {
                Some(entry) => Some(entry.next_ack),
                None => None,
            },
    {
        match self.channel(port, id) {
            Some(entry) => Some(entry.next_ack),
            None => None,
        }
    }

    /// Commits a client result.
    pub fn store_client_result(&mut self, result: ClientResult)
        ensures
            final(self)@ == old(self)@.with_client(result@),
    {
        let n = self.clients.len() as u64;
        if result.client_id.counter < n {
            self.clients.set(result.client_id.counter as usize, result.record);
            assert(self@.clients =~= old(self)@.clients.update(
                result.client_id.counter as int,
                result.record@,
            ));
        } else if result.client_id.counter == n {
            self.clients.push(result.record);
            assert(self@.clients =~= old(self)@.clients.push(result.record@));
        }
    }

    /// Commits a connection result.
    pub fn store_connection_result(&mut self, result: ConnectionResult)
        ensures
            final(self)@ == old(self)@.with_connection(result@),
    {
        let n = self.connections.len() as u64;
        if result.connection_id.0 < n {
            self.connections.set(result.connection_id.0 as usize, result.record);
            assert(self@.connections =~= old(self)@.connections.update(
                result.connection_id.0 as int,
                result.record@,
            ));
        } else if result.connection_id.0 == n {
            self.connections.push(result.record);
            assert(self@.connections =~= old(self)@.connections.push(result.record@));
        }
    }

    /// Commits a channel result.
    pub fn store_channel_result(&mut self, result: ChannelResult)
        ensures
            final(self)@ == old(self)@.with_channel(result@),
    {
        let n = self.channels.len() as u64;
        if result.channel_id.0 < n {
            let i = result.channel_id.0 as usize;
            let mut entry = self.channels.remove(i);
            entry.end = result.record;
            self.channels.insert(i, entry);
            assert(self@.channels =~= old(self)@.channels.update(
                i as int,
                ChannelEntryView { end: result.record@, ..old(self)@.channels[i as int] },
            ));
        } else if result.channel_id.0 == n {
            self.channels.push(ChannelEntry::fresh(result.record));
            assert(self@.channels =~= old(self)@.channels.push(
                ChannelEntryView::fresh(result.record@),
            ));
        }
    }

    /// Commits a packet result.
    pub fn store_packet_result(&mut self, result: PacketResult)
        ensures
            final(self)@ == old(self)@.with_packet(result@),
    {
        let ghost change = result@;
        let id = match &result {
            PacketResult::Send { channel_id, .. } => *channel_id,
            PacketResult::Recv(RecvPacketResult::NoOp) => {
                return ;
            },
            PacketResult::Recv(RecvPacketResult::Success { channel_id, .. }) => *channel_id,
            PacketResult::WriteAck { channel_id, .. } => *channel_id,
            PacketResult::Ack { channel_id, .. } => *channel_id,
            PacketResult::Timeout { channel_id, .. } => *channel_id,
        };
        if id.0 >= self.channels.len() as u64 {
            return ;
        }
        let i = id.0 as usize;
        let mut entry = self.channels.remove(i);
        let ghost before = entry@;
        match result {
            PacketResult::Send { commitment, .. } => {
                entry.commitments.push(Some(commitment));
                assert(entry@.commitments =~= before.commitments.push(Some(commitment@)));
            },
            PacketResult::Recv(RecvPacketResult::NoOp) => {},
            PacketResult::Recv(RecvPacketResult::Success { sequence, .. }) => {
                match entry.end.ordering {
                    Order::Ordered => {
                        if sequence < u64::MAX {
                            entry.next_recv = sequence + 1;
                        } else {
                            entry.next_recv = sequence;
                        }
                    },
                    Order::Unordered => {
                        entry.receipts.push(sequence);
                    },
                }
            },
            PacketResult::WriteAck { sequence, acknowledgement, .. } => {
                entry.acks.push(AckEntry { sequence, acknowledgement });
                assert(entry@.acks =~= before.acks.push(
                    AckEntryView { sequence, acknowledgement: acknowledgement@ },
                ));
            },
            PacketResult::Ack { sequence, .. } => {
                entry.clear_commitment(sequence);
                match entry.end.ordering {
                    Order::Ordered => {
                        if sequence < u64::MAX {
                            entry.next_ack = sequence + 1;
                        } else {
                            entry.next_ack = sequence;
                        }
                    },
                    Order::Unordered => {},
                }
            },
            PacketResult::Timeout { sequence, .. } => {
                entry.clear_commitment(sequence);
            },
        }
        assert(entry@ == change.applied_to(before));
        self.channels.insert(i, entry);
        assert(self@.channels =~= old(self)@.channels.update(i as int, change.applied_to(before)));
    }
}

impl ChannelEntry {
    /// Deletes the commitment held for `sequence`, if there is one.
    pub fn clear_commitment(&mut self, sequence: u64)
        ensures
            final(self)@ == old(self)@.without_commitment(sequence),
    {
        if sequence >= 1 && sequence - 1 < self.commitments.len() as u64 {
            self.commitments.set((sequence - 1) as usize, None);
            assert(self@.commitments =~= old(self)@.commitments.update(sequence - 1, None));
        }
    }
}

} // verus!
