//! Messages as they arrive: names still text, heights and nested parts still optional.
//! Reading a message checks that every part that has to be there is there and that
//! every name names something.

use crate::channel::{
    read_single_hop, single_hop, MsgChannelCloseConfirm, MsgChannelCloseInit, MsgChannelOpenAck,
    MsgChannelOpenConfirm, MsgChannelOpenInit, MsgChannelOpenTry,
};
use crate::client::{ClientMessage, ConsensusSnapshot, MsgUpdateClient, MsgUpgradeClient};
use crate::connection::{
    wire_version, MsgConnectionOpenAck, MsgConnectionOpenConfirm, MsgConnectionOpenInit,
    MsgConnectionOpenTry, Version,
};
use crate::output::texts;
use crate::packet::{
    MsgAcknowledgement, MsgRecvPacket, MsgTimeout, MsgTimeoutOnClose, Packet, PacketView,
};
use crate::types::{ChannelId, ClientId, ConnectionId, Height, Order, PortId, Signer};
use vstd::prelude::*;

verus! {

/// A height as it arrives.
#[derive(Clone, Copy, Debug, PartialEq, Eq, Structural)]
pub struct RawHeight {
    pub revision_number: u64,
    pub revision_height: u64,
}

/// The height that an optional raw height holds.
pub open spec fn height_in(raw: Option<RawHeight>) -> Option<Height> {
    match raw {
        Some(h) => Some(Height { revision: h.revision_number, height: h.revision_height }),
        None => None,
    }
}

/// Computes [`height_in`].
pub fn read_height(raw: Option<RawHeight>) -> (height: Option<Height>)
    ensures
        height == height_in(raw),
{
    match raw {
        Some(h) => Some(Height { revision: h.revision_number, height: h.revision_height }),
        None => None,
    }
}

/// The timeout height that an optional raw height holds: without one, no timeout
/// height is set.
pub open spec fn timeout_height_in(raw: Option<RawHeight>) -> Height {
    match raw {
        Some(h) => Height { revision: h.revision_number, height: h.revision_height },
        None => Height { revision: 0, height: 0 },
    }
}

/// A connection version as it arrives.
#[derive(Debug)]
pub struct RawVersion {
    pub identifier: String,
    pub features: Vec<String>,
}

impl RawVersion {
    /// The version that this raw version stands for.
    pub open spec fn version(&self) -> Option<Version> {
        wire_version(self.identifier@, texts(self.features@))
    }

    /// Computes [`RawVersion::version`].
    pub fn read(&self) -> (version: Option<Version>)
        ensures
            version == self.version(),
    {
        Version::from_wire(self.identifier.as_str(), &self.features)
    }
}

/// The versions that a list of raw versions stands for: each of them must stand for one.
pub open spec fn versions_in(raws: Seq<RawVersion>) -> Option<Seq<Version>>
    decreases raws.len(),
{
    if raws.len() == 0 {
        Some(Seq::empty())
    } else {
        match (versions_in(raws.drop_last()), raws.last().version()) {
            (Some(earlier), Some(v)) => Some(earlier.push(v)),
            _ => None,
        }
    }
}

/// Where one of a list of raw versions stands for none, the list stands for none.
pub proof fn lemma_versions_need_each(raws: Seq<RawVersion>, i: int)
    requires
        0 <= i < raws.len(),
        raws[i].version().is_none(),
    ensures
        versions_in(raws).is_none(),
    decreases raws.len(),
{
    if i < raws.len() - 1 {
        lemma_versions_need_each(raws.drop_last(), i);
    }
}

/// Computes [`versions_in`].
pub fn read_versions(raws: &Vec<RawVersion>) -> (versions: Option<Vec<Version>>)
    ensures
        match versions {
            Some(vs) => versions_in(raws@) == Some(vs@),
            None => versions_in(raws@).is_none(),
        },
{
    let mut versions: Vec<Version> = Vec::new();
    let mut i: usize = 0;
    while i < raws.len()
        invariant
            i <= raws.len(),
            versions_in(raws@.subrange(0, i as int)) == Some(versions@),
        decreases raws.len() - i,
    {
        let ghost next = raws@.subrange(0, i + 1);
        assert(next.drop_last() == raws@.subrange(0, i as int));
        assert(next.last() == raws@[i as int]);
        match raws[i].read() {
            Some(v) => {
                versions.push(v);
            },
            None => {
                proof {
                    lemma_versions_need_each(raws@, i as int);
                }
                return None;
            },
        }
        i += 1;
    }
    assert(raws@.subrange(0, raws.len() as int) == raws@);
    Some(versions)
}

/// A packet as it arrives.
#[derive(Debug)]
pub struct RawPacket {
    pub sequence: u64,
    pub source_port: String,
    pub source_channel: String,
    pub destination_port: String,
    pub destination_channel: String,
    pub data: Vec<u8>,
    pub timeout_height: Option<RawHeight>,
    pub timeout_timestamp: u64,
}

impl RawPacket {
    /// The packet that this raw packet stands for: its two channels must be named.
    pub open spec fn packet(&self) -> Option<PacketView> {
        if ChannelId::named(self.source_channel@).is_none() || ChannelId::named(
            self.destination_channel@,
        ).is_none() {
            None
        } else {
            Some(
                PacketView {
                    sequence: self.sequence,
                    source_port: self.source_port@,
                    source_channel: ChannelId::named(self.source_channel@)->0,
                    destination_port: self.destination_port@,
                    destination_channel: ChannelId::named(self.destination_channel@)->0,
                    data: self.data@,
                    timeout_height: timeout_height_in(self.timeout_height),
                    timeout_timestamp: self.timeout_timestamp,
                },
            )
        }
    }

    /// Computes [`RawPacket::packet`].
    pub fn read(self) -> (packet: Option<Packet>)
        ensures
            match packet {
                Some(p) => self.packet() == Some(p@),
                None => self.packet().is_none(),
            },
    {
        let source_channel = match ChannelId::parse(self.source_channel.as_str()) {
            Some(id) => id,
            None => {
                return None;
            },
        };
        let destination_channel = match ChannelId::parse(self.destination_channel.as_str()) {
            Some(id) => id,
            None => {
                return None;
            },
        };
        let timeout_height = match self.timeout_height {
            Some(h) => Height { revision: h.revision_number, height: h.revision_height },
            None => Height::zero(),
        };
        Some(
            Packet {
                sequence: self.sequence,
                source_port: PortId { name: self.source_port },
                source_channel,
                destination_port: PortId { name: self.destination_port },
                destination_channel,
                data: self.data,
                timeout_height,
                timeout_timestamp: self.timeout_timestamp,
            },
        )
    }
}

/// The packet that an optional raw packet stands for.
pub open spec fn packet_in(raw: Option<RawPacket>) -> Option<PacketView> {
    match raw {
        Some(p) => p.packet(),
        None => None,
    }
}

/// Computes [`packet_in`].
pub fn read_packet(raw: Option<RawPacket>) -> (packet: Option<Packet>)
    ensures
        match packet {
            Some(p) => packet_in(raw) == Some(p@),
            None => packet_in(raw).is_none(),
        },
{
    match raw {
        Some(p) => p.read(),
        None => None,
    }
}

/// `UpdateClient` as it arrives. The header or misbehaviour has been read by the light
/// client's own codec.
#[derive(Debug)]
pub struct RawMsgUpdateClient {
    pub client_id: String,
    pub client_message: ClientMessage,
    pub signer: String,
}

impl RawMsgUpdateClient {
    /// Whether the message can be read: its client must be named.
    pub open spec fn readable(&self) -> bool {
        ClientId::named(self.client_id@).is_some()
    }

    /// Whether `msg` is what the message reads as.
    pub open spec fn reads_as(&self, msg: &MsgUpdateClient) -> bool {
        &&& Some(msg.client_id) == ClientId::named(self.client_id@)
        &&& msg.client_message == self.client_message
        &&& msg.signer@ == self.signer@
    }

    /// Reads the message.
    pub fn read(self) -> (msg: Option<MsgUpdateClient>)
        ensures
            match msg {
                Some(m) => self.readable() && self.reads_as(&m),
                None => !self.readable(),
            },
    {
        let client_id = match ClientId::parse(self.client_id.as_str()) {
            Some(id) => id,
            None => {
                return None;
            },
        };
        Some(
            MsgUpdateClient {
                client_id,
                client_message: self.client_message,
                signer: Signer { account: self.signer },
            },
        )
    }
}

/// `UpgradeClient` as it arrives. The new state has been read by the light client's own
/// codec.
#[derive(Debug)]
pub struct RawMsgUpgradeClient {
    pub client_id: String,
    pub height: Height,
    pub snapshot: ConsensusSnapshot,
    pub proof_upgrade_client: Vec<u8>,
    pub proof_upgrade_consensus_state: Vec<u8>,
    pub signer: String,
}

impl RawMsgUpgradeClient {
    /// Whether the message can be read: its client must be named.
    pub open spec fn readable(&self) -> bool {
        ClientId::named(self.client_id@).is_some()
    }

    /// Whether `msg` is what the message reads as.
    pub open spec fn reads_as(&self, msg: &MsgUpgradeClient) -> bool {
        &&& Some(msg.client_id) == ClientId::named(self.client_id@)
        &&& msg.height == self.height
        &&& msg.snapshot == self.snapshot
        &&& msg.proof_upgrade_client@ == self.proof_upgrade_client@
        &&& msg.proof_upgrade_consensus_state@ == self.proof_upgrade_consensus_state@
        &&& msg.signer@ == self.signer@
    }

    /// Reads the message.
    pub fn read(self) -> (msg: Option<MsgUpgradeClient>)
        ensures
            match msg {
                Some(m) => self.readable() && self.reads_as(&m),
                None => !self.readable(),
            },
    {
        let client_id = match ClientId::parse(self.client_id.as_str()) {
            Some(id) => id,
            None => {
                return None;
            },
        };
        Some(
            MsgUpgradeClient {
                client_id,
                height: self.height,
                snapshot: self.snapshot,
                proof_upgrade_client: self.proof_upgrade_client,
                proof_upgrade_consensus_state: self.proof_upgrade_consensus_state,
                signer: Signer { account: self.signer },
            },
        )
    }
}

/// The far end of a connection as a message names it.
#[derive(Debug)]
pub struct RawConnectionCounterparty {
    pub client_id: String,
    pub connection_id: String,
}

/// The far end of a channel as a message names it.
#[derive(Debug)]
pub struct RawChannelCounterparty {
    pub port_id: String,
    pub channel_id: String,
}

/// The version that an optional raw version proposes: none proposed, one proposed, or
/// one that cannot be read.
pub open spec fn proposal_in(raw: Option<RawVersion>) -> Option<Option<Version>> {
    match raw {
        None => Some(None),
        Some(v) => match v.version() {
            Some(version) => Some(Some(version)),
            None => None,
        },
    }
}

/// `ConnectionOpenInit` as it arrives.
#[derive(Debug)]
pub struct RawMsgConnectionOpenInit {
    pub client_id: String,
    pub counterparty: Option<RawConnectionCounterparty>,
    pub version: Option<RawVersion>,
    pub signer: String,
}

impl RawMsgConnectionOpenInit {
    /// Whether the message can be read: the counterparty must be there, both clients
    /// must be named, and a version that is proposed must be one.
    pub open spec fn readable(&self) -> bool {
        &&& ClientId::named(self.client_id@).is_some()
        &&& self.counterparty.is_some()
        &&& ClientId::named(self.counterparty->0.client_id@).is_some()
        &&& proposal_in(self.version).is_some()
    }

    /// Whether `msg` is what the message reads as.
    pub open spec fn reads_as(&self, msg: &MsgConnectionOpenInit) -> bool {
        &&& Some(msg.client_id) == ClientId::named(self.client_id@)
        &&& Some(msg.counterparty_client_id) == ClientId::named(self.counterparty->0.client_id@)
        &&& Some(msg.version) == proposal_in(self.version)
        &&& msg.signer@ == self.signer@
    }

    /// Reads the message.
    pub fn read(self) -> (msg: Option<MsgConnectionOpenInit>)
        ensures
            match msg {
                Some(m) => self.readable() && self.reads_as(&m),
                None => !self.readable(),
            },
    {
        let client_id = match ClientId::parse(self.client_id.as_str()) {
            Some(id) => id,
            None => {
                return None;
            },
        };
        let counterparty = match self.counterparty {
            Some(c) => c,
            None => {
                return None;
            },
        };
        let counterparty_client_id = match ClientId::parse(counterparty.client_id.as_str()) {
            Some(id) => id,
            None => {
                return None;
            },
        };
        let version = match &self.version {
            None => None,
            Some(raw) => match raw.read() {
                Some(v) => Some(v),
                None => {
                    return None;
                },
            },
        };
        Some(
            MsgConnectionOpenInit {
                client_id,
                counterparty_client_id,
                version,
                signer: Signer { account: self.signer },
            },
        )
    }
}

/// `ConnectionOpenTry` as it arrives.
#[derive(Debug)]
pub struct RawMsgConnectionOpenTry {
    pub client_id: String,
    pub counterparty: Option<RawConnectionCounterparty>,
    pub counterparty_versions: Vec<RawVersion>,
    pub proof_init: Vec<u8>,
    pub proof_height: Option<RawHeight>,
    pub consensus_height: Option<RawHeight>,
    pub signer: String,
}

impl RawMsgConnectionOpenTry {
    /// Whether the message can be read: the counterparty must be there, the clients and
    /// the counterparty's connection must be named, every version must be one, and both
    /// heights must be there.
    pub open spec fn readable(&self) -> bool {
        &&& ClientId::named(self.client_id@).is_some()
        &&& self.counterparty.is_some()
        &&& ClientId::named(self.counterparty->0.client_id@).is_some()
        &&& ConnectionId::named(self.counterparty->0.connection_id@).is_some()
        &&& versions_in(self.counterparty_versions@).is_some()
        &&& self.proof_height.is_some()
        &&& self.consensus_height.is_some()
    }

    /// Whether `msg` is what the message reads as.
    pub open spec fn reads_as(&self, msg: &MsgConnectionOpenTry) -> bool {
        &&& Some(msg.client_id) == ClientId::named(self.client_id@)
        &&& Some(msg.counterparty_client_id) == ClientId::named(self.counterparty->0.client_id@)
        &&& Some(msg.counterparty_connection_id) == ConnectionId::named(
            self.counterparty->0.connection_id@,
        )
        &&& Some(msg.counterparty_versions@) == versions_in(self.counterparty_versions@)
        &&& msg.proof_init@ == self.proof_init@
        &&& Some(msg.proof_height) == height_in(self.proof_height)
        &&& Some(msg.consensus_height) == height_in(self.consensus_height)
        &&& msg.signer@ == self.signer@
    }

    /// Reads the message.
    pub fn read(self) -> (msg: Option<MsgConnectionOpenTry>)
        ensures
            match msg {
                Some(m) => self.readable() && self.reads_as(&m),
                None => !self.readable(),
            },
    {
        let client_id = match ClientId::parse(self.client_id.as_str()) {
            Some(id) => id,
            None => {
                return None;
            },
        };
        let counterparty = match self.counterparty {
            Some(c) => c,
            None => {
                return None;
            },
        };
        let counterparty_client_id = match ClientId::parse(counterparty.client_id.as_str()) {
            Some(id) => id,
            None => {
                return None;
            },
        };
        let counterparty_connection_id = match ConnectionId::parse(
            counterparty.connection_id.as_str(),
        ) {
            Some(id) => id,
            None => {
                return None;
            },
        };
        let counterparty_versions = match read_versions(&self.counterparty_versions) {
            Some(vs) => vs,
            None => {
                return None;
            },
        };
        let proof_height = match read_height(self.proof_height) {
            Some(h) => h,
            None => {
                return None;
            },
        };
        let consensus_height = match read_height(self.consensus_height) {
            Some(h) => h,
            None => {
                return None;
            },
        };
        Some(
            MsgConnectionOpenTry {
                client_id,
                counterparty_client_id,
                counterparty_connection_id,
                counterparty_versions,
                proof_init: self.proof_init,
                proof_height,
                consensus_height,
                signer: Signer { account: self.signer },
            },
        )
    }
}

/// The version that an optional raw version holds, where it has to be there.
pub open spec fn version_in(raw: Option<RawVersion>) -> Option<Version> {
    match raw {
        Some(v) => v.version(),
        None => None,
    }
}

/// `ConnectionOpenAck` as it arrives.
#[derive(Debug)]
pub struct RawMsgConnectionOpenAck {
    pub connection_id: String,
    pub counterparty_connection_id: String,
    pub version: Option<RawVersion>,
    pub proof_try: Vec<u8>,
    pub proof_height: Option<RawHeight>,
    pub consensus_height: Option<RawHeight>,
    pub signer: String,
}

impl RawMsgConnectionOpenAck {
    /// Whether the message can be read: both connections must be named, the version
    /// must be there and be one, and both heights must be there.
    pub open spec fn readable(&self) -> bool {
        &&& ConnectionId::named(self.connection_id@).is_some()
        &&& ConnectionId::named(self.counterparty_connection_id@).is_some()
        &&& version_in(self.version).is_some()
        &&& self.proof_height.is_some()
        &&& self.consensus_height.is_some()
    }

    /// Whether `msg` is what the message reads as.
    pub open spec fn reads_as(&self, msg: &MsgConnectionOpenAck) -> bool {
        &&& Some(msg.connection_id) == ConnectionId::named(self.connection_id@)
        &&& Some(msg.counterparty_connection_id) == ConnectionId::named(
            self.counterparty_connection_id@,
        )
        &&& Some(msg.version) == version_in(self.version)
        &&& msg.proof_try@ == self.proof_try@
        &&& Some(msg.proof_height) == height_in(self.proof_height)
        &&& Some(msg.consensus_height) == height_in(self.consensus_height)
        &&& msg.signer@ == self.signer@
    }

    /// Reads the message.
    pub fn read(self) -> (msg: Option<MsgConnectionOpenAck>)
        ensures
            match msg {
                Some(m) => self.readable() && self.reads_as(&m),
                None => !self.readable(),
            },
    {
        let connection_id = match ConnectionId::parse(self.connection_id.as_str()) {
            Some(id) => id,
            None => {
                return None;
            },
        };
        let counterparty_connection_id = match ConnectionId::parse(
            self.counterparty_connection_id.as_str(),
        ) {
            Some(id) => id,
            None => {
                return None;
            },
        };
        let version = match &self.version {
            None => {
                return None;
            },
            Some(raw) => match raw.read() {
                Some(v) => v,
                None => {
                    return None;
                },
            },
        };
        let proof_height = match read_height(self.proof_height) {
            Some(h) => h,
            None => {
                return None;
            },
        };
        let consensus_height = match read_height(self.consensus_height) {
            Some(h) => h,
            None => {
                return None;
            },
        };
        Some(
            MsgConnectionOpenAck {
                connection_id,
                counterparty_connection_id,
                version,
                proof_try: self.proof_try,
                proof_height,
                consensus_height,
                signer: Signer { account: self.signer },
            },
        )
    }
}

/// `ConnectionOpenConfirm` as it arrives.
#[derive(Debug)]
pub struct RawMsgConnectionOpenConfirm {
    pub connection_id: String,
    pub proof_ack: Vec<u8>,
    pub proof_height: Option<RawHeight>,
    pub signer: String,
}

impl RawMsgConnectionOpenConfirm {
    /// Whether the message can be read: the connection must be named and the proof
    /// height must be there.
    pub open spec fn readable(&self) -> bool {
        ConnectionId::named(self.connection_id@).is_some() && self.proof_height.is_some()
    }

    /// Whether `msg` is what the message reads as.
    pub open spec fn reads_as(&self, msg: &MsgConnectionOpenConfirm) -> bool {
        &&& Some(msg.connection_id) == ConnectionId::named(self.connection_id@)
        &&& msg.proof_ack@ == self.proof_ack@
        &&& Some(msg.proof_height) == height_in(self.proof_height)
        &&& msg.signer@ == self.signer@
    }

    /// Reads the message.
    pub fn read(self) -> (msg: Option<MsgConnectionOpenConfirm>)
        ensures
            match msg {
                Some(m) => self.readable() && self.reads_as(&m),
                None => !self.readable(),
            },
    {
        let connection_id = match ConnectionId::parse(self.connection_id.as_str()) {
            Some(id) => id,
            None => {
                return None;
            },
        };
        let proof_height = match read_height(self.proof_height) {
            Some(h) => h,
            None => {
                return None;
            },
        };
        Some(
            MsgConnectionOpenConfirm {
                connection_id,
                proof_ack: self.proof_ack,
                proof_height,
                signer: Signer { account: self.signer },
            },
        )
    }
}

/// A channel end as an opening message proposes it.
#[derive(Debug)]
pub struct RawChannel {
    pub ordering: i32,
    pub counterparty: Option<RawChannelCounterparty>,
    pub connection_hops: Vec<String>,
    pub version: String,
}

impl RawChannel {
    /// Whether the proposal can be read: its ordering must be one of the two, its
    /// counterparty must be there, and its hops must be one connection.
    pub open spec fn readable(&self) -> bool {
        &&& Order::coded(self.ordering).is_some()
        &&& self.counterparty.is_some()
        &&& single_hop(texts(self.connection_hops@)).is_some()
    }
}

/// `ChannelOpenInit` as it arrives.
#[derive(Debug)]
pub struct RawMsgChannelOpenInit {
    pub port_id: String,
    pub channel: Option<RawChannel>,
    pub signer: String,
}

impl RawMsgChannelOpenInit {
    /// Whether the message can be read: the proposal must be there and be readable.
    pub open spec fn readable(&self) -> bool {
        self.channel.is_some() && self.channel->0.readable()
    }

    /// Whether `msg` is what the message reads as.
    pub open spec fn reads_as(&self, msg: &MsgChannelOpenInit) -> bool {
        let channel = self.channel->0;
        &&& msg.port_id@ == self.port_id@
        &&& Some(msg.ordering) == Order::coded(channel.ordering)
        &&& Some(msg.connection_id) == single_hop(texts(channel.connection_hops@))
        &&& msg.counterparty_port_id@ == channel.counterparty->0.port_id@
        &&& msg.version@ == channel.version@
        &&& msg.signer@ == self.signer@
    }

    /// Reads the message.
    pub fn read(self) -> (msg: Option<MsgChannelOpenInit>)
        ensures
            match msg {
                Some(m) => self.readable() && self.reads_as(&m),
                None => !self.readable(),
            },
    {
        let channel = match self.channel {
            Some(c) => c,
            None => {
                return None;
            },
        };
        let ordering = match Order::from_code(channel.ordering) {
            Some(o) => o,
            None => {
                return None;
            },
        };
        let counterparty = match channel.counterparty {
            Some(c) => c,
            None => {
                return None;
            },
        };
        let connection_id = match read_single_hop(&channel.connection_hops) {
            Some(id) => id,
            None => {
                return None;
            },
        };
        Some(
            MsgChannelOpenInit {
                port_id: PortId { name: self.port_id },
                ordering,
                connection_id,
                counterparty_port_id: PortId { name: counterparty.port_id },
                version: channel.version,
                signer: Signer { account: self.signer },
            },
        )
    }
}

/// `ChannelOpenTry` as it arrives.
#[derive(Debug)]
pub struct RawMsgChannelOpenTry {
    pub port_id: String,
    pub channel: Option<RawChannel>,
    pub counterparty_version: String,
    pub proof_init: Vec<u8>,
    pub proof_height: Option<RawHeight>,
    pub signer: String,
}

impl RawMsgChannelOpenTry {
    /// Whether the message can be read: the proposal must be there, be readable and
    /// name the counterparty's channel, and the proof height must be there.
    pub open spec fn readable(&self) -> bool {
        &&& self.channel.is_some()
        &&& self.channel->0.readable()
        &&& ChannelId::named(self.channel->0.counterparty->0.channel_id@).is_some()
        &&& self.proof_height.is_some()
    }

    /// Whether `msg` is what the message reads as.
    pub open spec fn reads_as(&self, msg: &MsgChannelOpenTry) -> bool {
        let channel = self.channel->0;
        &&& msg.port_id@ == self.port_id@
        &&& Some(msg.ordering) == Order::coded(channel.ordering)
        &&& Some(msg.connection_id) == single_hop(texts(channel.connection_hops@))
        &&& msg.counterparty_port_id@ == channel.counterparty->0.port_id@
        &&& Some(msg.counterparty_channel_id) == ChannelId::named(
            channel.counterparty->0.channel_id@,
        )
        &&& msg.version@ == channel.version@
        &&& msg.counterparty_version@ == self.counterparty_version@
        &&& msg.proof_init@ == self.proof_init@
        &&& Some(msg.proof_height) == height_in(self.proof_height)
        &&& msg.signer@ == self.signer@
    }

    /// Reads the message.
    pub fn read(self) -> (msg: Option<MsgChannelOpenTry>)
        ensures
            match msg {
                Some(m) => self.readable() && self.reads_as(&m),
                None => !self.readable(),
            },
    {
        let channel = match self.channel {
            Some(c) => c,
            None => {
                return None;
            },
        };
        let ordering = match Order::from_code(channel.ordering) {
            Some(o) => o,
            None => {
                return None;
            },
        };
        let counterparty = match channel.counterparty {
            Some(c) => c,
            None => {
                return None;
            },
        };
        let connection_id = match read_single_hop(&channel.connection_hops) {
            Some(id) => id,
            None => {
                return None;
            },
        };
        let counterparty_channel_id = match ChannelId::parse(counterparty.channel_id.as_str()) {
            Some(id) => id,
            None => {
                return None;
            },
        };
        let proof_height = match read_height(self.proof_height) {
            Some(h) => h,
            None => {
                return None;
            },
        };
        Some(
            MsgChannelOpenTry {
                port_id: PortId { name: self.port_id },
                ordering,
                connection_id,
                counterparty_port_id: PortId { name: counterparty.port_id },
                counterparty_channel_id,
                version: channel.version,
                counterparty_version: self.counterparty_version,
                proof_init: self.proof_init,
                proof_height,
                signer: Signer { account: self.signer },
            },
        )
    }
}

/// `ChannelOpenAck` as it arrives.
#[derive(Debug)]
pub struct RawMsgChannelOpenAck {
    pub port_id: String,
    pub channel_id: String,
    pub counterparty_channel_id: String,
    pub counterparty_version: String,
    pub proof_try: Vec<u8>,
    pub proof_height: Option<RawHeight>,
    pub signer: String,
}

impl RawMsgChannelOpenAck {
    /// Whether the message can be read: both channels must be named and the proof
    /// height must be there.
    pub open spec fn readable(&self) -> bool {
        &&& ChannelId::named(self.channel_id@).is_some()
        &&& ChannelId::named(self.counterparty_channel_id@).is_some()
        &&& self.proof_height.is_some()
    }

    /// Whether `msg` is what the message reads as.
    pub open spec fn reads_as(&self, msg: &MsgChannelOpenAck) -> bool {
        &&& msg.port_id@ == self.port_id@
        &&& Some(msg.channel_id) == ChannelId::named(self.channel_id@)
        &&& Some(msg.counterparty_channel_id) == ChannelId::named(self.counterparty_channel_id@)
        &&& msg.counterparty_version@ == self.counterparty_version@
        &&& msg.proof_try@ == self.proof_try@
        &&& Some(msg.proof_height) == height_in(self.proof_height)
        &&& msg.signer@ == self.signer@
    }

    /// Reads the message.
    pub fn read(self) -> (msg: Option<MsgChannelOpenAck>)
        ensures
            match msg {
                Some(m) => self.readable() && self.reads_as(&m),
                None => !self.readable(),
            },
    {
        let channel_id = match ChannelId::parse(self.channel_id.as_str()) {
            Some(id) => id,
            None => {
                return None;
            },
        };
        let counterparty_channel_id = match ChannelId::parse(self.counterparty_channel_id.as_str()) {
            Some(id) => id,
            None => {
                return None;
            },
        };
        let proof_height = match read_height(self.proof_height) {
            Some(h) => h,
            None => {
                return None;
            },
        };
        Some(
            MsgChannelOpenAck {
                port_id: PortId { name: self.port_id },
                channel_id,
                counterparty_channel_id,
                counterparty_version: self.counterparty_version,
                proof_try: self.proof_try,
                proof_height,
                signer: Signer { account: self.signer },
            },
        )
    }
}

/// A channel message that carries a port, a channel, a proof and its height, as it
/// arrives: `ChannelOpenConfirm` and `ChannelCloseConfirm`.
#[derive(Debug)]
pub struct RawMsgChannelConfirm {
    pub port_id: String,
    pub channel_id: String,
    pub proof: Vec<u8>,
    pub proof_height: Option<RawHeight>,
    pub signer: String,
}

impl RawMsgChannelConfirm {
    /// Whether the message can be read: the channel must be named and the proof height
    /// must be there.
    pub open spec fn readable(&self) -> bool {
        ChannelId::named(self.channel_id@).is_some() && self.proof_height.is_some()
    }

    /// Whether `msg` is what the message reads as an opening confirmation.
    pub open spec fn reads_as_open(&self, msg: &MsgChannelOpenConfirm) -> bool {
        &&& msg.port_id@ == self.port_id@
        &&& Some(msg.channel_id) == ChannelId::named(self.channel_id@)
        &&& msg.proof_ack@ == self.proof@
        &&& Some(msg.proof_height) == height_in(self.proof_height)
        &&& msg.signer@ == self.signer@
    }

    /// Whether `msg` is what the message reads as a closing confirmation.
    pub open spec fn reads_as_close(&self, msg: &MsgChannelCloseConfirm) -> bool {
        &&& msg.port_id@ == self.port_id@
        &&& Some(msg.channel_id) == ChannelId::named(self.channel_id@)
        &&& msg.proof_init@ == self.proof@
        &&& Some(msg.proof_height) == height_in(self.proof_height)
        &&& msg.signer@ == self.signer@
    }

    /// Reads the message as `ChannelOpenConfirm`.
    pub fn read_open(self) -> (msg: Option<MsgChannelOpenConfirm>)
        ensures
            match msg {
                Some(m) => self.readable() && self.reads_as_open(&m),
                None => !self.readable(),
            },
    {
        let channel_id = match ChannelId::parse(self.channel_id.as_str()) {
            Some(id) => id,
            None => {
                return None;
            },
        };
        let proof_height = match read_height(self.proof_height) {
            Some(h) => h,
            None => {
                return None;
            },
        };
        Some(
            MsgChannelOpenConfirm {
                port_id: PortId { name: self.port_id },
                channel_id,
                proof_ack: self.proof,
                proof_height,
                signer: Signer { account: self.signer },
            },
        )
    }

    /// Reads the message as `ChannelCloseConfirm`.
    pub fn read_close(self) -> (msg: Option<MsgChannelCloseConfirm>)
        ensures
            match msg {
                Some(m) => self.readable() && self.reads_as_close(&m),
                None => !self.readable(),
            },
    {
        let channel_id = match ChannelId::parse(self.channel_id.as_str()) {
            Some(id) => id,
            None => {
                return None;
            },
        };
        let proof_height = match read_height(self.proof_height) {
            Some(h) => h,
            None => {
                return None;
            },
        };
        Some(
            MsgChannelCloseConfirm {
                port_id: PortId { name: self.port_id },
                channel_id,
                proof_init: self.proof,
                proof_height,
                signer: Signer { account: self.signer },
            },
        )
    }
}

/// `ChannelCloseInit` as it arrives.
#[derive(Debug)]
pub struct RawMsgChannelCloseInit {
    pub port_id: String,
    pub channel_id: String,
    pub signer: String,
}

impl RawMsgChannelCloseInit {
    /// Whether the message can be read: the channel must be named.
    pub open spec fn readable(&self) -> bool {
        ChannelId::named(self.channel_id@).is_some()
    }

    /// Whether `msg` is what the message reads as.
    pub open spec fn reads_as(&self, msg: &MsgChannelCloseInit) -> bool {
        &&& msg.port_id@ == self.port_id@
        &&& Some(msg.channel_id) == ChannelId::named(self.channel_id@)
        &&& msg.signer@ == self.signer@
    }

    /// Reads the message.
    pub fn read(self) -> (msg: Option<MsgChannelCloseInit>)
        ensures
            match msg {
                Some(m) => self.readable() && self.reads_as(&m),
                None => !self.readable(),
            },
    {
        let channel_id = match ChannelId::parse(self.channel_id.as_str()) {
            Some(id) => id,
            None => {
                return None;
            },
        };
        Some(
            MsgChannelCloseInit {
                port_id: PortId { name: self.port_id },
                channel_id,
                signer: Signer { account: self.signer },
            },
        )
    }
}

/// A packet message as it arrives: the packet, up to two proofs with their height, and
/// for an acknowledgement the acknowledgement. `RecvPacket` and `Timeout` carry one
/// proof, `Acknowledgement` one proof and the acknowledgement, `TimeoutOnClose` two
/// proofs.
#[derive(Debug)]
pub struct RawMsgPacket {
    pub packet: Option<RawPacket>,
    pub acknowledgement: Vec<u8>,
    pub proof: Vec<u8>,
    pub proof_close: Vec<u8>,
    pub proof_height: Option<RawHeight>,
    pub signer: String,
}

impl RawMsgPacket {
    /// Whether the message can be read: the packet must be there and be one, and the
    /// proof height must be there.
    pub open spec fn readable(&self) -> bool {
        packet_in(self.packet).is_some() && self.proof_height.is_some()
    }

    /// Whether `msg` is what the message reads as a receipt.
    pub open spec fn reads_as_recv(&self, msg: &MsgRecvPacket) -> bool {
        &&& Some(msg.packet@) == packet_in(self.packet)
        &&& msg.proof_commitment@ == self.proof@
        &&& Some(msg.proof_height) == height_in(self.proof_height)
        &&& msg.signer@ == self.signer@
    }

    /// Whether `msg` is what the message reads as an acknowledgement.
    pub open spec fn reads_as_ack(&self, msg: &MsgAcknowledgement) -> bool {
        &&& Some(msg.packet@) == packet_in(self.packet)
        &&& msg.acknowledgement@ == self.acknowledgement@
        &&& msg.proof_acked@ == self.proof@
        &&& Some(msg.proof_height) == height_in(self.proof_height)
        &&& msg.signer@ == self.signer@
    }

    /// Whether `msg` is what the message reads as a timeout.
    pub open spec fn reads_as_timeout(&self, msg: &MsgTimeout) -> bool {
        &&& Some(msg.packet@) == packet_in(self.packet)
        &&& msg.proof_unreceived@ == self.proof@
        &&& Some(msg.proof_height) == height_in(self.proof_height)
        &&& msg.signer@ == self.signer@
    }

    /// Whether `msg` is what the message reads as a timeout on close.
    pub open spec fn reads_as_timeout_on_close(&self, msg: &MsgTimeoutOnClose) -> bool {
        &&& Some(msg.packet@) == packet_in(self.packet)
        &&& msg.proof_unreceived@ == self.proof@
        &&& msg.proof_close@ == self.proof_close@
        &&& Some(msg.proof_height) == height_in(self.proof_height)
        &&& msg.signer@ == self.signer@
    }

    /// Reads the message as `RecvPacket`.
    pub fn read_recv(self) -> (msg: Option<MsgRecvPacket>)
        ensures
            match msg {
                Some(m) => self.readable() && self.reads_as_recv(&m),
                None => !self.readable(),
            },
    {
        let packet = match read_packet(self.packet) {
            Some(p) => p,
            None => {
                return None;
            },
        };
        let proof_height = match read_height(self.proof_height) {
            Some(h) => h,
            None => {
                return None;
            },
        };
        Some(
            MsgRecvPacket {
                packet,
                proof_commitment: self.proof,
                proof_height,
                signer: Signer { account: self.signer },
            },
        )
    }

    /// Reads the message as `Acknowledgement`.
    pub fn read_ack(self) -> (msg: Option<MsgAcknowledgement>)
        ensures
            match msg {
                Some(m) => self.readable() && self.reads_as_ack(&m),
                None => !self.readable(),
            },
    {
        let packet = match read_packet(self.packet) {
            Some(p) => p,
            None => {
                return None;
            },
        };
        let proof_height = match read_height(self.proof_height) {
            Some(h) => h,
            None => {
                return None;
            },
        };
        Some(
            MsgAcknowledgement {
                packet,
                acknowledgement: self.acknowledgement,
                proof_acked: self.proof,
                proof_height,
                signer: Signer { account: self.signer },
            },
        )
    }

    /// Reads the message as `Timeout`.
    pub fn read_timeout(self) -> (msg: Option<MsgTimeout>)
        ensures
            match msg {
                Some(m) => self.readable() && self.reads_as_timeout(&m),
                None => !self.readable(),
            },
    {
        let packet = match read_packet(self.packet) {
            Some(p) => p,
            None => {
                return None;
            },
        };
        let proof_height = match read_height(self.proof_height) {
            Some(h) => h,
            None => {
                return None;
            },
        };
        Some(
            MsgTimeout {
                packet,
                proof_unreceived: self.proof,
                proof_height,
                signer: Signer { account: self.signer },
            },
        )
    }

    /// Reads the message as `TimeoutOnClose`.
    pub fn read_timeout_on_close(self) -> (msg: Option<MsgTimeoutOnClose>)
        ensures
            match msg {
                Some(m) => self.readable() && self.reads_as_timeout_on_close(&m),
                None => !self.readable(),
            },
    {
        let packet = match read_packet(self.packet) {
            Some(p) => p,
            None => {
                return None;
            },
        };
        let proof_height = match read_height(self.proof_height) {
            Some(h) => h,
            None => {
                return None;
            },
        };
        Some(
            MsgTimeoutOnClose {
                packet,
                proof_unreceived: self.proof,
                proof_close: self.proof_close,
                proof_height,
                signer: Signer { account: self.signer },
            },
        )
    }
}

} // verus!
