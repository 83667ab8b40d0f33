//! The ingress format: one message type with an explicit tag that names its kind.

use crate::channel::ChannelMsg;
use crate::client::{ClientMsg, MsgCreateClient};
use crate::connection::ConnectionMsg;
use crate::error::Error;
use crate::packet::PacketMsg;
use crate::wire::{
    RawMsgChannelCloseInit, RawMsgChannelConfirm, RawMsgChannelOpenAck, RawMsgChannelOpenInit,
    RawMsgChannelOpenTry, RawMsgConnectionOpenAck, RawMsgConnectionOpenConfirm,
    RawMsgConnectionOpenInit, RawMsgConnectionOpenTry, RawMsgPacket, RawMsgUpdateClient,
    RawMsgUpgradeClient,
};
use vstd::prelude::*;

verus! {

/// A protocol message, sorted by the state machine that handles it.
#[derive(Debug)]
pub enum Ics26Envelope {
    Ics2Msg(ClientMsg),
    Ics3Msg(ConnectionMsg),
    Ics4ChannelMsg(ChannelMsg),
    Ics4PacketMsg(PacketMsg),
}

/// The kinds of message that the core accepts.
#[derive(Clone, Copy, Debug, PartialEq, Eq, Structural)]
pub enum MsgKind {
    CreateClient,
    UpdateClient,
    UpgradeClient,
    ConnectionOpenInit,
    ConnectionOpenTry,
    ConnectionOpenAck,
    ConnectionOpenConfirm,
    ChannelOpenInit,
    ChannelOpenTry,
    ChannelOpenAck,
    ChannelOpenConfirm,
    ChannelCloseInit,
    ChannelCloseConfirm,
    RecvPacket,
    AcknowledgePacket,
    TimeoutPacket,
    TimeoutOnClose,
}

impl MsgKind {
    /// The tag under which a message of this kind travels.
    pub open spec fn tag(self) -> Seq<char> {
        match self {
            MsgKind::CreateClient => "/ibc.core.client.v1.MsgCreateClient"@,
            MsgKind::UpdateClient => "/ibc.core.client.v1.MsgUpdateClient"@,
            MsgKind::UpgradeClient => "/ibc.core.client.v1.MsgUpgradeClient"@,
            MsgKind::ConnectionOpenInit => "/ibc.core.connection.v1.MsgConnectionOpenInit"@,
            MsgKind::ConnectionOpenTry => "/ibc.core.connection.v1.MsgConnectionOpenTry"@,
            MsgKind::ConnectionOpenAck => "/ibc.core.connection.v1.MsgConnectionOpenAck"@,
            MsgKind::ConnectionOpenConfirm => "/ibc.core.connection.v1.MsgConnectionOpenConfirm"@,
            MsgKind::ChannelOpenInit => "/ibc.core.channel.v1.MsgChannelOpenInit"@,
            MsgKind::ChannelOpenTry => "/ibc.core.channel.v1.MsgChannelOpenTry"@,
            MsgKind::ChannelOpenAck => "/ibc.core.channel.v1.MsgChannelOpenAck"@,
            MsgKind::ChannelOpenConfirm => "/ibc.core.channel.v1.MsgChannelOpenConfirm"@,
            MsgKind::ChannelCloseInit => "/ibc.core.channel.v1.MsgChannelCloseInit"@,
            MsgKind::ChannelCloseConfirm => "/ibc.core.channel.v1.MsgChannelCloseConfirm"@,
            MsgKind::RecvPacket => "/ibc.core.channel.v1.MsgRecvPacket"@,
            MsgKind::AcknowledgePacket => "/ibc.core.channel.v1.MsgAcknowledgement"@,
            MsgKind::TimeoutPacket => "/ibc.core.channel.v1.MsgTimeout"@,
            MsgKind::TimeoutOnClose => "/ibc.core.channel.v1.MsgTimeoutOnClose"@,
        }
    }

    /// The tag under which a message of this kind travels.
    pub fn type_url(&self) -> (tag: &'static str)
        ensures
            tag@ == self.tag(),
    {
        match self {
            MsgKind::CreateClient => "/ibc.core.client.v1.MsgCreateClient",
            MsgKind::UpdateClient => "/ibc.core.client.v1.MsgUpdateClient",
            MsgKind::UpgradeClient => "/ibc.core.client.v1.MsgUpgradeClient",
            MsgKind::ConnectionOpenInit => "/ibc.core.connection.v1.MsgConnectionOpenInit",
            MsgKind::ConnectionOpenTry => "/ibc.core.connection.v1.MsgConnectionOpenTry",
            MsgKind::ConnectionOpenAck => "/ibc.core.connection.v1.MsgConnectionOpenAck",
            MsgKind::ConnectionOpenConfirm => "/ibc.core.connection.v1.MsgConnectionOpenConfirm",
            MsgKind::ChannelOpenInit => "/ibc.core.channel.v1.MsgChannelOpenInit",
            MsgKind::ChannelOpenTry => "/ibc.core.channel.v1.MsgChannelOpenTry",
            MsgKind::ChannelOpenAck => "/ibc.core.channel.v1.MsgChannelOpenAck",
            MsgKind::ChannelOpenConfirm => "/ibc.core.channel.v1.MsgChannelOpenConfirm",
            MsgKind::ChannelCloseInit => "/ibc.core.channel.v1.MsgChannelCloseInit",
            MsgKind::ChannelCloseConfirm => "/ibc.core.channel.v1.MsgChannelCloseConfirm",
            MsgKind::RecvPacket => "/ibc.core.channel.v1.MsgRecvPacket",
            MsgKind::AcknowledgePacket => "/ibc.core.channel.v1.MsgAcknowledgement",
            MsgKind::TimeoutPacket => "/ibc.core.channel.v1.MsgTimeout",
            MsgKind::TimeoutOnClose => "/ibc.core.channel.v1.MsgTimeoutOnClose",
        }
    }
}

/// Whether `text` is the tag of `kind`.
fn is_tag_of(text: &String, kind: MsgKind) -> (r: bool)
    ensures
        r == (text@ == kind.tag()),
{
    let tag = kind.type_url().to_owned();
    *text == tag
}

/// The kind that `tag` names. A kind comes back exactly where some kind has that tag,
/// and it is a kind that has it.
pub fn kind_of_tag(tag: &str) -> (kind: Option<MsgKind>)
    ensures
        match kind {
            Some(k) => k.tag() == tag@,
            None => forall|k: MsgKind| k.tag() != tag@,
        },
{
    let text = tag.to_owned();
    if is_tag_of(&text, MsgKind::CreateClient) {
        Some(MsgKind::CreateClient)
    } else if is_tag_of(&text, MsgKind::UpdateClient) {
        Some(MsgKind::UpdateClient)
    } else if is_tag_of(&text, MsgKind::UpgradeClient) {
        Some(MsgKind::UpgradeClient)
    } else if is_tag_of(&text, MsgKind::ConnectionOpenInit) {
        Some(MsgKind::ConnectionOpenInit)
    } else if is_tag_of(&text, MsgKind::ConnectionOpenTry) {
        Some(MsgKind::ConnectionOpenTry)
    } else if is_tag_of(&text, MsgKind::ConnectionOpenAck) {
        Some(MsgKind::ConnectionOpenAck)
    } else if is_tag_of(&text, MsgKind::ConnectionOpenConfirm) {
        Some(MsgKind::ConnectionOpenConfirm)
    } else if is_tag_of(&text, MsgKind::ChannelOpenInit) {
        Some(MsgKind::ChannelOpenInit)
    } else if is_tag_of(&text, MsgKind::ChannelOpenTry) {
        Some(MsgKind::ChannelOpenTry)
    } else if is_tag_of(&text, MsgKind::ChannelOpenAck) {
        Some(MsgKind::ChannelOpenAck)
    } else if is_tag_of(&text, MsgKind::ChannelOpenConfirm) {
        Some(MsgKind::ChannelOpenConfirm)
    } else if is_tag_of(&text, MsgKind::ChannelCloseInit) {
        Some(MsgKind::ChannelCloseInit)
    } else if is_tag_of(&text, MsgKind::ChannelCloseConfirm) {
        Some(MsgKind::ChannelCloseConfirm)
    } else if is_tag_of(&text, MsgKind::RecvPacket) {
        Some(MsgKind::RecvPacket)
    } else if is_tag_of(&text, MsgKind::AcknowledgePacket) {
        Some(MsgKind::AcknowledgePacket)
    } else if is_tag_of(&text, MsgKind::TimeoutPacket) {
        Some(MsgKind::TimeoutPacket)
    } else if is_tag_of(&text, MsgKind::TimeoutOnClose) {
        Some(MsgKind::TimeoutOnClose)
    } else {
        None
    }
}

impl Ics26Envelope {
    /// The kind of the message.
    pub open spec fn kind(&self) -> MsgKind {
        match self {
            Ics26Envelope::Ics2Msg(ClientMsg::CreateClient(_)) => MsgKind::CreateClient,
            Ics26Envelope::Ics2Msg(ClientMsg::UpdateClient(_)) => MsgKind::UpdateClient,
            Ics26Envelope::Ics2Msg(ClientMsg::UpgradeClient(_)) => MsgKind::UpgradeClient,
            Ics26Envelope::Ics3Msg(ConnectionMsg::ConnectionOpenInit(_)) => {
                MsgKind::ConnectionOpenInit
            },
            Ics26Envelope::Ics3Msg(ConnectionMsg::ConnectionOpenTry(_)) => MsgKind::ConnectionOpenTry,
            Ics26Envelope::Ics3Msg(ConnectionMsg::ConnectionOpenAck(_)) => MsgKind::ConnectionOpenAck,
            Ics26Envelope::Ics3Msg(ConnectionMsg::ConnectionOpenConfirm(_)) => {
                MsgKind::ConnectionOpenConfirm
            },
            Ics26Envelope::Ics4ChannelMsg(ChannelMsg::ChannelOpenInit(_)) => MsgKind::ChannelOpenInit,
            Ics26Envelope::Ics4ChannelMsg(ChannelMsg::ChannelOpenTry(_)) => MsgKind::ChannelOpenTry,
            Ics26Envelope::Ics4ChannelMsg(ChannelMsg::ChannelOpenAck(_)) => MsgKind::ChannelOpenAck,
            Ics26Envelope::Ics4ChannelMsg(ChannelMsg::ChannelOpenConfirm(_)) => {
                MsgKind::ChannelOpenConfirm
            },
            Ics26Envelope::Ics4ChannelMsg(ChannelMsg::ChannelCloseInit(_)) => {
                MsgKind::ChannelCloseInit
            },
            Ics26Envelope::Ics4ChannelMsg(ChannelMsg::ChannelCloseConfirm(_)) => {
                MsgKind::ChannelCloseConfirm
            },
            Ics26Envelope::Ics4PacketMsg(PacketMsg::RecvPacket(_)) => MsgKind::RecvPacket,
            Ics26Envelope::Ics4PacketMsg(PacketMsg::AckPacket(_)) => MsgKind::AcknowledgePacket,
            Ics26Envelope::Ics4PacketMsg(PacketMsg::TimeoutPacket(_)) => MsgKind::TimeoutPacket,
            Ics26Envelope::Ics4PacketMsg(PacketMsg::TimeoutOnClosePacket(_)) => {
                MsgKind::TimeoutOnClose
            },
        }
    }

    /// The kind of the message.
    pub fn msg_kind(&self) -> (kind: MsgKind)
        ensures
            kind == self.kind(),
    {
        match self {
            Ics26Envelope::Ics2Msg(ClientMsg::CreateClient(_)) => MsgKind::CreateClient,
            Ics26Envelope::Ics2Msg(ClientMsg::UpdateClient(_)) => MsgKind::UpdateClient,
            Ics26Envelope::Ics2Msg(ClientMsg::UpgradeClient(_)) => MsgKind::UpgradeClient,
            Ics26Envelope::Ics3Msg(ConnectionMsg::ConnectionOpenInit(_)) => {
                MsgKind::ConnectionOpenInit
            },
            Ics26Envelope::Ics3Msg(ConnectionMsg::ConnectionOpenTry(_)) => MsgKind::ConnectionOpenTry,
            Ics26Envelope::Ics3Msg(ConnectionMsg::ConnectionOpenAck(_)) => MsgKind::ConnectionOpenAck,
            Ics26Envelope::Ics3Msg(ConnectionMsg::ConnectionOpenConfirm(_)) => {
                MsgKind::ConnectionOpenConfirm
            },
            Ics26Envelope::Ics4ChannelMsg(ChannelMsg::ChannelOpenInit(_)) => MsgKind::ChannelOpenInit,
            Ics26Envelope::Ics4ChannelMsg(ChannelMsg::ChannelOpenTry(_)) => MsgKind::ChannelOpenTry,
            Ics26Envelope::Ics4ChannelMsg(ChannelMsg::ChannelOpenAck(_)) => MsgKind::ChannelOpenAck,
            Ics26Envelope::Ics4ChannelMsg(ChannelMsg::ChannelOpenConfirm(_)) => {
                MsgKind::ChannelOpenConfirm
            },
            Ics26Envelope::Ics4ChannelMsg(ChannelMsg::ChannelCloseInit(_)) => {
                MsgKind::ChannelCloseInit
            },
            Ics26Envelope::Ics4ChannelMsg(ChannelMsg::ChannelCloseConfirm(_)) => {
                MsgKind::ChannelCloseConfirm
            },
            Ics26Envelope::Ics4PacketMsg(PacketMsg::RecvPacket(_)) => MsgKind::RecvPacket,
            Ics26Envelope::Ics4PacketMsg(PacketMsg::AckPacket(_)) => MsgKind::AcknowledgePacket,
            Ics26Envelope::Ics4PacketMsg(PacketMsg::TimeoutPacket(_)) => MsgKind::TimeoutPacket,
            Ics26Envelope::Ics4PacketMsg(PacketMsg::TimeoutOnClosePacket(_)) => {
                MsgKind::TimeoutOnClose
            },
        }
    }
}

/// The payload of a message as it arrives.
#[derive(Debug)]
pub enum RawPayload {
    CreateClient(MsgCreateClient),
    UpdateClient(RawMsgUpdateClient),
    UpgradeClient(RawMsgUpgradeClient),
    ConnectionOpenInit(RawMsgConnectionOpenInit),
    ConnectionOpenTry(RawMsgConnectionOpenTry),
    ConnectionOpenAck(RawMsgConnectionOpenAck),
    ConnectionOpenConfirm(RawMsgConnectionOpenConfirm),
    ChannelOpenInit(RawMsgChannelOpenInit),
    ChannelOpenTry(RawMsgChannelOpenTry),
    ChannelOpenAck(RawMsgChannelOpenAck),
    ChannelOpenConfirm(RawMsgChannelConfirm),
    ChannelCloseInit(RawMsgChannelCloseInit),
    ChannelCloseConfirm(RawMsgChannelConfirm),
    RecvPacket(RawMsgPacket),
    Acknowledgement(RawMsgPacket),
    Timeout(RawMsgPacket),
    TimeoutOnClose(RawMsgPacket),
}

impl RawPayload {
    /// The kind of message that the payload has the shape of.
    pub open spec fn kind(&self) -> MsgKind {
        match self {
            RawPayload::CreateClient(_) => MsgKind::CreateClient,
            RawPayload::UpdateClient(_) => MsgKind::UpdateClient,
            RawPayload::UpgradeClient(_) => MsgKind::UpgradeClient,
            RawPayload::ConnectionOpenInit(_) => MsgKind::ConnectionOpenInit,
            RawPayload::ConnectionOpenTry(_) => MsgKind::ConnectionOpenTry,
            RawPayload::ConnectionOpenAck(_) => MsgKind::ConnectionOpenAck,
            RawPayload::ConnectionOpenConfirm(_) => MsgKind::ConnectionOpenConfirm,
            RawPayload::ChannelOpenInit(_) => MsgKind::ChannelOpenInit,
            RawPayload::ChannelOpenTry(_) => MsgKind::ChannelOpenTry,
            RawPayload::ChannelOpenAck(_) => MsgKind::ChannelOpenAck,
            RawPayload::ChannelOpenConfirm(_) => MsgKind::ChannelOpenConfirm,
            RawPayload::ChannelCloseInit(_) => MsgKind::ChannelCloseInit,
            RawPayload::ChannelCloseConfirm(_) => MsgKind::ChannelCloseConfirm,
            RawPayload::RecvPacket(_) => MsgKind::RecvPacket,
            RawPayload::Acknowledgement(_) => MsgKind::AcknowledgePacket,
            RawPayload::Timeout(_) => MsgKind::TimeoutPacket,
            RawPayload::TimeoutOnClose(_) => MsgKind::TimeoutOnClose,
        }
    }

    /// The kind of message that the payload has the shape of.
    pub fn msg_kind(&self) -> (kind: MsgKind)
        ensures
            kind == self.kind(),
    {
        match self {
            RawPayload::CreateClient(_) => MsgKind::CreateClient,
            RawPayload::UpdateClient(_) => MsgKind::UpdateClient,
            RawPayload::UpgradeClient(_) => MsgKind::UpgradeClient,
            RawPayload::ConnectionOpenInit(_) => MsgKind::ConnectionOpenInit,
            RawPayload::ConnectionOpenTry(_) => MsgKind::ConnectionOpenTry,
            RawPayload::ConnectionOpenAck(_) => MsgKind::ConnectionOpenAck,
            RawPayload::ConnectionOpenConfirm(_) => MsgKind::ConnectionOpenConfirm,
            RawPayload::ChannelOpenInit(_) => MsgKind::ChannelOpenInit,
            RawPayload::ChannelOpenTry(_) => MsgKind::ChannelOpenTry,
            RawPayload::ChannelOpenAck(_) => MsgKind::ChannelOpenAck,
            RawPayload::ChannelOpenConfirm(_) => MsgKind::ChannelOpenConfirm,
            RawPayload::ChannelCloseInit(_) => MsgKind::ChannelCloseInit,
            RawPayload::ChannelCloseConfirm(_) => MsgKind::ChannelCloseConfirm,
            RawPayload::RecvPacket(_) => MsgKind::RecvPacket,
            RawPayload::Acknowledgement(_) => MsgKind::AcknowledgePacket,
            RawPayload::Timeout(_) => MsgKind::TimeoutPacket,
            RawPayload::TimeoutOnClose(_) => MsgKind::TimeoutOnClose,
        }
    }

    /// Whether the payload can be read: every part that has to be there is there, and
    /// every name names something.
    pub open spec fn readable(&self) -> bool {
        match self {
            RawPayload::CreateClient(_) => true,
            RawPayload::UpdateClient(raw) => raw.readable(),
            RawPayload::UpgradeClient(raw) => raw.readable(),
            RawPayload::ConnectionOpenInit(raw) => raw.readable(),
            RawPayload::ConnectionOpenTry(raw) => raw.readable(),
            RawPayload::ConnectionOpenAck(raw) => raw.readable(),
            RawPayload::ConnectionOpenConfirm(raw) => raw.readable(),
            RawPayload::ChannelOpenInit(raw) => raw.readable(),
            RawPayload::ChannelOpenTry(raw) => raw.readable(),
            RawPayload::ChannelOpenAck(raw) => raw.readable(),
            RawPayload::ChannelOpenConfirm(raw) => raw.readable(),
            RawPayload::ChannelCloseInit(raw) => raw.readable(),
            RawPayload::ChannelCloseConfirm(raw) => raw.readable(),
            RawPayload::RecvPacket(raw) => raw.readable(),
            RawPayload::Acknowledgement(raw) => raw.readable(),
            RawPayload::Timeout(raw) => raw.readable(),
            RawPayload::TimeoutOnClose(raw) => raw.readable(),
        }
    }

    /// Whether `envelope` is what the payload reads as: the message of the payload's
    /// kind, with each part read from the part of the payload that holds it.
    pub open spec fn reads_as(&self, envelope: &Ics26Envelope) -> bool {
        match (self, envelope) {
            (RawPayload::CreateClient(raw), Ics26Envelope::Ics2Msg(ClientMsg::CreateClient(m))) => {
                m == raw
            },
            (RawPayload::UpdateClient(raw), Ics26Envelope::Ics2Msg(ClientMsg::UpdateClient(m))) => {
                raw.reads_as(m)
            },
            (
                RawPayload::UpgradeClient(raw),
                Ics26Envelope::Ics2Msg(ClientMsg::UpgradeClient(m)),
            ) => raw.reads_as(m),
            (
                RawPayload::ConnectionOpenInit(raw),
                Ics26Envelope::Ics3Msg(ConnectionMsg::ConnectionOpenInit(m)),
            ) => raw.reads_as(m),
            (
                RawPayload::ConnectionOpenTry(raw),
                Ics26Envelope::Ics3Msg(ConnectionMsg::ConnectionOpenTry(m)),
            ) => raw.reads_as(m),
            (
                RawPayload::ConnectionOpenAck(raw),
                Ics26Envelope::Ics3Msg(ConnectionMsg::ConnectionOpenAck(m)),
            ) => raw.reads_as(m),
            (
                RawPayload::ConnectionOpenConfirm(raw),
                Ics26Envelope::Ics3Msg(ConnectionMsg::ConnectionOpenConfirm(m)),
            ) => raw.reads_as(m),
            (
                RawPayload::ChannelOpenInit(raw),
                Ics26Envelope::Ics4ChannelMsg(ChannelMsg::ChannelOpenInit(m)),
            ) => raw.reads_as(m),
            (
                RawPayload::ChannelOpenTry(raw),
                Ics26Envelope::Ics4ChannelMsg(ChannelMsg::ChannelOpenTry(m)),
            ) => raw.reads_as(m),
            (
                RawPayload::ChannelOpenAck(raw),
                Ics26Envelope::Ics4ChannelMsg(ChannelMsg::ChannelOpenAck(m)),
            ) => raw.reads_as(m),
            (
                RawPayload::ChannelOpenConfirm(raw),
                Ics26Envelope::Ics4ChannelMsg(ChannelMsg::ChannelOpenConfirm(m)),
            ) => raw.reads_as_open(m),
            (
                RawPayload::ChannelCloseInit(raw),
                Ics26Envelope::Ics4ChannelMsg(ChannelMsg::ChannelCloseInit(m)),
            ) => raw.reads_as(m),
            (
                RawPayload::ChannelCloseConfirm(raw),
                Ics26Envelope::Ics4ChannelMsg(ChannelMsg::ChannelCloseConfirm(m)),
            ) => raw.reads_as_close(m),
            (RawPayload::RecvPacket(raw), Ics26Envelope::Ics4PacketMsg(PacketMsg::RecvPacket(m))) => {
                raw.reads_as_recv(m)
            },
            (
                RawPayload::Acknowledgement(raw),
                Ics26Envelope::Ics4PacketMsg(PacketMsg::AckPacket(m)),
            ) => raw.reads_as_ack(m),
            (RawPayload::Timeout(raw), Ics26Envelope::Ics4PacketMsg(PacketMsg::TimeoutPacket(m))) => {
                raw.reads_as_timeout(m)
            },
            (
                RawPayload::TimeoutOnClose(raw),
                Ics26Envelope::Ics4PacketMsg(PacketMsg::TimeoutOnClosePacket(m)),
            ) => raw.reads_as_timeout_on_close(m),
            _ => false,
        }
    }

    /// Reads the payload.
    pub fn read(self) -> (envelope: Option<Ics26Envelope>)
        ensures
            match envelope {
                Some(e) => self.readable() && self.reads_as(&e) && e.kind() == self.kind(),
                None => !self.readable(),
            },
    {
        match self {
            RawPayload::CreateClient(m) => Some(Ics26Envelope::Ics2Msg(ClientMsg::CreateClient(m))),
            RawPayload::UpdateClient(raw) => match raw.read() {
                Some(m) => Some(Ics26Envelope::Ics2Msg(ClientMsg::UpdateClient(m))),
                None => None,
            },
            RawPayload::UpgradeClient(raw) => match raw.read() {
                Some(m) => Some(Ics26Envelope::Ics2Msg(ClientMsg::UpgradeClient(m))),
                None => None,
            },
            RawPayload::ConnectionOpenInit(raw) => match raw.read() {
                Some(m) => Some(Ics26Envelope::Ics3Msg(ConnectionMsg::ConnectionOpenInit(m))),
                None => None,
            },
            RawPayload::ConnectionOpenTry(raw) => match raw.read() {
                Some(m) => Some(Ics26Envelope::Ics3Msg(ConnectionMsg::ConnectionOpenTry(m))),
                None => None,
            },
            RawPayload::ConnectionOpenAck(raw) => match raw.read() {
                Some(m) => Some(Ics26Envelope::Ics3Msg(ConnectionMsg::ConnectionOpenAck(m))),
                None => None,
            },
            RawPayload::ConnectionOpenConfirm(raw) => match raw.read() {
                Some(m) => Some(Ics26Envelope::Ics3Msg(ConnectionMsg::ConnectionOpenConfirm(m))),
                None => None,
            },
            RawPayload::ChannelOpenInit(raw) => match raw.read() {
                Some(m) => Some(Ics26Envelope::Ics4ChannelMsg(ChannelMsg::ChannelOpenInit(m))),
                None => None,
            },
            RawPayload::ChannelOpenTry(raw) => match raw.read() {
                Some(m) => Some(Ics26Envelope::Ics4ChannelMsg(ChannelMsg::ChannelOpenTry(m))),
                None => None,
            },
            RawPayload::ChannelOpenAck(raw) => match raw.read() {
                Some(m) => Some(Ics26Envelope::Ics4ChannelMsg(ChannelMsg::ChannelOpenAck(m))),
                None => None,
            },
            RawPayload::ChannelOpenConfirm(raw) => match raw.read_open() {
                Some(m) => Some(Ics26Envelope::Ics4ChannelMsg(ChannelMsg::ChannelOpenConfirm(m))),
                None => None,
            },
            RawPayload::ChannelCloseInit(raw) => match raw.read() {
                Some(m) => Some(Ics26Envelope::Ics4ChannelMsg(ChannelMsg::ChannelCloseInit(m))),
                None => None,
            },
            RawPayload::ChannelCloseConfirm(raw) => match raw.read_close() {
                Some(m) => Some(Ics26Envelope::Ics4ChannelMsg(ChannelMsg::ChannelCloseConfirm(m))),
                None => None,
            },
            RawPayload::RecvPacket(raw) => match raw.read_recv() {
                Some(m) => Some(Ics26Envelope::Ics4PacketMsg(PacketMsg::RecvPacket(m))),
                None => None,
            },
            RawPayload::Acknowledgement(raw) => match raw.read_ack() {
                Some(m) => Some(Ics26Envelope::Ics4PacketMsg(PacketMsg::AckPacket(m))),
                None => None,
            },
            RawPayload::Timeout(raw) => match raw.read_timeout() {
                Some(m) => Some(Ics26Envelope::Ics4PacketMsg(PacketMsg::TimeoutPacket(m))),
                None => None,
            },
            RawPayload::TimeoutOnClose(raw) => match raw.read_timeout_on_close() {
                Some(m) => Some(Ics26Envelope::Ics4PacketMsg(PacketMsg::TimeoutOnClosePacket(m))),
                None => None,
            },
        }
    }
}

/// A message as it comes in: a tag that announces its kind, and the payload.
#[derive(Debug)]
pub struct RawMessage {
    pub type_url: String,
    pub value: RawPayload,
}

/// Whether `message` is well formed: its tag is the tag of the kind whose shape its
/// payload has, and the payload can be read.
pub open spec fn well_formed(message: &RawMessage) -> bool {
    message.type_url@ == message.value.kind().tag() && message.value.readable()
}

/// Turns a message as it comes in into a typed envelope. A tag that names no kind, a
/// payload of another shape than the tag announces, and a payload that cannot be read
/// are a malformed envelope.
pub fn decode(message: RawMessage) -> (r: Result<Ics26Envelope, Error>)
    ensures
        match r {
            Ok(envelope) => well_formed(&message) && message.value.reads_as(&envelope)
                && envelope.kind() == message.value.kind(),
            Err(e) => !well_formed(&message) && e == Error::MalformedEnvelope,
        },
{
    let expected = message.value.msg_kind().type_url().to_owned();
    if message.type_url != expected {
        return Err(Error::MalformedEnvelope);
    }
    match message.value.read() {
        Some(envelope) => Ok(envelope),
        None => Err(Error::MalformedEnvelope),
    }
}

} // verus!
