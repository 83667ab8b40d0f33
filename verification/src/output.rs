//! What a handled message reports back: typed events and a readable log.

use crate::types::{ChannelId, ClientId, ClientType, ConnectionId, Height};
use vstd::prelude::*;

verus! {

/// One meaningful state transition, reported for downstream indexing.
#[derive(Clone, Copy, Debug, PartialEq, Eq, Structural)]
pub enum Event {
    CreateClient { client_id: ClientId, client_type: ClientType, height: Height },
    UpdateClient { client_id: ClientId, height: Height },
    ClientMisbehaviour { client_id: ClientId },
    UpgradeClient { client_id: ClientId, height: Height },
    OpenInitConnection { connection_id: ConnectionId, client_id: ClientId },
    OpenTryConnection { connection_id: ConnectionId, client_id: ClientId },
    OpenAckConnection { connection_id: ConnectionId },
    OpenConfirmConnection { connection_id: ConnectionId },
    OpenInitChannel { channel_id: ChannelId, connection_id: ConnectionId },
    OpenTryChannel { channel_id: ChannelId, connection_id: ConnectionId },
    OpenAckChannel { channel_id: ChannelId },
    OpenConfirmChannel { channel_id: ChannelId },
    CloseInitChannel { channel_id: ChannelId },
    CloseConfirmChannel { channel_id: ChannelId },
    SendPacket { channel_id: ChannelId, sequence: u64 },
    ReceivePacket { channel_id: ChannelId, sequence: u64 },
    WriteAcknowledgement { channel_id: ChannelId, sequence: u64 },
    AcknowledgePacket { channel_id: ChannelId, sequence: u64 },
    TimeoutPacket { channel_id: ChannelId, sequence: u64 },
    TimeoutOnClosePacket { channel_id: ChannelId, sequence: u64 },
    IbcTransferFeeCollected { amount: u128 },
}

/// The texts that a list of log lines holds.
pub open spec fn texts(lines: Seq<String>) -> Seq<Seq<char>> {
    lines.map_values(|line: String| line@)
}

/// The mathematical content of a [`HandlerOutput`] or a [`MsgReceipt`].
pub struct OutputView {
    pub events: Seq<Event>,
    pub log: Seq<Seq<char>>,
}

impl OutputView {
    /// Nothing reported.
    pub open spec fn empty() -> OutputView {
        OutputView { events: Seq::empty(), log: Seq::empty() }
    }

    /// One event and one log line.
    pub open spec fn single(event: Event, line: Seq<char>) -> OutputView {
        OutputView { events: seq![event], log: seq![line] }
    }

    /// What `self` reports, followed by what `later` reports.
    pub open spec fn then_output(self, later: OutputView) -> OutputView {
        OutputView { events: self.events + later.events, log: self.log + later.log }
    }
}

/// Events and log lines gathered while one message is handled.
#[derive(Debug)]
pub struct HandlerOutput {
    pub events: Vec<Event>,
    pub log: Vec<String>,
}

impl View for HandlerOutput {
    type V = OutputView;

    open spec fn view(&self) -> OutputView {
        OutputView { events: self.events@, log: texts(self.log@) }
    }
}

impl HandlerOutput {
    pub fn new() -> (out: HandlerOutput)
        ensures
            out@ == OutputView::empty(),
    {
        let out = HandlerOutput { events: Vec::new(), log: Vec::new() };
        assert(out@.log =~= Seq::empty());
        out
    }

    /// An output with one event and one log line.
    pub fn single(event: Event, line: &str) -> (out: HandlerOutput)
        ensures
            out@ == OutputView::single(event, line@),
    {
        let mut out = HandlerOutput::new();
        out.emit(event);
        out.log(line);
        assert(out@.events =~= seq![event]);
        assert(out@.log =~= seq![line@]);
        out
    }

    /// Appends an event.
    pub fn emit(&mut self, event: Event)
        ensures
            final(self)@.events == old(self)@.events.push(event),
            final(self)@.log == old(self)@.log,
    {
        self.events.push(event);
    }

    /// Appends a log line.
    pub fn log(&mut self, line: &str)
        ensures
            final(self)@.events == old(self)@.events,
            final(self)@.log == old(self)@.log.push(line@),
    {
        self.log.push(line.to_owned());
        assert(texts(self.log@) =~= texts(old(self).log@).push(line@));
    }

    /// Appends everything that `later` holds.
    pub fn merge(&mut self, later: HandlerOutput)
        ensures
            final(self)@ == old(self)@.then_output(later@),
    {
        let mut later = later;
        let ghost lines = later.log@;
        self.events.append(&mut later.events);
        self.log.append(&mut later.log);
        assert(texts(self.log@) =~= texts(old(self).log@) + texts(lines));
    }
}

/// What the execution of one message produced: the events emitted and the log lines written.
#[derive(Debug)]
pub struct MsgReceipt {
    pub events: Vec<Event>,
    pub log: Vec<String>,
}

impl View for MsgReceipt {
    type V = OutputView;

    open spec fn view(&self) -> OutputView {
        OutputView { events: self.events@, log: texts(self.log@) }
    }
}

} // verus!
