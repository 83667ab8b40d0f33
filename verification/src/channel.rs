//! The channel handshake: four opening steps and two closing steps over an open connection.

use crate::connection::ConnectionState;
use crate::error::Error;
use crate::evidence::{check_proof, proof_check, Claim, ClaimView, ProofVerifier};
use crate::output::{texts, Event, HandlerOutput, OutputView};
use crate::store::{ChannelResult, ChannelResultView, Store, StoreView};
use crate::types::{ChannelId, ClientId, ConnectionId, Height, Order, PortId, Signer};
use vstd::prelude::*;

verus! {

/// How far the handshake of a channel has come. `Closed` is final.
#[derive(Clone, Copy, Debug, PartialEq, Eq, Structural)]
pub enum ChannelState {
    Init,
    TryOpen,
    Open,
    Closed,
}

/// One end of an application-level pipe over a connection.
#[derive(Debug)]
pub struct ChannelRecord {
    pub state: ChannelState,
    pub ordering: Order,
    pub port_id: PortId,
    pub connection_id: ConnectionId,
    pub counterparty_port_id: PortId,
    pub counterparty_channel_id: Option<ChannelId>,
    pub version: String,
}

/// The mathematical content of a [`ChannelRecord`].
pub struct ChannelRecordView {
    pub state: ChannelState,
    pub ordering: Order,
    pub port_id: Seq<char>,
    pub connection_id: ConnectionId,
    pub counterparty_port_id: Seq<char>,
    pub counterparty_channel_id: Option<ChannelId>,
    pub version: Seq<char>,
}

impl View for ChannelRecord {
    type V = ChannelRecordView;

    open spec fn view(&self) -> ChannelRecordView {
        ChannelRecordView {
            state: self.state,
            ordering: self.ordering,
            port_id: self.port_id@,
            connection_id: self.connection_id,
            counterparty_port_id: self.counterparty_port_id@,
            counterparty_channel_id: self.counterparty_channel_id,
            version: self.version@,
        }
    }
}

impl Clone for ChannelRecord {
    fn clone(&self) -> (r: ChannelRecord)
        ensures
            r@ == self@,
    {
        ChannelRecord {
            state: self.state,
            ordering: self.ordering,
            port_id: self.port_id.clone(),
            connection_id: self.connection_id,
            counterparty_port_id: self.counterparty_port_id.clone(),
            counterparty_channel_id: self.counterparty_channel_id,
            version: self.version.clone(),
        }
    }
}

/// Starts a channel handshake on the local side.
#[derive(Debug)]
pub struct MsgChannelOpenInit {
    pub port_id: PortId,
    pub ordering: Order,
    pub connection_id: ConnectionId,
    pub counterparty_port_id: PortId,
    pub version: String,
    pub signer: Signer,
}

/// Answers a channel handshake that the counterparty started.
#[derive(Debug)]
pub struct MsgChannelOpenTry {
    pub port_id: PortId,
    pub ordering: Order,
    pub connection_id: ConnectionId,
    pub counterparty_port_id: PortId,
    pub counterparty_channel_id: ChannelId,
    pub version: String,
    pub counterparty_version: String,
    pub proof_init: Vec<u8>,
    pub proof_height: Height,
    pub signer: Signer,
}

/// Tells the side that started the handshake that the counterparty answered.
#[derive(Debug)]
pub struct MsgChannelOpenAck {
    pub port_id: PortId,
    pub channel_id: ChannelId,
    pub counterparty_channel_id: ChannelId,
    pub counterparty_version: String,
    pub proof_try: Vec<u8>,
    pub proof_height: Height,
    pub signer: Signer,
}

/// Tells the side that answered that the handshake is complete.
#[derive(Debug)]
pub struct MsgChannelOpenConfirm {
    pub port_id: PortId,
    pub channel_id: ChannelId,
    pub proof_ack: Vec<u8>,
    pub proof_height: Height,
    pub signer: Signer,
}

/// Closes a channel from the local side.
#[derive(Debug)]
pub struct MsgChannelCloseInit {
    pub port_id: PortId,
    pub channel_id: ChannelId,
    pub signer: Signer,
}

/// Closes a channel because the counterparty closed its end.
#[derive(Debug)]
pub struct MsgChannelCloseConfirm {
    pub port_id: PortId,
    pub channel_id: ChannelId,
    pub proof_init: Vec<u8>,
    pub proof_height: Height,
    pub signer: Signer,
}

/// A message of the channel handshake.
#[derive(Debug)]
pub enum ChannelMsg {
    ChannelOpenInit(MsgChannelOpenInit),
    ChannelOpenTry(MsgChannelOpenTry),
    ChannelOpenAck(MsgChannelOpenAck),
    ChannelOpenConfirm(MsgChannelOpenConfirm),
    ChannelCloseInit(MsgChannelCloseInit),
    ChannelCloseConfirm(MsgChannelCloseConfirm),
}

impl ChannelMsg {
    /// The local port that the message addresses.
    pub open spec fn port(&self) -> Seq<char> {
        match self {
            ChannelMsg::ChannelOpenInit(m) => m.port_id@,
            ChannelMsg::ChannelOpenTry(m) => m.port_id@,
            ChannelMsg::ChannelOpenAck(m) => m.port_id@,
            ChannelMsg::ChannelOpenConfirm(m) => m.port_id@,
            ChannelMsg::ChannelCloseInit(m) => m.port_id@,
            ChannelMsg::ChannelCloseConfirm(m) => m.port_id@,
        }
    }

    /// The local port that the message addresses.
    pub fn port_id(&self) -> (port: &PortId)
        ensures
            port@ == self.port(),
    {
        match self {
            ChannelMsg::ChannelOpenInit(m) => &m.port_id,
            ChannelMsg::ChannelOpenTry(m) => &m.port_id,
            ChannelMsg::ChannelOpenAck(m) => &m.port_id,
            ChannelMsg::ChannelOpenConfirm(m) => &m.port_id,
            ChannelMsg::ChannelCloseInit(m) => &m.port_id,
            ChannelMsg::ChannelCloseConfirm(m) => &m.port_id,
        }
    }
}

/// The connection that a list of hops names: there must be one hop, and it must name a
/// connection.
pub open spec fn single_hop(hops: Seq<Seq<char>>) -> Option<ConnectionId> {
    if hops.len() == 1 {
        ConnectionId::named(hops[0])
    } else {
        None
    }
}

/// Computes [`single_hop`].
pub fn read_single_hop(hops: &Vec<String>) -> (connection_id: Option<ConnectionId>)
    ensures
        connection_id == single_hop(texts(hops@)),
{
    if hops.len() == 1 {
        ConnectionId::parse(hops[0].as_str())
    } else {
        None
    }
}

/// What a channel message comes to: the record to store and what to report.
pub struct ChannelOutcome {
    pub result: ChannelResultView,
    pub output: OutputView,
}

/// Whether a handler's answer is the outcome that the model gives.
pub open spec fn channel_answer(
    answer: Result<(ChannelResult, HandlerOutput), Error>,
    outcome: Result<ChannelOutcome, Error>,
) -> bool {
    match answer {
        Ok((result, output)) => outcome == Ok::<ChannelOutcome, Error>(
            ChannelOutcome { result: result@, output: output@ },
        ),
        Err(e) => outcome == Err::<ChannelOutcome, Error>(e),
    }
}

/// The two facts that a channel step reads off an open connection: the client that proofs
/// are held against and the connection's name on the counterparty.
pub struct Link {
    pub client_id: ClientId,
    pub counterparty_connection_id: ConnectionId,
}

/// The link over the connection `id`, or `ConnectionNotOpen` where the store holds no such
/// connection, or one that is not `Open`, or one that does not name its counterparty.
pub open spec fn open_link(store: StoreView, id: ConnectionId) -> Result<Link, Error> {
    match store.connection(id) {
        None => Err(Error::ConnectionNotOpen),
        Some(connection) => {
            if connection.state != ConnectionState::Open
                || connection.counterparty_connection_id.is_none() {
                Err(Error::ConnectionNotOpen)
            } else {
                Ok(
                    Link {
                        client_id: connection.client_id,
                        counterparty_connection_id: connection.counterparty_connection_id->0,
                    },
                )
            }
        },
    }
}

/// Computes [`open_link`].
pub fn find_open_link(store: &Store, id: ConnectionId) -> (link: Result<Link, Error>)
    ensures
        link == open_link(store@, id),
{
    match store.connection(id) {
        None => Err(Error::ConnectionNotOpen),
        Some(connection) => {
            if connection.state != ConnectionState::Open {
                return Err(Error::ConnectionNotOpen);
            }
            match connection.counterparty_connection_id {
                None => Err(Error::ConnectionNotOpen),
                Some(counterparty_connection_id) => Ok(
                    Link { client_id: connection.client_id, counterparty_connection_id },
                ),
            }
        },
    }
}

/// The channel end that the counterparty must hold, in `state`, for the local end `end`
/// whose name is `channel_id`.
pub open spec fn mirror(
    end: ChannelRecordView,
    channel_id: Option<ChannelId>,
    state: ChannelState,
    counterparty_connection_id: ConnectionId,
    version: Seq<char>,
) -> ChannelRecordView {
    ChannelRecordView {
        state,
        ordering: end.ordering,
        port_id: end.counterparty_port_id,
        connection_id: counterparty_connection_id,
        counterparty_port_id: end.port_id,
        counterparty_channel_id: channel_id,
        version,
    }
}

/// Computes [`mirror`].
pub fn mirror_of(
    end: &ChannelRecord,
    channel_id: Option<ChannelId>,
    state: ChannelState,
    counterparty_connection_id: ConnectionId,
    version: &String,
) -> (expected: ChannelRecord)
    ensures
        expected@ == mirror(end@, channel_id, state, counterparty_connection_id, version@),
{
    ChannelRecord {
        state,
        ordering: end.ordering,
        port_id: end.counterparty_port_id.clone(),
        connection_id: counterparty_connection_id,
        counterparty_port_id: end.port_id.clone(),
        counterparty_channel_id: channel_id,
        version: version.clone(),
    }
}

/// The end that `ChannelOpenInit` creates.
pub open spec fn init_end(msg: &MsgChannelOpenInit) -> ChannelRecordView {
    ChannelRecordView {
        state: ChannelState::Init,
        ordering: msg.ordering,
        port_id: msg.port_id@,
        connection_id: msg.connection_id,
        counterparty_port_id: msg.counterparty_port_id@,
        counterparty_channel_id: None,
        version: msg.version@,
    }
}

/// The outcome of `ChannelOpenInit`.
///
/// The connection must exist (else `ConnectionNotOpen`); it need not be open yet. The
/// channel is created in `Init` under the next free identifier.
pub open spec fn open_init_outcome(store: StoreView, msg: &MsgChannelOpenInit) -> Result<
    ChannelOutcome,
    Error,
> {
    let channel_id = store.next_channel_id();
    if store.connection(msg.connection_id).is_none() {
        Err(Error::ConnectionNotOpen)
    } else {
        Ok(
            ChannelOutcome {
                result: ChannelResultView { channel_id, record: init_end(msg) },
                output: OutputView::single(
                    Event::OpenInitChannel { channel_id, connection_id: msg.connection_id },
                    "channel handshake started"@,
                ),
            },
        )
    }
}

/// The end that `ChannelOpenTry` creates.
pub open spec fn try_end(msg: &MsgChannelOpenTry) -> ChannelRecordView {
    ChannelRecordView {
        state: ChannelState::TryOpen,
        ordering: msg.ordering,
        port_id: msg.port_id@,
        connection_id: msg.connection_id,
        counterparty_port_id: msg.counterparty_port_id@,
        counterparty_channel_id: Some(msg.counterparty_channel_id),
        version: msg.version@,
    }
}

/// The outcome of `ChannelOpenTry`.
///
/// The connection must be open. The proof must show that the counterparty holds its end
/// in `Init`, with the version it proposed and not yet naming the local end. The channel
/// is created in `TryOpen` under the next free identifier.
pub open spec fn open_try_outcome<V: ProofVerifier>(
    store: StoreView,
    verifier: &V,
    msg: &MsgChannelOpenTry,
) -> Result<ChannelOutcome, Error> {
    let channel_id = store.next_channel_id();
    match open_link(store, msg.connection_id) {
        Err(e) => Err(e),
        Ok(link) => {
            let checked = proof_check(
                store,
                verifier,
                link.client_id,
                msg.proof_height,
                msg.proof_init@,
                ClaimView::Channel {
                    channel_id: msg.counterparty_channel_id,
                    record: mirror(
                        try_end(msg),
                        None,
                        ChannelState::Init,
                        link.counterparty_connection_id,
                        msg.counterparty_version@,
                    ),
                },
            );
            if checked is Err {
                Err(checked->Err_0)
            } else {
                Ok(
                    ChannelOutcome {
                        result: ChannelResultView { channel_id, record: try_end(msg) },
                        output: OutputView::single(
                            Event::OpenTryChannel { channel_id, connection_id: msg.connection_id },
                            "channel handshake answered"@,
                        ),
                    },
                )
            }
        },
    }
}

/// What stands against a step on the channel end `end` that needs it in `state`:
/// `ChannelAlreadyClosed` where the end is closed, `ChannelNotOpen` where it is in another
/// state than the one needed.
pub open spec fn state_obstacle(end: ChannelRecordView, state: ChannelState) -> Option<Error> {
    if end.state == ChannelState::Closed {
        Some(Error::ChannelAlreadyClosed)
    } else if end.state != state {
        Some(Error::ChannelNotOpen)
    } else {
        None
    }
}

/// The outcome of `ChannelOpenAck`.
///
/// The channel must exist under the port (else `ChannelNotOpen`) and be in `Init`; its
/// connection must be open. The proof must show that the counterparty holds its end in
/// `TryOpen`, naming the local end. The channel becomes `Open`, takes the counterparty's
/// version and names the counterparty's end.
pub open spec fn open_ack_outcome<V: ProofVerifier>(
    store: StoreView,
    verifier: &V,
    msg: &MsgChannelOpenAck,
) -> Result<ChannelOutcome, Error> {
    match store.channel(msg.port_id@, msg.channel_id) {
        None => Err(Error::ChannelNotOpen),
        Some(entry) => {
            let end = entry.end;
            let link = open_link(store, end.connection_id);
            if state_obstacle(end, ChannelState::Init).is_some() {
                Err(state_obstacle(end, ChannelState::Init)->0)
            } else if link is Err {
                Err(link->Err_0)
            } else {
                let checked = proof_check(
                    store,
                    verifier,
                    link->Ok_0.client_id,
                    msg.proof_height,
                    msg.proof_try@,
                    ClaimView::Channel {
                        channel_id: msg.counterparty_channel_id,
                        record: mirror(
                            end,
                            Some(msg.channel_id),
                            ChannelState::TryOpen,
                            link->Ok_0.counterparty_connection_id,
                            msg.counterparty_version@,
                        ),
                    },
                );
                if checked is Err {
                    Err(checked->Err_0)
                } else {
                    Ok(
                        ChannelOutcome {
                            result: ChannelResultView {
                                channel_id: msg.channel_id,
                                record: ChannelRecordView {
                                    state: ChannelState::Open,
                                    counterparty_channel_id: Some(msg.counterparty_channel_id),
                                    version: msg.counterparty_version@,
                                    ..end
                                },
                            },
                            output: OutputView::single(
                                Event::OpenAckChannel { channel_id: msg.channel_id },
                                "channel open on the starting side"@,
                            ),
                        },
                    )
                }
            }
        },
    }
}

/// The outcome of a step that moves an existing channel end from `from` to `to` on a proof
/// that the counterparty's end is in `theirs`: `ChannelOpenConfirm` and
/// `ChannelCloseConfirm`.
///
/// The channel must exist under the port, be in `from` where one state is asked for, not be
/// closed, and name the counterparty's end; its connection must be open.
pub open spec fn confirm_outcome<V: ProofVerifier>(
    store: StoreView,
    verifier: &V,
    port: Seq<char>,
    channel_id: ChannelId,
    proof: Seq<u8>,
    proof_height: Height,
    from: Option<ChannelState>,
    theirs: ChannelState,
    to: ChannelState,
    output: OutputView,
) -> Result<ChannelOutcome, Error> {
    match store.channel(port, channel_id) {
        None => Err(Error::ChannelNotOpen),
        Some(entry) => {
            let end = entry.end;
            let link = open_link(store, end.connection_id);
            if end.state == ChannelState::Closed {
                Err(Error::ChannelAlreadyClosed)
            } else if (from.is_some() && end.state != from->0)
                || end.counterparty_channel_id.is_none() {
                Err(Error::ChannelNotOpen)
            } else if link is Err {
                Err(link->Err_0)
            } else {
                let checked = proof_check(
                    store,
                    verifier,
                    link->Ok_0.client_id,
                    proof_height,
                    proof,
                    ClaimView::Channel {
                        channel_id: end.counterparty_channel_id->0,
                        record: mirror(
                            end,
                            Some(channel_id),
                            theirs,
                            link->Ok_0.counterparty_connection_id,
                            end.version,
                        ),
                    },
                );
                if checked is Err {
                    Err(checked->Err_0)
                } else {
                    Ok(
                        ChannelOutcome {
                            result: ChannelResultView {
                                channel_id,
                                record: ChannelRecordView { state: to, ..end },
                            },
                            output,
                        },
                    )
                }
            }
        },
    }
}

/// The outcome of `ChannelOpenConfirm`: from `TryOpen` to `Open`, on a proof that the
/// counterparty's end is `Open`.
pub open spec fn open_confirm_outcome<V: ProofVerifier>(
    store: StoreView,
    verifier: &V,
    msg: &MsgChannelOpenConfirm,
) -> Result<ChannelOutcome, Error> {
    confirm_outcome(
        store,
        verifier,
        msg.port_id@,
        msg.channel_id,
        msg.proof_ack@,
        msg.proof_height,
        Some(ChannelState::TryOpen),
        ChannelState::Open,
        ChannelState::Open,
        OutputView::single(
            Event::OpenConfirmChannel { channel_id: msg.channel_id },
            "channel open on the answering side"@,
        ),
    )
}

/// The outcome of `ChannelCloseConfirm`: from any state but `Closed` to `Closed`, on a
/// proof that the counterparty's end is `Closed`. An end that is closed already fails
/// with `ChannelAlreadyClosed`.
pub open spec fn close_confirm_outcome<V: ProofVerifier>(
    store: StoreView,
    verifier: &V,
    msg: &MsgChannelCloseConfirm,
) -> Result<ChannelOutcome, Error> {
    confirm_outcome(
        store,
        verifier,
        msg.port_id@,
        msg.channel_id,
        msg.proof_init@,
        msg.proof_height,
        None,
        ChannelState::Closed,
        ChannelState::Closed,
        OutputView::single(
            Event::CloseConfirmChannel { channel_id: msg.channel_id },
            "channel closed after the counterparty"@,
        ),
    )
}

/// The outcome of `ChannelCloseInit`.
///
/// The channel must exist under the port (else `ChannelNotOpen`) and not be closed already
/// (else `ChannelAlreadyClosed`); its connection must be open. The channel becomes `Closed`.
pub open spec fn close_init_outcome(store: StoreView, msg: &MsgChannelCloseInit) -> Result<
    ChannelOutcome,
    Error,
> {
    match store.channel(msg.port_id@, msg.channel_id) {
        None => Err(Error::ChannelNotOpen),
        Some(entry) => {
            let link = open_link(store, entry.end.connection_id);
            if entry.end.state == ChannelState::Closed {
                Err(Error::ChannelAlreadyClosed)
            } else if link is Err {
                Err(link->Err_0)
            } else {
                Ok(
                    ChannelOutcome {
                        result: ChannelResultView {
                            channel_id: msg.channel_id,
                            record: ChannelRecordView { state: ChannelState::Closed, ..entry.end },
                        },
                        output: OutputView::single(
                            Event::CloseInitChannel { channel_id: msg.channel_id },
                            "channel closed"@,
                        ),
                    },
                )
            }
        },
    }
}

/// The outcome of a channel message against `store`.
pub open spec fn channel_outcome<V: ProofVerifier>(
    store: StoreView,
    verifier: &V,
    msg: &ChannelMsg,
) -> Result<ChannelOutcome, Error> {
    match msg {
        ChannelMsg::ChannelOpenInit(m) => open_init_outcome(store, m),
        ChannelMsg::ChannelOpenTry(m) => open_try_outcome(store, verifier, m),
        ChannelMsg::ChannelOpenAck(m) => open_ack_outcome(store, verifier, m),
        ChannelMsg::ChannelOpenConfirm(m) => open_confirm_outcome(store, verifier, m),
        ChannelMsg::ChannelCloseInit(m) => close_init_outcome(store, m),
        ChannelMsg::ChannelCloseConfirm(m) => close_confirm_outcome(store, verifier, m),
    }
}

/// Handles `ChannelOpenInit`.
pub fn open_init(store: &Store, msg: &MsgChannelOpenInit) -> (answer: Result<
    (ChannelResult, HandlerOutput),
    Error,
>)
    ensures
        channel_answer(answer, open_init_outcome(store@, msg)),
{
    if store.connection(msg.connection_id).is_none() {
        return Err(Error::ConnectionNotOpen);
    }
    let channel_id = store.next_channel_id();
    let record = ChannelRecord {
        state: ChannelState::Init,
        ordering: msg.ordering,
        port_id: msg.port_id.clone(),
        connection_id: msg.connection_id,
        counterparty_port_id: msg.counterparty_port_id.clone(),
        counterparty_channel_id: None,
        version: msg.version.clone(),
    };
    let output = HandlerOutput::single(
        Event::OpenInitChannel { channel_id, connection_id: msg.connection_id },
        "channel handshake started",
    );
    Ok((ChannelResult { channel_id, record }, output))
}

/// Handles `ChannelOpenTry`.
pub fn open_try<V: ProofVerifier>(store: &Store, verifier: &V, msg: &MsgChannelOpenTry) -> (answer:
    Result<(ChannelResult, HandlerOutput), Error>)
    ensures
        channel_answer(answer, open_try_outcome(store@, verifier, msg)),
{
    let link = match find_open_link(store, msg.connection_id) {
        Err(e) => {
            return Err(e);
        },
        Ok(link) => link,
    };
    let record = ChannelRecord {
        state: ChannelState::TryOpen,
        ordering: msg.ordering,
        port_id: msg.port_id.clone(),
        connection_id: msg.connection_id,
        counterparty_port_id: msg.counterparty_port_id.clone(),
        counterparty_channel_id: Some(msg.counterparty_channel_id),
        version: msg.version.clone(),
    };
    let claim = Claim::Channel {
        channel_id: msg.counterparty_channel_id,
        record: mirror_of(
            &record,
            None,
            ChannelState::Init,
            link.counterparty_connection_id,
            &msg.counterparty_version,
        ),
    };
    match check_proof(store, verifier, link.client_id, msg.proof_height, &msg.proof_init, &claim) {
        Err(e) => {
            return Err(e);
        },
        Ok(()) => {},
    }
    let channel_id = store.next_channel_id();
    let output = HandlerOutput::single(
        Event::OpenTryChannel { channel_id, connection_id: msg.connection_id },
        "channel handshake answered",
    );
    Ok((ChannelResult { channel_id, record }, output))
}

/// Handles `ChannelOpenAck`.
pub fn open_ack<V: ProofVerifier>(store: &Store, verifier: &V, msg: &MsgChannelOpenAck) -> (answer:
    Result<(ChannelResult, HandlerOutput), Error>)
    ensures
        channel_answer(answer, open_ack_outcome(store@, verifier, msg)),
{
    let entry = match store.channel(&msg.port_id, msg.channel_id) {
        None => {
            return Err(Error::ChannelNotOpen);
        },
        Some(entry) => entry,
    };
    if entry.end.state == ChannelState::Closed {
        return Err(Error::ChannelAlreadyClosed);
    }
    if entry.end.state != ChannelState::Init {
        return Err(Error::ChannelNotOpen);
    }
    let link = match find_open_link(store, entry.end.connection_id) {
        Err(e) => {
            return Err(e);
        },
        Ok(link) => link,
    };
    let claim = Claim::Channel {
        channel_id: msg.counterparty_channel_id,
        record: mirror_of(
            &entry.end,
            Some(msg.channel_id),
            ChannelState::TryOpen,
            link.counterparty_connection_id,
            &msg.counterparty_version,
        ),
    };
    match check_proof(store, verifier, link.client_id, msg.proof_height, &msg.proof_try, &claim) {
        Err(e) => {
            return Err(e);
        },
        Ok(()) => {},
    }
    let mut record = entry.end.clone();
    record.state = ChannelState::Open;
    record.counterparty_channel_id = Some(msg.counterparty_channel_id);
    record.version = msg.counterparty_version.clone();
    let output = HandlerOutput::single(
        Event::OpenAckChannel { channel_id: msg.channel_id },
        "channel open on the starting side",
    );
    Ok((ChannelResult { channel_id: msg.channel_id, record }, output))
}

/// Moves an existing channel end from `from` to `to` on a proof that the counterparty's
/// end is in `theirs`.
pub fn confirm<V: ProofVerifier>(
    store: &Store,
    verifier: &V,
    port: &PortId,
    channel_id: ChannelId,
    proof: &Vec<u8>,
    proof_height: Height,
    from: Option<ChannelState>,
    theirs: ChannelState,
    to: ChannelState,
    output: HandlerOutput,
) -> (answer: Result<(ChannelResult, HandlerOutput), Error>)
    ensures
        channel_answer(
            answer,
            confirm_outcome(
                store@,
                verifier,
                port@,
                channel_id,
                proof@,
                proof_height,
                from,
                theirs,
                to,
                output@,
            ),
        ),
{
    let entry = match store.channel(port, channel_id) {
        None => {
            return Err(Error::ChannelNotOpen);
        },
        Some(entry) => entry,
    };
    if entry.end.state == ChannelState::Closed {
        return Err(Error::ChannelAlreadyClosed);
    }
    match from {
        Some(state) => {
            if entry.end.state != state {
                return Err(Error::ChannelNotOpen);
            }
        },
        None => {},
    }
    let counterparty_channel_id = match entry.end.counterparty_channel_id {
        None => {
            return Err(Error::ChannelNotOpen);
        },
        Some(id) => id,
    };
    let link = match find_open_link(store, entry.end.connection_id) {
        Err(e) => {
            return Err(e);
        },
        Ok(link) => link,
    };
    let claim = Claim::Channel {
        channel_id: counterparty_channel_id,
        record: mirror_of(
            &entry.end,
            Some(channel_id),
            theirs,
            link.counterparty_connection_id,
            &entry.end.version,
        ),
    };
    match check_proof(store, verifier, link.client_id, proof_height, proof, &claim) {
        Err(e) => {
            return Err(e);
        },
        Ok(()) => {},
    }
    let mut record = entry.end.clone();
    record.state = to;
    Ok((ChannelResult { channel_id, record }, output))
}

/// Handles `ChannelOpenConfirm`.
pub fn open_confirm<V: ProofVerifier>(store: &Store, verifier: &V, msg: &MsgChannelOpenConfirm) -> (answer:
    Result<(ChannelResult, HandlerOutput), Error>)
    ensures
        channel_answer(answer, open_confirm_outcome(store@, verifier, msg)),
{
    let output = HandlerOutput::single(
        Event::OpenConfirmChannel { channel_id: msg.channel_id },
        "channel open on the answering side",
    );
    confirm(
        store,
        verifier,
        &msg.port_id,
        msg.channel_id,
        &msg.proof_ack,
        msg.proof_height,
        Some(ChannelState::TryOpen),
        ChannelState::Open,
        ChannelState::Open,
        output,
    )
}

/// Handles `ChannelCloseInit`.
pub fn close_init(store: &Store, msg: &MsgChannelCloseInit) -> (answer: Result<
    (ChannelResult, HandlerOutput),
    Error,
>)
    ensures
        channel_answer(answer, close_init_outcome(store@, msg)),
{
    let entry = match store.channel(&msg.port_id, msg.channel_id) {
        None => {
            return Err(Error::ChannelNotOpen);
        },
        Some(entry) => entry,
    };
    if entry.end.state == ChannelState::Closed {
        return Err(Error::ChannelAlreadyClosed);
    }
    match find_open_link(store, entry.end.connection_id) {
        Err(e) => {
            return Err(e);
        },
        Ok(_) => {},
    }
    let mut record = entry.end.clone();
    record.state = ChannelState::Closed;
    let output = HandlerOutput::single(
        Event::CloseInitChannel { channel_id: msg.channel_id },
        "channel closed",
    );
    Ok((ChannelResult { channel_id: msg.channel_id, record }, output))
}

/// Handles `ChannelCloseConfirm`.
pub fn close_confirm<V: ProofVerifier>(
    store: &Store,
    verifier: &V,
    msg: &MsgChannelCloseConfirm,
) -> (answer: Result<(ChannelResult, HandlerOutput), Error>)
    ensures
        channel_answer(answer, close_confirm_outcome(store@, verifier, msg)),
{
    let output = HandlerOutput::single(
        Event::CloseConfirmChannel { channel_id: msg.channel_id },
        "channel closed after the counterparty",
    );
    confirm(
        store,
        verifier,
        &msg.port_id,
        msg.channel_id,
        &msg.proof_init,
        msg.proof_height,
        None,
        ChannelState::Closed,
        ChannelState::Closed,
        output,
    )
}

/// Handles a channel message against `store`, without changing the store and without
/// calling the application module.
pub fn channel_dispatch<V: ProofVerifier>(store: &Store, verifier: &V, msg: &ChannelMsg) -> (answer:
    Result<(ChannelResult, HandlerOutput), Error>)
    ensures
        channel_answer(answer, channel_outcome(store@, verifier, msg)),
{
    match msg {
        ChannelMsg::ChannelOpenInit(m) => open_init(store, m),
        ChannelMsg::ChannelOpenTry(m) => open_try(store, verifier, m),
        ChannelMsg::ChannelOpenAck(m) => open_ack(store, verifier, m),
        ChannelMsg::ChannelOpenConfirm(m) => open_confirm(store, verifier, m),
        ChannelMsg::ChannelCloseInit(m) => close_init(store, m),
        ChannelMsg::ChannelCloseConfirm(m) => close_confirm(store, verifier, m),
    }
}

} // verus!
