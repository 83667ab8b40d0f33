//! The connection handshake: four steps that pair two light clients.

use crate::client::ClientStatus;
use crate::error::Error;
use crate::evidence::{check_proof, proof_check, Claim, ClaimView, ProofVerifier};
use crate::output::{texts, Event, HandlerOutput, OutputView};
use crate::store::{ConnectionResult, ConnectionResultView, Store, StoreView};
use crate::text::{decimal_in, parse_decimal};
use crate::types::{ClientId, ConnectionId, Height, Signer};
use vstd::prelude::*;
use vstd::slice::slice_to_vec;

verus! {

/// How far the handshake of a connection has come.
#[derive(Clone, Copy, Debug, PartialEq, Eq, Structural)]
pub enum ConnectionState {
    Init,
    TryOpen,
    Open,
}

/// A connection version: an identifier and the channel orderings it allows.
#[derive(Clone, Copy, Debug, PartialEq, Eq, Structural)]
pub struct Version {
    pub identifier: u32,
    pub ordered: bool,
    pub unordered: bool,
}

/// A verified pairing between a local client and a client on the counterparty.
#[derive(Debug)]
pub struct ConnectionRecord {
    pub state: ConnectionState,
    pub client_id: ClientId,
    pub counterparty_client_id: ClientId,
    pub counterparty_connection_id: Option<ConnectionId>,
    pub versions: Vec<Version>,
}

/// The mathematical content of a [`ConnectionRecord`].
pub struct ConnectionRecordView {
    pub state: ConnectionState,
    pub client_id: ClientId,
    pub counterparty_client_id: ClientId,
    pub counterparty_connection_id: Option<ConnectionId>,
    pub versions: Seq<Version>,
}

impl View for ConnectionRecord {
    type V = ConnectionRecordView;

    open spec fn view(&self) -> ConnectionRecordView {
        ConnectionRecordView {
            state: self.state,
            client_id: self.client_id,
            counterparty_client_id: self.counterparty_client_id,
            counterparty_connection_id: self.counterparty_connection_id,
            versions: self.versions@,
        }
    }
}

impl Clone for ConnectionRecord {
    fn clone(&self) -> (r: ConnectionRecord)
        ensures
            r@ == self@,
    {
        ConnectionRecord {
            state: self.state,
            client_id: self.client_id,
            counterparty_client_id: self.counterparty_client_id,
            counterparty_connection_id: self.counterparty_connection_id,
            versions: slice_to_vec(self.versions.as_slice()),
        }
    }
}

impl Version {
    /// What two versions have in common: the same identifier and the orderings that both
    /// allow, if they share the identifier and at least one ordering.
    pub open spec fn meet(self, other: Version) -> Option<Version> {
        if self.identifier == other.identifier && ((self.ordered && other.ordered) || (
        self.unordered && other.unordered)) {
            Some(
                Version {
                    identifier: self.identifier,
                    ordered: self.ordered && other.ordered,
                    unordered: self.unordered && other.unordered,
                },
            )
        } else {
            None
        }
    }

    /// What `self` has in common with the first version of `theirs` that it has anything
    /// in common with.
    pub open spec fn meet_any(self, theirs: Seq<Version>) -> Option<Version>
        decreases theirs.len(),
    {
        if theirs.len() == 0 {
            None
        } else if self.meet(theirs.first()).is_some() {
            self.meet(theirs.first())
        } else {
            self.meet_any(theirs.drop_first())
        }
    }

    /// Computes [`Version::meet`].
    pub fn common_with(&self, other: &Version) -> (common: Option<Version>)
        ensures
            common == self.meet(*other),
    {
        if self.identifier == other.identifier && ((self.ordered && other.ordered) || (
        self.unordered && other.unordered)) {
            Some(
                Version {
                    identifier: self.identifier,
                    ordered: self.ordered && other.ordered,
                    unordered: self.unordered && other.unordered,
                },
            )
        } else {
            None
        }
    }

    /// Computes [`Version::meet_any`].
    pub fn common_with_any(&self, theirs: &Vec<Version>) -> (common: Option<Version>)
        ensures
            common == self.meet_any(theirs@),
    {
        let mut i: usize = 0;
        assert(theirs@.subrange(0, theirs.len() as int) == theirs@);
        while i < theirs.len()
            invariant
                i <= theirs.len(),
                self.meet_any(theirs@) == self.meet_any(
                    theirs@.subrange(i as int, theirs.len() as int),
                ),
            decreases theirs.len() - i,
        {
            let ghost rest = theirs@.subrange(i as int, theirs.len() as int);
            assert(rest.first() == theirs@[i as int]);
            assert(rest.drop_first() == theirs@.subrange(i + 1, theirs.len() as int));
            let common = self.common_with(&theirs[i]);
            if common.is_some() {
                return common;
            }
            i += 1;
        }
        None
    }
}

/// The version that an identifier and a list of features stand for on the wire: the
/// identifier must write a number within 32 bits, and the two orderings are allowed
/// where the features name them.
pub open spec fn wire_version(identifier: Seq<char>, features: Seq<Seq<char>>) -> Option<Version> {
    match decimal_in(identifier) {
        Some(n) => if n <= u32::MAX {
            Some(
                Version {
                    identifier: n as u32,
                    ordered: features.contains("ORDER_ORDERED"@),
                    unordered: features.contains("ORDER_UNORDERED"@),
                },
            )
        } else {
            None
        },
        None => None,
    }
}

/// Whether `wanted` is among `features`.
fn has_feature(features: &Vec<String>, wanted: &str) -> (r: bool)
    ensures
        r == texts(features@).contains(wanted@),
{
    let wanted_text = wanted.to_owned();
    let mut i: usize = 0;
    while i < features.len()
        invariant
            i <= features.len(),
            wanted_text@ == wanted@,
            forall|j: int| 0 <= j < i ==> texts(features@)[j] != wanted@,
        decreases features.len() - i,
    {
        if features[i] == wanted_text {
            assert(texts(features@)[i as int] == wanted@);
            return true;
        }
        i += 1;
    }
    false
}

impl Version {
    /// Reads a version as it stands on the wire.
    pub fn from_wire(identifier: &str, features: &Vec<String>) -> (version: Option<Version>)
        ensures
            version == wire_version(identifier@, texts(features@)),
    {
        match parse_decimal(identifier) {
            Some(n) => if n <= u32::MAX as u128 {
                Some(
                    Version {
                        identifier: n as u32,
                        ordered: has_feature(features, "ORDER_ORDERED"),
                        unordered: has_feature(features, "ORDER_UNORDERED"),
                    },
                )
            } else {
                None
            },
            None => None,
        }
    }
}

/// The versions that this core supports, in order of preference.
pub open spec fn supported() -> Seq<Version> {
    seq![Version { identifier: 1, ordered: true, unordered: true }]
}

/// The versions that this core supports, in order of preference.
pub fn supported_versions() -> (versions: Vec<Version>)
    ensures
        versions@ == supported(),
{
    let mut versions: Vec<Version> = Vec::new();
    versions.push(Version { identifier: 1, ordered: true, unordered: true });
    versions
}

/// The intersection of two version lists: for each of `ours`, in order, what it has in
/// common with `theirs`.
pub open spec fn common_versions(ours: Seq<Version>, theirs: Seq<Version>) -> Seq<Version>
    decreases ours.len(),
{
    if ours.len() == 0 {
        Seq::empty()
    } else {
        let earlier = common_versions(ours.drop_last(), theirs);
        match ours.last().meet_any(theirs) {
            Some(v) => earlier.push(v),
            None => earlier,
        }
    }
}

/// Computes [`common_versions`].
pub fn intersect_versions(ours: &Vec<Version>, theirs: &Vec<Version>) -> (common: Vec<Version>)
    ensures
        common@ == common_versions(ours@, theirs@),
{
    let mut common: Vec<Version> = Vec::new();
    let mut i: usize = 0;
    while i < ours.len()
        invariant
            i <= ours.len(),
            common@ == common_versions(ours@.subrange(0, i as int), theirs@),
        decreases ours.len() - i,
    {
        let ghost next = ours@.subrange(0, i + 1);
        assert(next.drop_last() == ours@.subrange(0, i as int));
        assert(next.last() == ours@[i as int]);
        match ours[i].common_with_any(theirs) {
            Some(v) => {
                common.push(v);
            },
            None => {},
        }
        i += 1;
    }
    assert(ours@.subrange(0, ours.len() as int) == ours@);
    common
}

/// Starts a handshake on the local side.
#[derive(Debug)]
pub struct MsgConnectionOpenInit {
    pub client_id: ClientId,
    pub counterparty_client_id: ClientId,
    /// The version to propose; without one, every supported version is proposed.
    pub version: Option<Version>,
    pub signer: Signer,
}

/// Answers a handshake that the counterparty started.
#[derive(Debug)]
pub struct MsgConnectionOpenTry {
    pub client_id: ClientId,
    pub counterparty_client_id: ClientId,
    pub counterparty_connection_id: ConnectionId,
    pub counterparty_versions: Vec<Version>,
    pub proof_init: Vec<u8>,
    pub proof_height: Height,
    pub consensus_height: Height,
    pub signer: Signer,
}

/// Tells the side that started the handshake that the counterparty answered.
#[derive(Debug)]
pub struct MsgConnectionOpenAck {
    pub connection_id: ConnectionId,
    pub counterparty_connection_id: ConnectionId,
    pub version: Version,
    pub proof_try: Vec<u8>,
    pub proof_height: Height,
    pub consensus_height: Height,
    pub signer: Signer,
}

/// Tells the side that answered that the handshake is complete.
#[derive(Debug)]
pub struct MsgConnectionOpenConfirm {
    pub connection_id: ConnectionId,
    pub proof_ack: Vec<u8>,
    pub proof_height: Height,
    pub signer: Signer,
}

/// A message of the connection handshake.
#[derive(Debug)]
pub enum ConnectionMsg {
    ConnectionOpenInit(MsgConnectionOpenInit),
    ConnectionOpenTry(MsgConnectionOpenTry),
    ConnectionOpenAck(MsgConnectionOpenAck),
    ConnectionOpenConfirm(MsgConnectionOpenConfirm),
}

/// What a connection message comes to: the record to store and what to report.
pub struct ConnectionOutcome {
    pub result: ConnectionResultView,
    pub output: OutputView,
}

/// Whether a handler's answer is the outcome that the model gives.
pub open spec fn connection_answer(
    answer: Result<(ConnectionResult, HandlerOutput), Error>,
    outcome: Result<ConnectionOutcome, Error>,
) -> bool {
    match answer {
        Ok((result, output)) => outcome == Ok::<ConnectionOutcome, Error>(
            ConnectionOutcome { result: result@, output: output@ },
        ),
        Err(e) => outcome == Err::<ConnectionOutcome, Error>(e),
    }
}

/// The versions that an opening message proposes.
pub open spec fn proposed_versions(msg: &MsgConnectionOpenInit) -> Seq<Version> {
    match msg.version {
        Some(v) => seq![v],
        None => supported(),
    }
}

/// The outcome of `ConnectionOpenInit`.
///
/// The named client must exist (else `InvalidConsensusHeight`: no height of it is verified)
/// and must not be frozen. The proposed versions are narrowed to those supported; if none
/// is left the step fails with `NoCommonVersion`. The connection is created in `Init` under
/// the next free identifier.
pub open spec fn open_init_outcome(store: StoreView, msg: &MsgConnectionOpenInit) -> Result<
    ConnectionOutcome,
    Error,
> {
    match store.client(msg.client_id) {
        None => Err(Error::InvalidConsensusHeight),
        Some(client) => {
            let versions = common_versions(proposed_versions(msg), supported());
            let connection_id = store.next_connection_id();
            if client.status == ClientStatus::Frozen {
                Err(Error::ClientFrozen)
            } else if versions.len() == 0 {
                Err(Error::NoCommonVersion)
            } else {
                Ok(
                    ConnectionOutcome {
                        result: ConnectionResultView {
                            connection_id,
                            record: ConnectionRecordView {
                                state: ConnectionState::Init,
                                client_id: msg.client_id,
                                counterparty_client_id: msg.counterparty_client_id,
                                counterparty_connection_id: None,
                                versions,
                            },
                        },
                        output: OutputView::single(
                            Event::OpenInitConnection { connection_id, client_id: msg.client_id },
                            "connection handshake started"@,
                        ),
                    },
                )
            }
        },
    }
}

/// What `ConnectionOpenTry` asks the verifier: that the counterparty stores the
/// connection in `Init`, between its client and the local one.
pub open spec fn open_try_claim(msg: &MsgConnectionOpenTry) -> ClaimView {
    ClaimView::Connection {
        connection_id: msg.counterparty_connection_id,
        state: ConnectionState::Init,
        client_id: msg.counterparty_client_id,
        counterparty_client_id: msg.client_id,
        counterparty_connection_id: None,
    }
}

/// The outcome of `ConnectionOpenTry`.
///
/// The named client must exist; a claimed consensus height above its latest verified height
/// fails with `InvalidConsensusHeight`, before anything else is looked at. The
/// counterparty's versions are narrowed to those supported (`NoCommonVersion` if none is
/// left). Then the proof of the counterparty's `Init` is held against the client. The
/// connection is created in `TryOpen` under the next free identifier.
pub open spec fn open_try_outcome<V: ProofVerifier>(
    store: StoreView,
    verifier: &V,
    msg: &MsgConnectionOpenTry,
) -> Result<ConnectionOutcome, Error> {
    match store.client(msg.client_id) {
        None => Err(Error::InvalidConsensusHeight),
        Some(client) => {
            let versions = common_versions(supported(), msg.counterparty_versions@);
            let connection_id = store.next_connection_id();
            let checked = proof_check(
                store,
                verifier,
                msg.client_id,
                msg.proof_height,
                msg.proof_init@,
                open_try_claim(msg),
            );
            if client.latest_height.before(msg.consensus_height) {
                Err(Error::InvalidConsensusHeight)
            } else if versions.len() == 0 {
                Err(Error::NoCommonVersion)
            } else if checked is Err {
                Err(checked->Err_0)
            } else {
                Ok(
                    ConnectionOutcome {
                        result: ConnectionResultView {
                            connection_id,
                            record: ConnectionRecordView {
                                state: ConnectionState::TryOpen,
                                client_id: msg.client_id,
                                counterparty_client_id: msg.counterparty_client_id,
                                counterparty_connection_id: Some(msg.counterparty_connection_id),
                                versions,
                            },
                        },
                        output: OutputView::single(
                            Event::OpenTryConnection { connection_id, client_id: msg.client_id },
                            "connection handshake answered"@,
                        ),
                    },
                )
            }
        },
    }
}

/// What `ConnectionOpenAck` asks the verifier: that the counterparty stores its
/// connection in `TryOpen`, pointing back at the local one.
pub open spec fn open_ack_claim(record: ConnectionRecordView, msg: &MsgConnectionOpenAck) -> ClaimView {
    ClaimView::Connection {
        connection_id: msg.counterparty_connection_id,
        state: ConnectionState::TryOpen,
        client_id: record.counterparty_client_id,
        counterparty_client_id: record.client_id,
        counterparty_connection_id: Some(msg.connection_id),
    }
}

/// The outcome of `ConnectionOpenAck`.
///
/// The connection must exist and be in `Init` (else `ConnectionNotOpen`). Its client must
/// exist (else `InvalidConsensusHeight`: a client that the store does not hold has
/// verified no height), and the claimed consensus height must not lie above the client's
/// latest verified height (else `InvalidConsensusHeight` as well). The recorded versions are narrowed to the one that the counterparty chose
/// (`NoCommonVersion` if nothing is left). Then the proof of the counterparty's `TryOpen`
/// is held against the client. The connection becomes `Open`.
pub open spec fn open_ack_outcome<V: ProofVerifier>(
    store: StoreView,
    verifier: &V,
    msg: &MsgConnectionOpenAck,
) -> Result<ConnectionOutcome, Error> {
    match store.connection(msg.connection_id) {
        None => Err(Error::ConnectionNotOpen),
        Some(record) => {
            let versions = common_versions(record.versions, seq![msg.version]);
            let checked = proof_check(
                store,
                verifier,
                record.client_id,
                msg.proof_height,
                msg.proof_try@,
                open_ack_claim(record, msg),
            );
            if record.state != ConnectionState::Init {
                Err(Error::ConnectionNotOpen)
            } else {
                match store.client(record.client_id) {
                    None => Err(Error::InvalidConsensusHeight),
                    Some(client) => {
                        if client.latest_height.before(msg.consensus_height) {
                            Err(Error::InvalidConsensusHeight)
                        } else if versions.len() == 0 {
                            Err(Error::NoCommonVersion)
                        } else if checked is Err {
                            Err(checked->Err_0)
                        } else {
                            Ok(
                                ConnectionOutcome {
                                    result: ConnectionResultView {
                                        connection_id: msg.connection_id,
                                        record: ConnectionRecordView {
                                            state: ConnectionState::Open,
                                            counterparty_connection_id: Some(
                                                msg.counterparty_connection_id,
                                            ),
                                            versions,
                                            ..record
                                        },
                                    },
                                    output: OutputView::single(
                                        Event::OpenAckConnection {
                                            connection_id: msg.connection_id,
                                        },
                                        "connection open on the starting side"@,
                                    ),
                                },
                            )
                        }
                    },
                }
            }
        },
    }
}

/// What `ConnectionOpenConfirm` asks the verifier: that the counterparty stores its
/// connection as `Open`, pointing back at the local one.
pub open spec fn open_confirm_claim(
    record: ConnectionRecordView,
    counterparty_connection_id: ConnectionId,
    msg: &MsgConnectionOpenConfirm,
) -> ClaimView {
    ClaimView::Connection {
        connection_id: counterparty_connection_id,
        state: ConnectionState::Open,
        client_id: record.counterparty_client_id,
        counterparty_client_id: record.client_id,
        counterparty_connection_id: Some(msg.connection_id),
    }
}

/// The outcome of `ConnectionOpenConfirm`.
///
/// The connection must exist, be in `TryOpen` and name the counterparty's connection (else
/// `ConnectionNotOpen`). Then the proof that the counterparty is `Open` is held against
/// the client. The connection becomes `Open`.
pub open spec fn open_confirm_outcome<V: ProofVerifier>(
    store: StoreView,
    verifier: &V,
    msg: &MsgConnectionOpenConfirm,
) -> Result<ConnectionOutcome, Error> {
    match store.connection(msg.connection_id) {
        None => Err(Error::ConnectionNotOpen),
        Some(record) => {
            if record.state != ConnectionState::TryOpen || record.counterparty_connection_id.is_none() {
                Err(Error::ConnectionNotOpen)
            } else {
                let checked = proof_check(
                    store,
                    verifier,
                    record.client_id,
                    msg.proof_height,
                    msg.proof_ack@,
                    open_confirm_claim(record, record.counterparty_connection_id->0, msg),
                );
                if checked is Err {
                    Err(checked->Err_0)
                } else {
                    Ok(
                        ConnectionOutcome {
                            result: ConnectionResultView {
                                connection_id: msg.connection_id,
                                record: ConnectionRecordView {
                                    state: ConnectionState::Open,
                                    ..record
                                },
                            },
                            output: OutputView::single(
                                Event::OpenConfirmConnection { connection_id: msg.connection_id },
                                "connection open on the answering side"@,
                            ),
                        },
                    )
                }
            }
        },
    }
}

/// The outcome of a connection message against `store`.
pub open spec fn connection_outcome<V: ProofVerifier>(
    store: StoreView,
    verifier: &V,
    msg: &ConnectionMsg,
) -> Result<ConnectionOutcome, Error> {
    match msg {
        ConnectionMsg::ConnectionOpenInit(m) => open_init_outcome(store, m),
        ConnectionMsg::ConnectionOpenTry(m) => open_try_outcome(store, verifier, m),
        ConnectionMsg::ConnectionOpenAck(m) => open_ack_outcome(store, verifier, m),
        ConnectionMsg::ConnectionOpenConfirm(m) => open_confirm_outcome(store, verifier, m),
    }
}

/// Handles `ConnectionOpenInit`.
pub fn open_init(store: &Store, msg: &MsgConnectionOpenInit) -> (answer: Result<
    (ConnectionResult, HandlerOutput),
    Error,
>)
    ensures
        connection_answer(answer, open_init_outcome(store@, msg)),
{
    let client = match store.client(msg.client_id) {
        None => {
            return Err(Error::InvalidConsensusHeight);
        },
        Some(client) => client,
    };
    if client.is_frozen() {
        return Err(Error::ClientFrozen);
    }
    let ours = supported_versions();
    let proposed = match msg.version {
        Some(v) => {
            let mut one: Vec<Version> = Vec::new();
            one.push(v);
            assert(one@ =~= seq![v]);
            one
        },
        None => supported_versions(),
    };
    let versions = intersect_versions(&proposed, &ours);
    if versions.len() == 0 {
        return Err(Error::NoCommonVersion);
    }
    let connection_id = store.next_connection_id();
    let record = ConnectionRecord {
        state: ConnectionState::Init,
        client_id: msg.client_id,
        counterparty_client_id: msg.counterparty_client_id,
        counterparty_connection_id: None,
        versions,
    };
    let output = HandlerOutput::single(
        Event::OpenInitConnection { connection_id, client_id: msg.client_id },
        "connection handshake started",
    );
    Ok((ConnectionResult { connection_id, record }, output))
}

/// Handles `ConnectionOpenTry`.
pub fn open_try<V: ProofVerifier>(store: &Store, verifier: &V, msg: &MsgConnectionOpenTry) -> (answer:
    Result<(ConnectionResult, HandlerOutput), Error>)
    ensures
        connection_answer(answer, open_try_outcome(store@, verifier, msg)),
{
    let client = match store.client(msg.client_id) {
        None => {
            return Err(Error::InvalidConsensusHeight);
        },
        Some(client) => client,
    };
    if client.latest_height.lt(&msg.consensus_height) {
        return Err(Error::InvalidConsensusHeight);
    }
    let ours = supported_versions();
    let versions = intersect_versions(&ours, &msg.counterparty_versions);
    if versions.len() == 0 {
        return Err(Error::NoCommonVersion);
    }
    let claim = Claim::Connection {
        connection_id: msg.counterparty_connection_id,
        state: ConnectionState::Init,
        client_id: msg.counterparty_client_id,
        counterparty_client_id: msg.client_id,
        counterparty_connection_id: None,
    };
    match check_proof(store, verifier, msg.client_id, msg.proof_height, &msg.proof_init, &claim) {
        Err(e) => {
            return Err(e);
        },
        Ok(()) => {},
    }
    let connection_id = store.next_connection_id();
    let record = ConnectionRecord {
        state: ConnectionState::TryOpen,
        client_id: msg.client_id,
        counterparty_client_id: msg.counterparty_client_id,
        counterparty_connection_id: Some(msg.counterparty_connection_id),
        versions,
    };
    let output = HandlerOutput::single(
        Event::OpenTryConnection { connection_id, client_id: msg.client_id },
        "connection handshake answered",
    );
    Ok((ConnectionResult { connection_id, record }, output))
}

/// Handles `ConnectionOpenAck`.
pub fn open_ack<V: ProofVerifier>(store: &Store, verifier: &V, msg: &MsgConnectionOpenAck) -> (answer:
    Result<(ConnectionResult, HandlerOutput), Error>)
    ensures
        connection_answer(answer, open_ack_outcome(store@, verifier, msg)),
{
    let record = match store.connection(msg.connection_id) {
        None => {
            return Err(Error::ConnectionNotOpen);
        },
        Some(record) => record,
    };
    if record.state != ConnectionState::Init {
        return Err(Error::ConnectionNotOpen);
    }
    let client = match store.client(record.client_id) {
        None => {
            return Err(Error::InvalidConsensusHeight);
        },
        Some(client) => client,
    };
    if client.latest_height.lt(&msg.consensus_height) {
        return Err(Error::InvalidConsensusHeight);
    }
    let mut chosen: Vec<Version> = Vec::new();
    chosen.push(msg.version);
    assert(chosen@ =~= seq![msg.version]);
    let versions = intersect_versions(&record.versions, &chosen);
    if versions.len() == 0 {
        return Err(Error::NoCommonVersion);
    }
    let claim = Claim::Connection {
        connection_id: msg.counterparty_connection_id,
        state: ConnectionState::TryOpen,
        client_id: record.counterparty_client_id,
        counterparty_client_id: record.client_id,
        counterparty_connection_id: Some(msg.connection_id),
    };
    match check_proof(store, verifier, record.client_id, msg.proof_height, &msg.proof_try, &claim) {
        Err(e) => {
            return Err(e);
        },
        Ok(()) => {},
    }
    let next = ConnectionRecord {
        state: ConnectionState::Open,
        client_id: record.client_id,
        counterparty_client_id: record.counterparty_client_id,
        counterparty_connection_id: Some(msg.counterparty_connection_id),
        versions,
    };
    let output = HandlerOutput::single(
        Event::OpenAckConnection { connection_id: msg.connection_id },
        "connection open on the starting side",
    );
    Ok((ConnectionResult { connection_id: msg.connection_id, record: next }, output))
}

/// Handles `ConnectionOpenConfirm`.
pub fn open_confirm<V: ProofVerifier>(
    store: &Store,
    verifier: &V,
    msg: &MsgConnectionOpenConfirm,
) -> (answer: Result<(ConnectionResult, HandlerOutput), Error>)
    ensures
        connection_answer(answer, open_confirm_outcome(store@, verifier, msg)),
{
    let record = match store.connection(msg.connection_id) {
        None => {
            return Err(Error::ConnectionNotOpen);
        },
        Some(record) => record,
    };
    if record.state != ConnectionState::TryOpen {
        return Err(Error::ConnectionNotOpen);
    }
    let counterparty_connection_id = match record.counterparty_connection_id {
        None => {
            return Err(Error::ConnectionNotOpen);
        },
        Some(id) => id,
    };
    let claim = Claim::Connection {
        connection_id: counterparty_connection_id,
        state: ConnectionState::Open,
        client_id: record.counterparty_client_id,
        counterparty_client_id: record.client_id,
        counterparty_connection_id: Some(msg.connection_id),
    };
    match check_proof(store, verifier, record.client_id, msg.proof_height, &msg.proof_ack, &claim) {
        Err(e) => {
            return Err(e);
        },
        Ok(()) => {},
    }
    let mut next = record.clone();
    next.state = ConnectionState::Open;
    let output = HandlerOutput::single(
        Event::OpenConfirmConnection { connection_id: msg.connection_id },
        "connection open on the answering side",
    );
    Ok((ConnectionResult { connection_id: msg.connection_id, record: next }, output))
}

/// Handles a connection message against `store`, without changing the store.
pub fn dispatch<V: ProofVerifier>(store: &Store, verifier: &V, msg: &ConnectionMsg) -> (answer:
    Result<(ConnectionResult, HandlerOutput), Error>)
    ensures
        connection_answer(answer, connection_outcome(store@, verifier, msg)),
{
    match msg {
        ConnectionMsg::ConnectionOpenInit(m) => open_init(store, m),
        ConnectionMsg::ConnectionOpenTry(m) => open_try(store, verifier, m),
        ConnectionMsg::ConnectionOpenAck(m) => open_ack(store, verifier, m),
        ConnectionMsg::ConnectionOpenConfirm(m) => open_confirm(store, verifier, m),
    }
}

} // verus!
