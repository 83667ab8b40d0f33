//! The light-client state machine: creation, update, freezing on misbehaviour, upgrade.

use crate::error::Error;
use crate::evidence::{Claim, ClaimView, ProofVerifier};
use crate::output::{Event, HandlerOutput, OutputView};
use crate::store::{ClientResult, ClientResultView, Store, StoreView};
use crate::types::{copy_bytes, ClientId, ClientType, Height, Signer};
use vstd::prelude::*;
use vstd::slice::slice_to_vec;

verus! {

/// Whether a client still accepts headers.
#[derive(Clone, Copy, Debug, PartialEq, Eq, Structural)]
pub enum ClientStatus {
    Active,
    Frozen,
}

/// What the core keeps of a counterparty's state at one height.
#[derive(Clone, Copy, Debug, PartialEq, Eq, Structural)]
pub struct ConsensusSnapshot {
    pub timestamp: u64,
    pub root: u64,
}

/// A consensus snapshot with the height it was taken at.
#[derive(Clone, Copy, Debug, PartialEq, Eq, Structural)]
pub struct ConsensusEntry {
    pub height: Height,
    pub snapshot: ConsensusSnapshot,
}

/// The snapshot that `entries` holds for `height`: the one added last, if there is any.
pub open spec fn snapshot_in(entries: Seq<ConsensusEntry>, height: Height) -> Option<
    ConsensusSnapshot,
>
    decreases entries.len(),
{
    if entries.len() == 0 {
        None
    } else if entries.last().height == height {
        Some(entries.last().snapshot)
    } else {
        snapshot_in(entries.drop_last(), height)
    }
}

/// The local representation of a counterparty ledger.
#[derive(Debug)]
pub struct ClientRecord {
    pub client_type: ClientType,
    pub status: ClientStatus,
    pub latest_height: Height,
    pub consensus: Vec<ConsensusEntry>,
}

/// The mathematical content of a [`ClientRecord`].
pub struct ClientRecordView {
    pub client_type: ClientType,
    pub status: ClientStatus,
    pub latest_height: Height,
    pub consensus: Seq<ConsensusEntry>,
}

impl View for ClientRecord {
    type V = ClientRecordView;

    open spec fn view(&self) -> ClientRecordView {
        ClientRecordView {
            client_type: self.client_type,
            status: self.status,
            latest_height: self.latest_height,
            consensus: self.consensus@,
        }
    }
}

impl ClientRecordView {
    /// The snapshot verified at `height`, if there is one.
    pub open spec fn snapshot_at(self, height: Height) -> Option<ConsensusSnapshot> {
        snapshot_in(self.consensus, height)
    }

    /// The record of a client that was just created from a first verified state.
    pub open spec fn created(
        client_type: ClientType,
        height: Height,
        snapshot: ConsensusSnapshot,
    ) -> ClientRecordView {
        ClientRecordView {
            client_type,
            status: ClientStatus::Active,
            latest_height: height,
            consensus: seq![ConsensusEntry { height, snapshot }],
        }
    }

    /// The record after a further state was verified at `height`.
    pub open spec fn advanced(self, height: Height, snapshot: ConsensusSnapshot) -> ClientRecordView {
        ClientRecordView {
            latest_height: height,
            consensus: self.consensus.push(ConsensusEntry { height, snapshot }),
            ..self
        }
    }

    /// The record after misbehaviour was shown.
    pub open spec fn frozen(self) -> ClientRecordView {
        ClientRecordView { status: ClientStatus::Frozen, ..self }
    }
}

impl ClientRecord {
    /// The snapshot verified at `height`, if there is one.
    pub fn snapshot_at(&self, height: Height) -> (found: Option<ConsensusSnapshot>)
        ensures
            found == self@.snapshot_at(height),
    {
        let mut i: usize = self.consensus.len();
        assert(self.consensus@.subrange(0, i as int) == self.consensus@);
        while i > 0
            invariant
                i <= self.consensus.len(),
                snapshot_in(self.consensus@, height) == snapshot_in(
                    self.consensus@.subrange(0, i as int),
                    height,
                ),
            decreases i,
        {
            let ghost prefix = self.consensus@.subrange(0, i as int);
            assert(prefix.drop_last() == self.consensus@.subrange(0, i - 1));
            assert(prefix.last() == self.consensus@[i - 1]);
            i -= 1;
            let entry = self.consensus[i];
            if entry.height == height {
                return Some(entry.snapshot);
            }
        }
        None
    }

    pub fn is_frozen(&self) -> (r: bool)
        ensures
            r == (self@.status == ClientStatus::Frozen),
    {
        self.status == ClientStatus::Frozen
    }
}

impl Clone for ClientRecord {
    fn clone(&self) -> (r: ClientRecord)
        ensures
            r@ == self@,
    {
        ClientRecord {
            client_type: self.client_type,
            status: self.status,
            latest_height: self.latest_height,
            consensus: slice_to_vec(self.consensus.as_slice()),
        }
    }
}

/// A counterparty block header, reduced to what the core reads, with the evidence for it.
#[derive(Debug)]
pub struct Header {
    pub height: Height,
    pub snapshot: ConsensusSnapshot,
    pub evidence: Vec<u8>,
}

/// The mathematical content of a [`Header`].
pub struct HeaderView {
    pub height: Height,
    pub snapshot: ConsensusSnapshot,
    pub evidence: Seq<u8>,
}

impl View for Header {
    type V = HeaderView;

    open spec fn view(&self) -> HeaderView {
        HeaderView { height: self.height, snapshot: self.snapshot, evidence: self.evidence@ }
    }
}

impl Clone for Header {
    fn clone(&self) -> (h: Header)
        ensures
            h@ == self@,
    {
        Header { height: self.height, snapshot: self.snapshot, evidence: copy_bytes(&self.evidence) }
    }
}

/// What an update message carries: a new header, or two headers that contradict each other.
#[derive(Debug)]
pub enum ClientMessage {
    Header(Header),
    Misbehaviour(Header, Header),
}

/// Asks for a new client.
#[derive(Debug)]
pub struct MsgCreateClient {
    pub client_type: ClientType,
    pub height: Height,
    pub snapshot: ConsensusSnapshot,
    pub signer: Signer,
}

/// Asks to advance a client to a new header, or to freeze it on misbehaviour.
#[derive(Debug)]
pub struct MsgUpdateClient {
    pub client_id: ClientId,
    pub client_message: ClientMessage,
    pub signer: Signer,
}

/// Asks to move a client to the state that the counterparty committed to for after its upgrade.
#[derive(Debug)]
pub struct MsgUpgradeClient {
    pub client_id: ClientId,
    pub height: Height,
    pub snapshot: ConsensusSnapshot,
    pub proof_upgrade_client: Vec<u8>,
    pub proof_upgrade_consensus_state: Vec<u8>,
    pub signer: Signer,
}

/// A message of the client state machine.
#[derive(Debug)]
pub enum ClientMsg {
    CreateClient(MsgCreateClient),
    UpdateClient(MsgUpdateClient),
    UpgradeClient(MsgUpgradeClient),
}

/// What a client message comes to: the record to store and what to report.
pub struct ClientOutcome {
    pub result: ClientResultView,
    pub output: OutputView,
}

/// Two headers show misbehaviour when both are valid for the client, speak of the same
/// height and disagree on the state there.
pub open spec fn shows_misbehaviour<V: ProofVerifier>(
    verifier: &V,
    client_id: ClientId,
    trusted: Height,
    first: HeaderView,
    second: HeaderView,
) -> bool {
    &&& first.height == second.height
    &&& first.snapshot != second.snapshot
    &&& verifier.accepts_header(client_id, trusted, first)
    &&& verifier.accepts_header(client_id, trusted, second)
}

/// The outcome of creating a client under `client_id`.
pub open spec fn create_outcome(client_id: ClientId, msg: &MsgCreateClient) -> ClientOutcome {
    ClientOutcome {
        result: ClientResultView {
            client_id,
            record: ClientRecordView::created(msg.client_type, msg.height, msg.snapshot),
        },
        output: OutputView::single(
            Event::CreateClient { client_id, client_type: msg.client_type, height: msg.height },
            "client created"@,
        ),
    }
}

/// The outcome of an update message for the client `record`.
///
/// A frozen client rejects every update. A header must be accepted by the verifier and lie
/// strictly above the latest verified height. Misbehaviour that is shown freezes the client;
/// misbehaviour that is not shown is an invalid header.
pub open spec fn update_outcome<V: ProofVerifier>(
    verifier: &V,
    record: ClientRecordView,
    msg: &MsgUpdateClient,
) -> Result<ClientOutcome, Error> {
    let client_id = msg.client_id;
    if record.status == ClientStatus::Frozen {
        Err(Error::ClientFrozen)
    } else {
        match msg.client_message {
            ClientMessage::Header(header) => {
                if !record.latest_height.before(header.height) || !verifier.accepts_header(
                    client_id,
                    record.latest_height,
                    header@,
                ) {
                    Err(Error::InvalidHeader)
                } else {
                    Ok(
                        ClientOutcome {
                            result: ClientResultView {
                                client_id,
                                record: record.advanced(header.height, header.snapshot),
                            },
                            output: OutputView::single(
                                Event::UpdateClient { client_id, height: header.height },
                                "client updated"@,
                            ),
                        },
                    )
                }
            },
            ClientMessage::Misbehaviour(first, second) => {
                if !shows_misbehaviour(verifier, client_id, record.latest_height, first@, second@) {
                    Err(Error::InvalidHeader)
                } else {
                    Ok(
                        ClientOutcome {
                            result: ClientResultView { client_id, record: record.frozen() },
                            output: OutputView::single(
                                Event::ClientMisbehaviour { client_id },
                                "client frozen on misbehaviour"@,
                            ),
                        },
                    )
                }
            },
        }
    }
}

/// The outcome of an upgrade message for the client `record`.
///
/// A frozen client is not upgraded. The new height must lie strictly above the latest
/// verified height, and the verifier must accept, at that latest height, the two proofs
/// that the counterparty committed to the new state: one for the client state, one for
/// the consensus state.
pub open spec fn upgrade_outcome<V: ProofVerifier>(
    verifier: &V,
    record: ClientRecordView,
    msg: &MsgUpgradeClient,
) -> Result<ClientOutcome, Error> {
    let client_id = msg.client_id;
    if record.status == ClientStatus::Frozen {
        Err(Error::ClientFrozen)
    } else if !record.latest_height.before(msg.height) {
        Err(Error::InvalidHeader)
    } else if !verifier.accepts(
        client_id,
        record.latest_height,
        msg.proof_upgrade_client@,
        ClaimView::UpgradedClient { height: msg.height },
    ) || !verifier.accepts(
        client_id,
        record.latest_height,
        msg.proof_upgrade_consensus_state@,
        ClaimView::UpgradedConsensus { height: msg.height, snapshot: msg.snapshot },
    ) {
        Err(Error::ProofVerificationFailed)
    } else {
        Ok(
            ClientOutcome {
                result: ClientResultView {
                    client_id,
                    record: record.advanced(msg.height, msg.snapshot),
                },
                output: OutputView::single(
                    Event::UpgradeClient { client_id, height: msg.height },
                    "client upgraded"@,
                ),
            },
        )
    }
}

/// The outcome of a client message against `store`.
///
/// A new client gets the next free identifier. An update or an upgrade of a client that
/// the store does not hold is an invalid header.
pub open spec fn client_outcome<V: ProofVerifier>(
    store: StoreView,
    verifier: &V,
    msg: &ClientMsg,
) -> Result<ClientOutcome, Error> {
    match msg {
        ClientMsg::CreateClient(m) => Ok(create_outcome(store.next_client_id(m.client_type), m)),
        ClientMsg::UpdateClient(m) => match store.client(m.client_id) {
            None => Err(Error::InvalidHeader),
            Some(record) => update_outcome(verifier, record, m),
        },
        ClientMsg::UpgradeClient(m) => match store.client(m.client_id) {
            None => Err(Error::InvalidHeader),
            Some(record) => upgrade_outcome(verifier, record, m),
        },
    }
}

/// Whether a handler's answer is the outcome that the model gives.
pub open spec fn client_answer(
    answer: Result<(ClientResult, HandlerOutput), Error>,
    outcome: Result<ClientOutcome, Error>,
) -> bool {
    match answer {
        Ok((result, output)) => outcome == Ok::<ClientOutcome, Error>(
            ClientOutcome { result: result@, output: output@ },
        ),
        Err(e) => outcome == Err::<ClientOutcome, Error>(e),
    }
}

/// Creates a client under `client_id`.
pub fn create(client_id: ClientId, msg: &MsgCreateClient) -> (answer: (ClientResult, HandlerOutput))
    ensures
        create_outcome(client_id, msg) == (ClientOutcome {
            result: answer.0@,
            output: answer.1@,
        }),
{
    let mut consensus: Vec<ConsensusEntry> = Vec::new();
    consensus.push(ConsensusEntry { height: msg.height, snapshot: msg.snapshot });
    let record = ClientRecord {
        client_type: msg.client_type,
        status: ClientStatus::Active,
        latest_height: msg.height,
        consensus,
    };
    assert(record@.consensus =~= seq![ConsensusEntry { height: msg.height, snapshot: msg.snapshot }]);
    let output = HandlerOutput::single(
        Event::CreateClient { client_id, client_type: msg.client_type, height: msg.height },
        "client created",
    );
    (ClientResult { client_id, record }, output)
}

/// The record of `record` after a further state was verified at `height`.
fn advance(record: &ClientRecord, height: Height, snapshot: ConsensusSnapshot) -> (next:
    ClientRecord)
    ensures
        next@ == record@.advanced(height, snapshot),
{
    let mut next = record.clone();
    next.latest_height = height;
    next.consensus.push(ConsensusEntry { height, snapshot });
    next
}

/// Applies an update message to the client `record`.
pub fn update<V: ProofVerifier>(verifier: &V, record: &ClientRecord, msg: &MsgUpdateClient) -> (answer:
    Result<(ClientResult, HandlerOutput), Error>)
    ensures
        client_answer(answer, update_outcome(verifier, record@, msg)),
{
    let client_id = msg.client_id;
    if record.is_frozen() {
        return Err(Error::ClientFrozen);
    }
    match &msg.client_message {
        ClientMessage::Header(header) => {
            if !record.latest_height.lt(&header.height) || !verifier.verify_header(
                client_id,
                record.latest_height,
                header,
            ) {
                return Err(Error::InvalidHeader);
            }
            let next = advance(record, header.height, header.snapshot);
            let output = HandlerOutput::single(
                Event::UpdateClient { client_id, height: header.height },
                "client updated",
            );
            Ok((ClientResult { client_id, record: next }, output))
        },
        ClientMessage::Misbehaviour(first, second) => {
            let shown = first.height == second.height && first.snapshot != second.snapshot
                && verifier.verify_header(client_id, record.latest_height, first)
                && verifier.verify_header(client_id, record.latest_height, second);
            if !shown {
                return Err(Error::InvalidHeader);
            }
            let mut next = record.clone();
            next.status = ClientStatus::Frozen;
            let output = HandlerOutput::single(
                Event::ClientMisbehaviour { client_id },
                "client frozen on misbehaviour",
            );
            Ok((ClientResult { client_id, record: next }, output))
        },
    }
}

/// Applies an upgrade message to the client `record`.
pub fn upgrade<V: ProofVerifier>(verifier: &V, record: &ClientRecord, msg: &MsgUpgradeClient) -> (answer:
    Result<(ClientResult, HandlerOutput), Error>)
    ensures
        client_answer(answer, upgrade_outcome(verifier, record@, msg)),
{
    let client_id = msg.client_id;
    if record.is_frozen() {
        return Err(Error::ClientFrozen);
    }
    if !record.latest_height.lt(&msg.height) {
        return Err(Error::InvalidHeader);
    }
    let client_claim = Claim::UpgradedClient { height: msg.height };
    if !verifier.verify(client_id, record.latest_height, &msg.proof_upgrade_client, &client_claim) {
        return Err(Error::ProofVerificationFailed);
    }
    let consensus_claim = Claim::UpgradedConsensus { height: msg.height, snapshot: msg.snapshot };
    if !verifier.verify(
        client_id,
        record.latest_height,
        &msg.proof_upgrade_consensus_state,
        &consensus_claim,
    ) {
        return Err(Error::ProofVerificationFailed);
    }
    let next = advance(record, msg.height, msg.snapshot);
    let output = HandlerOutput::single(
        Event::UpgradeClient { client_id, height: msg.height },
        "client upgraded",
    );
    Ok((ClientResult { client_id, record: next }, output))
}

/// Handles a client message against `store`, without changing the store.
pub fn dispatch<V: ProofVerifier>(store: &Store, verifier: &V, msg: &ClientMsg) -> (answer: Result<
    (ClientResult, HandlerOutput),
    Error,
>)
    ensures
        client_answer(answer, client_outcome(store@, verifier, msg)),
{
    match msg {
        ClientMsg::CreateClient(m) => Ok(create(store.next_client_id(m.client_type), m)),
        ClientMsg::UpdateClient(m) => match store.client(m.client_id) {
            None => Err(Error::InvalidHeader),
            Some(record) => update(verifier, record, m),
        },
        ClientMsg::UpgradeClient(m) => match store.client(m.client_id) {
            None => Err(Error::InvalidHeader),
            Some(record) => upgrade(verifier, record, m),
        },
    }
}

} // verus!
