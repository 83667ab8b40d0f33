//! Proof verification as an injected capability: the core states a claim about the
//! counterparty's state, and a verifier says whether a proof shows it.

use crate::channel::{ChannelRecord, ChannelRecordView};
use crate::client::{ClientStatus, ConsensusSnapshot, Header, HeaderView};
use crate::connection::ConnectionState;
use crate::error::Error;
use crate::packet::{Packet, PacketView};
use crate::store::{Store, StoreView};
use crate::types::{ChannelId, ClientId, ConnectionId, Height, PortId};
use vstd::prelude::*;

verus! {

/// A fact about the counterparty's state that a proof has to show.
#[derive(Debug)]
pub enum Claim {
    /// The counterparty committed to a client state at this height for after its upgrade.
    UpgradedClient { height: Height },
    /// The counterparty committed to this consensus state for after its upgrade.
    UpgradedConsensus { height: Height, snapshot: ConsensusSnapshot },
    /// The counterparty stores this connection, in this state, naming these clients.
    Connection {
        connection_id: ConnectionId,
        state: ConnectionState,
        client_id: ClientId,
        counterparty_client_id: ClientId,
        counterparty_connection_id: Option<ConnectionId>,
    },
    /// The counterparty stores this channel record under this identifier.
    Channel { channel_id: ChannelId, record: ChannelRecord },
    /// The counterparty committed to this packet.
    PacketCommitment { packet: Packet },
    /// The counterparty wrote this acknowledgement for this packet.
    Acknowledgement { packet: Packet, acknowledgement: Vec<u8> },
    /// The counterparty holds no receipt for this sequence on this channel.
    ReceiptAbsent { port_id: PortId, channel_id: ChannelId, sequence: u64 },
}

/// The mathematical content of a [`Claim`].
pub enum ClaimView {
    UpgradedClient { height: Height },
    UpgradedConsensus { height: Height, snapshot: ConsensusSnapshot },
    Connection {
        connection_id: ConnectionId,
        state: ConnectionState,
        client_id: ClientId,
        counterparty_client_id: ClientId,
        counterparty_connection_id: Option<ConnectionId>,
    },
    Channel { channel_id: ChannelId, record: ChannelRecordView },
    PacketCommitment { packet: PacketView },
    Acknowledgement { packet: PacketView, acknowledgement: Seq<u8> },
    ReceiptAbsent { port_id: Seq<char>, channel_id: ChannelId, sequence: u64 },
}

impl View for Claim {
    type V = ClaimView;

    open spec fn view(&self) -> ClaimView {
        match *self {
            Claim::UpgradedClient { height } => ClaimView::UpgradedClient { height },
            Claim::UpgradedConsensus { height, snapshot } => ClaimView::UpgradedConsensus {
                height,
                snapshot,
            },
            Claim::Connection {
                connection_id,
                state,
                client_id,
                counterparty_client_id,
                counterparty_connection_id,
            } => ClaimView::Connection {
                connection_id,
                state,
                client_id,
                counterparty_client_id,
                counterparty_connection_id,
            },
            Claim::Channel { channel_id, record } => ClaimView::Channel {
                channel_id,
                record: record@,
            },
            Claim::PacketCommitment { packet } => ClaimView::PacketCommitment { packet: packet@ },
            Claim::Acknowledgement { packet, acknowledgement } => ClaimView::Acknowledgement {
                packet: packet@,
                acknowledgement: acknowledgement@,
            },
            Claim::ReceiptAbsent { port_id, channel_id, sequence } => ClaimView::ReceiptAbsent {
                port_id: port_id@,
                channel_id,
                sequence,
            },
        }
    }
}

/// The capability to check evidence about a counterparty ledger.
///
/// A verifier is a function of its own state and its arguments: `accepts` and
/// `accepts_header` say what it answers, and the executable methods answer just that.
/// A verifier that fails internally answers `false`.
pub trait ProofVerifier {
    /// Whether `proof` shows `claim` for the state that the client `client_id` verified at
    /// `height`.
    spec fn accepts(
        &self,
        client_id: ClientId,
        height: Height,
        proof: Seq<u8>,
        claim: ClaimView,
    ) -> bool;

    /// Whether `header` is a valid successor for the client `client_id`, which trusts the
    /// counterparty up to `trusted`.
    spec fn accepts_header(&self, client_id: ClientId, trusted: Height, header: HeaderView) -> bool;

    fn verify(&self, client_id: ClientId, height: Height, proof: &Vec<u8>, claim: &Claim) -> (ok:
        bool)
        ensures
            ok == self.accepts(client_id, height, proof@, claim@),
    ;

    fn verify_header(&self, client_id: ClientId, trusted: Height, header: &Header) -> (ok: bool)
        ensures
            ok == self.accepts_header(client_id, trusted, header@),
    ;
}

impl StoreView {
    /// Whether the store is as `claim` says. A claim about an upgrade says nothing of
    /// the store and agrees with every store.
    pub open spec fn agrees_with(self, claim: ClaimView) -> bool {
        match claim {
            ClaimView::UpgradedClient { .. } => true,
            ClaimView::UpgradedConsensus { .. } => true,
            ClaimView::Connection {
                connection_id,
                state,
                client_id,
                counterparty_client_id,
                counterparty_connection_id,
            } => match self.connection(connection_id) {
                Some(record) => record.state == state && record.client_id == client_id
                    && record.counterparty_client_id == counterparty_client_id
                    && record.counterparty_connection_id == counterparty_connection_id,
                None => false,
            },
            ClaimView::Channel { channel_id, record } => match self.channel(
                record.port_id,
                channel_id,
            ) {
                Some(entry) => entry.end == record,
                None => false,
            },
            ClaimView::PacketCommitment { packet } => match self.channel(
                packet.source_port,
                packet.source_channel,
            ) {
                Some(entry) => entry.commitment_at(packet.sequence) == Some(packet.commitment()),
                None => false,
            },
            ClaimView::Acknowledgement { packet, acknowledgement } => match self.channel(
                packet.destination_port,
                packet.destination_channel,
            ) {
                Some(entry) => entry.acks.contains(
                    crate::store::AckEntryView { sequence: packet.sequence, acknowledgement },
                ),
                None => false,
            },
            ClaimView::ReceiptAbsent { port_id, channel_id, sequence } => match self.channel(
                port_id,
                channel_id,
            ) {
                Some(entry) => !entry.received(sequence),
                None => false,
            },
        }
    }
}

/// What comes of holding `proof` against the client `client_id` at `height`.
///
/// There must be such a client, it must not be frozen, it must have verified a state at
/// `height`, and the verifier must accept the proof for the claim.
pub open spec fn proof_check<V: ProofVerifier>(
    store: StoreView,
    verifier: &V,
    client_id: ClientId,
    height: Height,
    proof: Seq<u8>,
    claim: ClaimView,
) -> Result<(), Error> {
    match store.client(client_id) {
        None => Err(Error::ProofVerificationFailed),
        Some(client) => {
            if client.status == ClientStatus::Frozen {
                Err(Error::ClientFrozen)
            } else if client.snapshot_at(height).is_none() {
                Err(Error::InvalidConsensusHeight)
            } else if !verifier.accepts(client_id, height, proof, claim) {
                Err(Error::ProofVerificationFailed)
            } else {
                Ok(())
            }
        },
    }
}

/// Holds `proof` against the client `client_id` at `height`.
pub fn check_proof<V: ProofVerifier>(
    store: &Store,
    verifier: &V,
    client_id: ClientId,
    height: Height,
    proof: &Vec<u8>,
    claim: &Claim,
) -> (r: Result<(), Error>)
    ensures
        r == proof_check(store@, verifier, client_id, height, proof@, claim@),
{
    match store.client(client_id) {
        None => Err(Error::ProofVerificationFailed),
        Some(client) => {
            if client.is_frozen() {
                Err(Error::ClientFrozen)
            } else if client.snapshot_at(height).is_none() {
                Err(Error::InvalidConsensusHeight)
            } else if !verifier.verify(client_id, height, proof, claim) {
                Err(Error::ProofVerificationFailed)
            } else {
                Ok(())
            }
        },
    }
}

/// A verifier that gives one scripted answer to every proof and another to every header.
#[derive(Clone, Copy, Debug, PartialEq, Eq, Structural)]
pub struct ScriptedVerifier {
    pub proofs: bool,
    pub headers: bool,
}

impl ScriptedVerifier {
    /// A verifier that accepts everything.
    pub fn accepting() -> (v: ScriptedVerifier)
        ensures
            v == (ScriptedVerifier { proofs: true, headers: true }),
    {
        ScriptedVerifier { proofs: true, headers: true }
    }

    /// A verifier that accepts headers and rejects every proof.
    pub fn rejecting_proofs() -> (v: ScriptedVerifier)
        ensures
            v == (ScriptedVerifier { proofs: false, headers: true }),
    {
        ScriptedVerifier { proofs: false, headers: true }
    }
}

impl ProofVerifier for ScriptedVerifier {
    open spec fn accepts(
        &self,
        client_id: ClientId,
        height: Height,
        proof: Seq<u8>,
        claim: ClaimView,
    ) -> bool {
        self.proofs
    }

    open spec fn accepts_header(
        &self,
        client_id: ClientId,
        trusted: Height,
        header: HeaderView,
    ) -> bool {
        self.headers
    }

    fn verify(&self, client_id: ClientId, height: Height, proof: &Vec<u8>, claim: &Claim) -> (ok:
        bool) {
        self.proofs
    }

    fn verify_header(&self, client_id: ClientId, trusted: Height, header: &Header) -> (ok: bool) {
        self.headers
    }
}

} // verus!
