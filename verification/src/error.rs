//! The error taxonomy shared by every handler.

use vstd::prelude::*;

verus! {

/// Why a message was not applied.
#[derive(Clone, Copy, Debug, PartialEq, Eq, Structural)]
pub enum Error {
    /// The envelope's tag is unknown, or its payload has another shape than the tag announces.
    MalformedEnvelope,
    /// No application module is bound to the port the message addresses.
    ModuleNotFound,
    /// The port already has a module bound to it.
    PortAlreadyBound,
    /// The light client was frozen after misbehaviour.
    ClientFrozen,
    /// The header fails the update rule of the light client.
    InvalidHeader,
    /// A proof refers to a consensus height that the local client has not verified.
    InvalidConsensusHeight,
    /// The two sides support no connection version in common.
    NoCommonVersion,
    /// The connection under a channel is missing or not open.
    ConnectionNotOpen,
    /// The channel is missing or not open.
    ChannelNotOpen,
    /// The channel is closed already.
    ChannelAlreadyClosed,
    /// A packet on an ordered channel does not carry the next expected sequence.
    OutOfOrderPacket,
    /// The timeout of a packet is not in the future where it has to be, or has not passed where it has to have passed.
    InvalidTimeout,
    /// The proof verifier rejected a proof, or there is nothing the proof could be held against.
    ProofVerificationFailed,
    /// The application module rejected a callback.
    ApplicationCallbackRejected,
}

} // verus!
