//! What holds of the state machines whatever the store, the messages and the verifier.

use crate::bank::BankKeeper;
use crate::channel::{channel_outcome, mirror, open_link, ChannelMsg, ChannelState};
use crate::client::{client_outcome, ClientStatus};
use crate::connection::{
    connection_outcome, open_ack_outcome, open_confirm_claim, open_confirm_outcome,
    open_init_outcome, open_try_claim, open_try_outcome, ConnectionMsg, ConnectionOutcome,
    ConnectionState, MsgConnectionOpenAck, MsgConnectionOpenConfirm, MsgConnectionOpenInit,
    MsgConnectionOpenTry,
};
use crate::envelope::{Ics26Envelope, RawMessage, RawPayload};
use crate::error::Error;
use crate::evidence::{proof_check, ClaimView, ProofVerifier};
use crate::fee::{
    charged, fee_output, lemma_share_within_amount, passed_on, percent_mul, Ics20ServiceCharge,
    Percent, ServiceChargeView,
};
use crate::json::json_members;
use crate::module::{CallView, Module, Reaction, RegistryView, Reply};
use crate::output::OutputView;
use crate::packet::{
    absence_claim, packet_outcome, timeout_obstacle, ack_outcome, arrives_on, recv_outcome, send_outcome,
    timeout_on_close_outcome, timeout_outcome, timeout_passed, LedgerTime, MsgAcknowledgement,
    MsgRecvPacket, MsgTimeout, MsgTimeoutOnClose, PacketMsg, PacketOutcome, PacketView,
    SendRequest,
};
use crate::router::{
    channel_call, dispatched, packet_call, packet_dispatched, written, ContextView, Dispatched,
};
use crate::store::{
    ChannelResultView, ClientResultView, ConnectionResultView, PacketResultView,
    RecvPacketResult, Store, StoreView,
};
use crate::text::{
    decimal_text, lemma_decimal_reads_back, lemma_numbered_reads_back, starts_with,
};
use crate::transfer::{amount_in, encoded, local_denom, payload_in, success_ack, PacketDataView};
use crate::types::{ChannelId, ClientId, ClientType, ConnectionId, Order};
use vstd::prelude::*;

verus! {

/// On an open ordered channel a packet is received only with the sequence that the
/// channel expects next, and then the channel expects the one after it; any other
/// sequence is rejected with `OutOfOrderPacket`.
pub proof fn law_ordered_receipt_in_sequence<V: ProofVerifier>(
    store: StoreView,
    verifier: &V,
    now: LedgerTime,
    msg: &MsgRecvPacket,
)
    requires
        store.channel(msg.packet@.destination_port, msg.packet@.destination_channel).is_some(),
        store.channel(
            msg.packet@.destination_port,
            msg.packet@.destination_channel,
        )->0.end.ordering == Order::Ordered,
    ensures
        ({
            let packet = msg.packet@;
            let entry = store.channel(packet.destination_port, packet.destination_channel)->0;
            let outcome = recv_outcome(store, verifier, now, msg);
            &&& outcome is Ok ==> {
                &&& packet.sequence == entry.next_recv
                &&& outcome->Ok_0.result == PacketResultView::Recv(
                    RecvPacketResult::Success {
                        channel_id: packet.destination_channel,
                        sequence: packet.sequence,
                    },
                )
                &&& store.with_packet(outcome->Ok_0.result).channel(
                    packet.destination_port,
                    packet.destination_channel,
                )->0.next_recv == packet.sequence + 1
            }
            &&& (entry.end.state == ChannelState::Open && arrives_on(packet, entry)
                && packet.sequence != entry.next_recv) ==> outcome == Err::<PacketOutcome, Error>(
                Error::OutOfOrderPacket,
            )
        }),
{
}

/// Once a packet is acknowledged its commitment is gone: no acknowledgement, timeout or
/// timeout on close of that packet succeeds afterwards, whatever the verifier says.
pub proof fn law_acknowledged_is_final<V: ProofVerifier>(
    store: StoreView,
    verifier: &V,
    later: &V,
    ack: &MsgAcknowledgement,
    again: &MsgAcknowledgement,
    timeout: &MsgTimeout,
    close: &MsgTimeoutOnClose,
)
    requires
        ack_outcome(store, verifier, ack) is Ok,
        again.packet@ == ack.packet@,
        timeout.packet@ == ack.packet@,
        close.packet@ == ack.packet@,
    ensures
        ({
            let after = store.with_packet(ack_outcome(store, verifier, ack)->Ok_0.result);
            &&& ack_outcome(after, later, again) is Err
            &&& timeout_outcome(after, later, timeout) is Err
            &&& timeout_on_close_outcome(after, later, close) is Err
        }),
{
}

/// Once a packet has timed out its commitment is gone: no acknowledgement, timeout or
/// timeout on close of that packet succeeds afterwards, whatever the verifier says.
pub proof fn law_timed_out_is_final<V: ProofVerifier>(
    store: StoreView,
    verifier: &V,
    later: &V,
    timeout: &MsgTimeout,
    ack: &MsgAcknowledgement,
    again: &MsgTimeout,
    close: &MsgTimeoutOnClose,
)
    requires
        timeout_outcome(store, verifier, timeout) is Ok,
        ack.packet@ == timeout.packet@,
        again.packet@ == timeout.packet@,
        close.packet@ == timeout.packet@,
    ensures
        ({
            let after = store.with_packet(timeout_outcome(store, verifier, timeout)->Ok_0.result);
            &&& ack_outcome(after, later, ack) is Err
            &&& timeout_outcome(after, later, again) is Err
            &&& timeout_on_close_outcome(after, later, close) is Err
        }),
{
}

/// Once a packet has timed out on close its commitment is gone: no acknowledgement and no
/// timeout of that packet succeeds afterwards, whatever the verifier says.
pub proof fn law_timed_out_on_close_is_final<V: ProofVerifier>(
    store: StoreView,
    verifier: &V,
    later: &V,
    close: &MsgTimeoutOnClose,
    ack: &MsgAcknowledgement,
    timeout: &MsgTimeout,
    again: &MsgTimeoutOnClose,
)
    requires
        timeout_on_close_outcome(store, verifier, close) is Ok,
        ack.packet@ == close.packet@,
        timeout.packet@ == close.packet@,
        again.packet@ == close.packet@,
    ensures
        ({
            let after = store.with_packet(
                timeout_on_close_outcome(store, verifier, close)->Ok_0.result,
            );
            &&& ack_outcome(after, later, ack) is Err
            &&& timeout_outcome(after, later, timeout) is Err
            &&& timeout_on_close_outcome(after, later, again) is Err
        }),
{
}

/// Dispatching a `RecvPacket` again after it was dispatched with success changes
/// nothing, neither the store nor a module, and reports no event.
pub proof fn law_receive_is_idempotent<V: ProofVerifier, M: Module>(
    ctx: ContextView<M::V>,
    verifier: &V,
    msg: &PacketMsg,
)
    requires
        msg is RecvPacket,
        packet_dispatched::<V, M>(ctx, verifier, msg).result is Ok,
    ensures
        ({
            let first = packet_dispatched::<V, M>(ctx, verifier, msg);
            let second = packet_dispatched::<V, M>(first.context, verifier, msg);
            &&& second.context == first.context
            &&& second.result is Ok ==> second.result->Ok_0 == OutputView::empty()
        }),
{
    let first = packet_dispatched::<V, M>(ctx, verifier, msg);
    let packet = msg.packet();
    assert(first.context.registry.module_ids == ctx.registry.module_ids);
    assert(first.context.registry.ports == ctx.registry.ports);
    assert(first.context.registry.bound == ctx.registry.bound);
    assert(first.context.registry.route(msg.port()) == ctx.registry.route(msg.port()));
    let entry = ctx.store.channel(packet.destination_port, packet.destination_channel)->0;
    let after = first.context.store.channel(packet.destination_port, packet.destination_channel);
    assert(after.is_some());
    assert(after->0.end == entry.end);
    assert(first.context.store.clients == ctx.store.clients);
    assert(first.context.store.connections == ctx.store.connections);
    if entry.end.ordering == Order::Unordered {
        if !entry.received(packet.sequence) {
            assert(entry.receipts.push(packet.sequence)[entry.receipts.len() as int]
                == packet.sequence);
            assert(after->0.receipts == entry.receipts.push(packet.sequence));
        }
        assert(after->0.received(packet.sequence));
    }
}

/// A handshake of four steps that succeed, each naming the connection of the step before,
/// leaves the connection `Open` on both sides, each side naming the other's connection and
/// client. That the two sides name each other's clients rests on the proof of the second
/// step being truthful: the starting side did store what the answering side had proved.
pub proof fn law_handshake_round_trip<VA: ProofVerifier, VB: ProofVerifier>(
    a: StoreView,
    b: StoreView,
    verifier_a: &VA,
    verifier_b: &VB,
    init: &MsgConnectionOpenInit,
    answer: &MsgConnectionOpenTry,
    ack: &MsgConnectionOpenAck,
    confirm: &MsgConnectionOpenConfirm,
)
    requires
        open_init_outcome(a, init) is Ok,
        open_try_outcome(b, verifier_b, answer) is Ok,
        answer.counterparty_connection_id == a.next_connection_id(),
        a.with_connection(open_init_outcome(a, init)->Ok_0.result).agrees_with(
            open_try_claim(answer),
        ),
        ack.connection_id == a.next_connection_id(),
        ack.counterparty_connection_id == b.next_connection_id(),
        open_ack_outcome(
            a.with_connection(open_init_outcome(a, init)->Ok_0.result),
            verifier_a,
            ack,
        ) is Ok,
        confirm.connection_id == b.next_connection_id(),
        open_confirm_outcome(
            b.with_connection(open_try_outcome(b, verifier_b, answer)->Ok_0.result),
            verifier_b,
            confirm,
        ) is Ok,
    ensures
        ({
            let a1 = a.with_connection(open_init_outcome(a, init)->Ok_0.result);
            let b1 = b.with_connection(open_try_outcome(b, verifier_b, answer)->Ok_0.result);
            let a2 = a1.with_connection(open_ack_outcome(a1, verifier_a, ack)->Ok_0.result);
            let b2 = b1.with_connection(open_confirm_outcome(b1, verifier_b, confirm)->Ok_0.result);
            let ours = a2.connection(a.next_connection_id());
            let theirs = b2.connection(b.next_connection_id());
            &&& ours.is_some() && theirs.is_some()
            &&& ours->0.state == ConnectionState::Open
            &&& theirs->0.state == ConnectionState::Open
            &&& ours->0.counterparty_connection_id == Some(b.next_connection_id())
            &&& theirs->0.counterparty_connection_id == Some(a.next_connection_id())
            &&& ours->0.counterparty_client_id == theirs->0.client_id
            &&& theirs->0.counterparty_client_id == ours->0.client_id
        }),
{
}

/// `ConnectionOpenTry` with a claimed consensus height strictly above the latest verified
/// height of the named client fails with `InvalidConsensusHeight`.
pub proof fn law_unverified_consensus_height_is_rejected<V: ProofVerifier>(
    store: StoreView,
    verifier: &V,
    msg: &MsgConnectionOpenTry,
)
    requires
        store.client(msg.client_id).is_some(),
        store.client(msg.client_id)->0.latest_height.before(msg.consensus_height),
    ensures
        open_try_outcome(store, verifier, msg) == Err::<ConnectionOutcome, Error>(
            Error::InvalidConsensusHeight,
        ),
{
}

/// A packet whose timeout has passed on the receiving ledger is not received. Where
/// nothing else stands against the receipt, the error is `InvalidTimeout`.
pub proof fn law_late_receipt_fails<V: ProofVerifier>(
    store: StoreView,
    verifier: &V,
    now: LedgerTime,
    msg: &MsgRecvPacket,
)
    requires
        timeout_passed(msg.packet@.timeout_height, msg.packet@.timeout_timestamp, now),
    ensures
        recv_outcome(store, verifier, now, msg) is Err,
        ({
            let packet = msg.packet@;
            let found = store.channel(packet.destination_port, packet.destination_channel);
            (found.is_some() && found->0.end.state == ChannelState::Open && arrives_on(
                packet,
                found->0,
            ) && (found->0.end.ordering == Order::Unordered || (packet.sequence
                == found->0.next_recv && packet.sequence < u64::MAX)) && open_link(
                store,
                found->0.end.connection_id,
            ) is Ok) ==> recv_outcome(store, verifier, now, msg) == Err::<PacketOutcome, Error>(
                Error::InvalidTimeout,
            )
        }),
{
}

/// A timeout resolves a packet only on a proof of absence that was accepted, at a height
/// at which the packet's timeout had passed on the destination.
pub proof fn law_timeout_needs_absence_proof<V: ProofVerifier>(
    store: StoreView,
    verifier: &V,
    msg: &MsgTimeout,
)
    requires
        timeout_outcome(store, verifier, msg) is Ok,
    ensures
        ({
            let packet = msg.packet@;
            let entry = store.channel(packet.source_port, packet.source_channel)->0;
            let client_id = open_link(store, entry.end.connection_id)->Ok_0.client_id;
            let client = store.client(client_id)->0;
            &&& verifier.accepts(
                client_id,
                msg.proof_height,
                msg.proof_unreceived@,
                absence_claim(packet),
            )
            &&& client.snapshot_at(msg.proof_height).is_some()
            &&& timeout_passed(
                packet.timeout_height,
                packet.timeout_timestamp,
                LedgerTime {
                    height: msg.proof_height,
                    timestamp: client.snapshot_at(msg.proof_height)->0.timestamp,
                },
            )
        }),
{
}

/// A port is bound once: after a binding that succeeded, binding the same port again, to
/// any module, fails with `PortAlreadyBound`, and the port stays with the first module.
pub proof fn law_port_is_bound_once<S>(
    registry: RegistryView<S>,
    port: Seq<char>,
    first: Seq<char>,
    second: Seq<char>,
)
    requires
        registry.bound_to(port, first) is Ok,
        registry.ports.len() == registry.bound.len(),
    ensures
        ({
            let after = registry.bound_to(port, first)->Ok_0;
            &&& after.module_of(port) == Some(first)
            &&& after.bound_to(port, second) == Err::<RegistryView<S>, Error>(
                Error::PortAlreadyBound,
            )
        }),
{
    let after = registry.bound_to(port, first)->Ok_0;
    registry.ports.index_of_first_ensures(port);
    after.ports.index_of_first_ensures(port);
    assert(after.ports[registry.ports.len() as int] == port);
}

/// How far a connection has come, as a number: a handshake only ever counts up.
pub open spec fn progress(state: ConnectionState) -> int {
    match state {
        ConnectionState::Init => 0,
        ConnectionState::TryOpen => 1,
        ConnectionState::Open => 2,
    }
}

/// A connection never regresses: a step that succeeds on a connection that the store
/// holds leaves it further along than it was, and with the clients it had.
pub proof fn law_connection_never_regresses<V: ProofVerifier>(
    store: StoreView,
    verifier: &V,
    msg: &ConnectionMsg,
)
    requires
        store.numbered(),
        connection_outcome(store, verifier, msg) is Ok,
        store.connection(connection_outcome(store, verifier, msg)->Ok_0.result.connection_id).is_some(),
    ensures
        ({
            let result = connection_outcome(store, verifier, msg)->Ok_0.result;
            let before = store.connection(result.connection_id)->0;
            &&& progress(before.state) < progress(result.record.state)
            &&& result.record.client_id == before.client_id
            &&& result.record.counterparty_client_id == before.counterparty_client_id
        }),
{
}

/// `Closed` is final: on a closed channel no handshake step succeeds, nothing is sent,
/// nothing is received and nothing is acknowledged.
pub proof fn law_closed_channel_is_final<V: ProofVerifier>(
    store: StoreView,
    verifier: &V,
    now: LedgerTime,
    port: Seq<char>,
    channel_id: ChannelId,
    step: &ChannelMsg,
    request: &SendRequest,
    recv: &MsgRecvPacket,
    ack: &MsgAcknowledgement,
)
    requires
        store.numbered(),
        store.channel(port, channel_id).is_some(),
        store.channel(port, channel_id)->0.end.state == ChannelState::Closed,
    ensures
        (channel_outcome(store, verifier, step) is Ok ==> channel_outcome(
            store,
            verifier,
            step,
        )->Ok_0.result.channel_id != channel_id),
        (request.source_port@ == port && request.source_channel == channel_id) ==> send_outcome(
            store,
            request,
        ) is Err,
        (recv.packet@.destination_port == port && recv.packet@.destination_channel == channel_id)
            ==> recv_outcome(store, verifier, now, recv) is Err,
        (ack.packet@.source_port == port && ack.packet@.source_channel == channel_id)
            ==> ack_outcome(store, verifier, ack) is Err,
{
}

/// A message applies as a whole or not at all: a dispatch that fails leaves nothing
/// behind, neither in the store nor in the registry nor in a module.
pub proof fn law_failed_dispatch_leaves_nothing<V: ProofVerifier, M: Module>(
    ctx: ContextView<M::V>,
    verifier: &V,
    msg: &Ics26Envelope,
)
    requires
        dispatched::<V, M>(ctx, verifier, msg).result is Err,
    ensures
        dispatched::<V, M>(ctx, verifier, msg).context == ctx,
{
}

/// The fee never makes the amount larger: what the receiver keeps and what is collected
/// add up to what was sent.
pub proof fn law_fee_splits_the_amount(charge: Percent, amount: u128)
    ensures
        percent_mul(charge.0, amount) <= amount,
        (amount - percent_mul(charge.0, amount)) + percent_mul(charge.0, amount) == amount,
{
    lemma_share_within_amount(charge.0, amount);
}

/// Records are kept: whatever a dispatch comes to, the store holds at least the clients,
/// connections and channels it held, under the numbers they had.
pub proof fn law_records_are_kept<V: ProofVerifier, M: Module>(
    ctx: ContextView<M::V>,
    verifier: &V,
    msg: &Ics26Envelope,
)
    requires
        ctx.store.numbered(),
    ensures
        ({
            let after = dispatched::<V, M>(ctx, verifier, msg).context.store;
            &&& ctx.store.clients.len() <= after.clients.len()
            &&& ctx.store.connections.len() <= after.connections.len()
            &&& ctx.store.channels.len() <= after.channels.len()
            &&& forall|i: int|
                0 <= i < ctx.store.clients.len() ==> (#[trigger] after.clients[i]).client_type
                    == ctx.store.clients[i].client_type
            &&& forall|i: int|
                0 <= i < ctx.store.channels.len() ==> (#[trigger] after.channels[i]).end.port_id
                    == ctx.store.channels[i].end.port_id
        }),
{
}

/// Sequences count up: a packet that is sent gets the sequence after the one sent before
/// it on the channel, and its commitment is then kept under that sequence.
pub proof fn law_send_counts_up(store: StoreView, request: &SendRequest)
    requires
        send_outcome(store, request) is Ok,
    ensures
        ({
            let sent = send_outcome(store, request)->Ok_0;
            let before = store.channel(request.source_port@, request.source_channel)->0;
            let after = store.with_packet(sent.result).channel(
                request.source_port@,
                request.source_channel,
            );
            &&& sent.packet.sequence == before.next_send()
            &&& after.is_some()
            &&& after->0.next_send() == before.next_send() + 1
            &&& after->0.commitment_at(sent.packet.sequence) == Some(sent.packet.commitment())
            &&& forall|n: u64|
                n != sent.packet.sequence ==> after->0.commitment_at(n) == before.commitment_at(n)
        }),
{
}

/// A timeout on close resolves a packet only on two proofs that were accepted: that the
/// destination closed its end of the channel, and that it holds no receipt.
pub proof fn law_timeout_on_close_needs_both_proofs<V: ProofVerifier>(
    store: StoreView,
    verifier: &V,
    msg: &MsgTimeoutOnClose,
)
    requires
        timeout_on_close_outcome(store, verifier, msg) is Ok,
    ensures
        ({
            let packet = msg.packet@;
            let entry = store.channel(packet.source_port, packet.source_channel)->0;
            let link = open_link(store, entry.end.connection_id)->Ok_0;
            &&& verifier.accepts(
                link.client_id,
                msg.proof_height,
                msg.proof_unreceived@,
                absence_claim(packet),
            )
            &&& verifier.accepts(
                link.client_id,
                msg.proof_height,
                msg.proof_close@,
                ClaimView::Channel {
                    channel_id: packet.destination_channel,
                    record: mirror(
                        entry.end,
                        Some(packet.source_channel),
                        ChannelState::Closed,
                        link.counterparty_connection_id,
                        entry.end.version,
                    ),
                },
            )
        }),
{
}

/// The records of a store in memory can all be numbered in 64 bits: what the laws ask
/// of a store, every store that runs has.
pub proof fn law_stores_are_numbered(store: &Store)
    ensures
        store@.numbered(),
{
    assert(store.clients@.len() == store.clients.len());
    assert(store.connections@.len() == store.connections.len());
    assert(store.channels@.len() == store.channels.len());
}

/// What is committed can be read back: a result stored under a number that the store
/// holds, or under the next free one, is then found under that number.
pub proof fn law_read_your_writes(
    store: StoreView,
    client: ClientResultView,
    connection: ConnectionResultView,
    channel: ChannelResultView,
)
    requires
        store.numbered(),
        client.client_id.counter <= store.clients.len(),
        client.record.client_type == client.client_id.client_type,
        connection.connection_id.0 <= store.connections.len(),
        channel.channel_id.0 <= store.channels.len(),
    ensures
        store.with_client(client).client(client.client_id) == Some(client.record),
        store.with_connection(connection).connection(connection.connection_id) == Some(
            connection.record,
        ),
        store.with_channel(channel).channel(channel.record.port_id, channel.channel_id).is_some(),
        store.with_channel(channel).channel(channel.record.port_id, channel.channel_id)->0.end
            == channel.record,
{
}

/// How far a channel has come, as a number: a channel only ever counts up, and `Closed`
/// is the end.
pub open spec fn channel_progress(state: ChannelState) -> int {
    match state {
        ChannelState::Init => 0,
        ChannelState::TryOpen => 1,
        ChannelState::Open => 2,
        ChannelState::Closed => 3,
    }
}

/// A channel never regresses: a step that succeeds on a channel that the store holds
/// leaves it further along than it was, on the port, the connection and the ordering it
/// had.
pub proof fn law_channel_never_regresses<V: ProofVerifier>(
    store: StoreView,
    verifier: &V,
    msg: &ChannelMsg,
)
    requires
        store.numbered(),
        channel_outcome(store, verifier, msg) is Ok,
        channel_outcome(store, verifier, msg)->Ok_0.result.channel_id.0 < store.channels.len(),
    ensures
        ({
            let result = channel_outcome(store, verifier, msg)->Ok_0.result;
            let before = store.channels[result.channel_id.0 as int].end;
            &&& channel_progress(before.state) < channel_progress(result.record.state)
            &&& result.record.port_id == before.port_id
            &&& result.record.connection_id == before.connection_id
            &&& result.record.ordering == before.ordering
            &&& result.record.counterparty_port_id == before.counterparty_port_id
        }),
{
}

/// The fee decorator is transparent but for successful receipts: every other call, and a
/// receipt that the inner module does not acknowledge with success, whatever the
/// packet's data hold, comes to what the inner module makes of it, and the fee settings
/// stay as they are.
pub proof fn law_fee_decorator_passes_on<S: Module + BankKeeper>(
    state: ServiceChargeView<S::V>,
    call: CallView,
)
    ensures
        !(call is RecvPacket) ==> Ics20ServiceCharge::<S>::react(state, call) == passed_on(
            state,
            S::react(state.inner, call),
        ),
        Ics20ServiceCharge::<S>::react(state, call).state.pallet == state.pallet,
        ({
            let inner = S::react(state.inner, call);
            (call is RecvPacket && !(inner.result matches Ok(
                Reply::Received { acknowledgement, .. },
            ) && acknowledgement == success_ack())) ==> Ics20ServiceCharge::<S>::react(
                state,
                call,
            ) == passed_on(state, inner)
        }),
{
}

/// Where the fee decorator charges, the packet that it hands on carries the amount less
/// the fee, the fee is what the event reports, and the two add up to what came in.
pub proof fn law_fee_is_taken_off_the_packet<S: Module + BankKeeper>(
    state: ServiceChargeView<S::V>,
    inner: Reaction<S::V>,
    data: PacketDataView,
    acknowledgement: Seq<u8>,
    seen: PacketView,
)
    requires
        charged::<S>(state, inner, data, acknowledgement, seen).result is Ok,
    ensures
        ({
            let reaction = charged::<S>(state, inner, data, acknowledgement, seen);
            let fee = percent_mul(state.pallet.service_charge().0, data.amount);
            &&& fee <= data.amount
            &&& reaction.output == inner.output.then_output(fee_output(fee as u128))
            &&& reaction.result == Ok::<Reply, Error>(
                Reply::Received {
                    acknowledgement,
                    packet: PacketView {
                        data: encoded(
                            PacketDataView { amount: (data.amount - fee) as u128, ..data },
                        ),
                        ..seen
                    },
                },
            )
            &&& S::after_send(
                inner.state,
                data.receiver,
                state.pallet.account,
                local_denom(seen, data.denom),
                fee as u128,
            ) == Some(reaction.state.inner)
        }),
{
    lemma_share_within_amount(state.pallet.service_charge().0, data.amount);
}

/// Names read back: the name written for a connection, a channel or a client is read as
/// that connection, channel or client, type included, and an amount written in digits is
/// read as that amount.
pub proof fn law_names_read_back(
    connection: ConnectionId,
    channel: ChannelId,
    client: ClientId,
    amount: u128,
)
    ensures
        ConnectionId::named(connection.name()) == Some(connection),
        ChannelId::named(channel.name()) == Some(channel),
        ClientId::named(client.name()) == Some(client),
        amount_in(decimal_text(amount as nat)) == Some(amount),
{
    lemma_numbered_reads_back("connection-"@, connection.0);
    lemma_numbered_reads_back("channel-"@, channel.0);
    lemma_numbered_reads_back(client.client_type.prefix(), client.counter);
    lemma_decimal_reads_back(amount as nat);
    reveal_strlit("07-tendermint-");
    reveal_strlit("10-grandpa-");
    reveal_strlit("11-beefy-");
    reveal_strlit("9999-mock-");
    let text = client.name();
    let own = client.client_type.prefix();
    assert(text[0] == own[0] && text[1] == own[1]);
    assert forall|other: ClientType| other != client.client_type implies !starts_with(
        text,
        other.prefix(),
    ) by {
        let theirs = other.prefix();
        if starts_with(text, theirs) {
            let head = text.subrange(0, theirs.len() as int);
            assert(head[0] == text[0] && head[1] == text[1]);
        }
    }
}

/// Reading decides delivery: whatever two envelopes a payload reads as, they are
/// dispatched to the same context and the same result. So what `deliver` does with a
/// message is a function of the context, the verifier and the message as it came in.
pub proof fn law_reading_decides_delivery<V: ProofVerifier, M: Module>(
    ctx: ContextView<M::V>,
    verifier: &V,
    payload: &RawPayload,
    one: &Ics26Envelope,
    other: &Ics26Envelope,
)
    requires
        payload.reads_as(one),
        payload.reads_as(other),
    ensures
        dispatched::<V, M>(ctx, verifier, one) == dispatched::<V, M>(ctx, verifier, other),
{
    match (one, other) {
        (Ics26Envelope::Ics2Msg(a), Ics26Envelope::Ics2Msg(b)) => {
            assert(client_outcome(ctx.store, verifier, a) == client_outcome(ctx.store, verifier, b));
        },
        (Ics26Envelope::Ics3Msg(a), Ics26Envelope::Ics3Msg(b)) => {
            assert(connection_outcome(ctx.store, verifier, a) == connection_outcome(
                ctx.store,
                verifier,
                b,
            ));
        },
        (Ics26Envelope::Ics4ChannelMsg(a), Ics26Envelope::Ics4ChannelMsg(b)) => {
            assert(a.port() == b.port());
            assert(channel_outcome(ctx.store, verifier, a) == channel_outcome(
                ctx.store,
                verifier,
                b,
            ));
            if channel_outcome(ctx.store, verifier, a) is Ok {
                let result = channel_outcome(ctx.store, verifier, a)->Ok_0.result;
                assert(channel_call(a, result) == channel_call(b, result));
            }
        },
        (Ics26Envelope::Ics4PacketMsg(a), Ics26Envelope::Ics4PacketMsg(b)) => {
            assert(a.packet() == b.packet());
            assert(a.port() == b.port());
            assert(packet_outcome(ctx.store, verifier, ctx.now, a) == packet_outcome(
                ctx.store,
                verifier,
                ctx.now,
                b,
            ));
            assert(packet_call(a) == packet_call(b));
            assert(forall|reply: Reply| written(a, reply) == written(b, reply));
        },
        _ => {},
    }
}

/// Delivering the same message to the same context with the same verifier comes to the
/// same end: there is one context and one result that every envelope the message reads
/// as is dispatched to.
pub proof fn law_delivery_is_determined<V: ProofVerifier, M: Module>(
    ctx: ContextView<M::V>,
    verifier: &V,
    message: &RawMessage,
    first: Dispatched<M::V>,
    second: Dispatched<M::V>,
)
    requires
        exists|envelope: Ics26Envelope|
            #![trigger message.value.reads_as(&envelope)]
            message.value.reads_as(&envelope) && first == dispatched::<V, M>(
                ctx,
                verifier,
                &envelope,
            ),
        exists|envelope: Ics26Envelope|
            #![trigger message.value.reads_as(&envelope)]
            message.value.reads_as(&envelope) && second == dispatched::<V, M>(
                ctx,
                verifier,
                &envelope,
            ),
    ensures
        first == second,
{
    let one = choose|envelope: Ics26Envelope|
        #![trigger message.value.reads_as(&envelope)]
        message.value.reads_as(&envelope) && first == dispatched::<V, M>(ctx, verifier, &envelope);
    let other = choose|envelope: Ics26Envelope|
        #![trigger message.value.reads_as(&envelope)]
        message.value.reads_as(&envelope) && second == dispatched::<V, M>(
            ctx,
            verifier,
            &envelope,
        );
    law_reading_decides_delivery::<V, M>(ctx, verifier, &message.value, &one, &other);
}

/// The handshake at the dispatcher. Ledger A starts a connection between its client of B
/// and B's client of A; B answers, naming A's connection; A acknowledges, naming B's
/// connection; B confirms with a proof that its verifier accepts for a height that its
/// client has verified. Where the first three dispatches succeeded, the fourth succeeds
/// too, and the connection is `Open` on both sides, each side naming its own client, the
/// other's client and the other's connection.
pub proof fn law_handshake_at_the_dispatcher<
    VA: ProofVerifier,
    VB: ProofVerifier,
    MA: Module,
    MB: Module,
>(
    a: ContextView<MA::V>,
    b: ContextView<MB::V>,
    verifier_a: &VA,
    verifier_b: &VB,
    init: &MsgConnectionOpenInit,
    answer: &MsgConnectionOpenTry,
    ack: &MsgConnectionOpenAck,
    confirm: &MsgConnectionOpenConfirm,
)
    requires
        a.store.numbered(),
        b.store.numbered(),
        answer.client_id == init.counterparty_client_id,
        answer.counterparty_client_id == init.client_id,
        answer.counterparty_connection_id == a.store.next_connection_id(),
        ack.connection_id == a.store.next_connection_id(),
        ack.counterparty_connection_id == b.store.next_connection_id(),
        confirm.connection_id == b.store.next_connection_id(),
        ({
            let a1 = dispatched::<VA, MA>(
                a,
                verifier_a,
                &Ics26Envelope::Ics3Msg(ConnectionMsg::ConnectionOpenInit(*init)),
            );
            let b1 = dispatched::<VB, MB>(
                b,
                verifier_b,
                &Ics26Envelope::Ics3Msg(ConnectionMsg::ConnectionOpenTry(*answer)),
            );
            let a2 = dispatched::<VA, MA>(
                a1.context,
                verifier_a,
                &Ics26Envelope::Ics3Msg(ConnectionMsg::ConnectionOpenAck(*ack)),
            );
            let mine = b1.context.store.connection(confirm.connection_id);
            &&& a1.result is Ok
            &&& b1.result is Ok
            &&& a2.result is Ok
            &&& mine.is_some() ==> proof_check(
                b1.context.store,
                verifier_b,
                mine->0.client_id,
                confirm.proof_height,
                confirm.proof_ack@,
                open_confirm_claim(mine->0, mine->0.counterparty_connection_id->0, confirm),
            ) is Ok
        }),
    ensures
        ({
            let a1 = dispatched::<VA, MA>(
                a,
                verifier_a,
                &Ics26Envelope::Ics3Msg(ConnectionMsg::ConnectionOpenInit(*init)),
            );
            let b1 = dispatched::<VB, MB>(
                b,
                verifier_b,
                &Ics26Envelope::Ics3Msg(ConnectionMsg::ConnectionOpenTry(*answer)),
            );
            let a2 = dispatched::<VA, MA>(
                a1.context,
                verifier_a,
                &Ics26Envelope::Ics3Msg(ConnectionMsg::ConnectionOpenAck(*ack)),
            );
            let b2 = dispatched::<VB, MB>(
                b1.context,
                verifier_b,
                &Ics26Envelope::Ics3Msg(ConnectionMsg::ConnectionOpenConfirm(*confirm)),
            );
            let ours = a2.context.store.connection(a.store.next_connection_id());
            let theirs = b2.context.store.connection(b.store.next_connection_id());
            &&& b2.result is Ok
            &&& ours.is_some() && theirs.is_some()
            &&& ours->0.state == ConnectionState::Open
            &&& theirs->0.state == ConnectionState::Open
            &&& ours->0.client_id == init.client_id
            &&& ours->0.counterparty_client_id == answer.client_id
            &&& ours->0.counterparty_connection_id == Some(b.store.next_connection_id())
            &&& theirs->0.client_id == answer.client_id
            &&& theirs->0.counterparty_client_id == init.client_id
            &&& theirs->0.counterparty_connection_id == Some(a.store.next_connection_id())
        }),
{
}

/// A timeout at the dispatcher. The packet is committed on a channel whose port has a
/// module, its connection is open, the client is active and has verified the proof
/// height, and the packet's timeout has passed on the destination at that height. Then
/// the verifier's verdict on the proof of absence decides. Rejected: the dispatch fails
/// with `ProofVerificationFailed` and nothing changes. Accepted: the module is called
/// once, with the timeout of this packet; where it consents the dispatch succeeds and the
/// commitment is deleted, and where it rejects the dispatch fails with
/// `ApplicationCallbackRejected` and nothing changes.
pub proof fn law_timeout_at_the_dispatcher<V: ProofVerifier, M: Module>(
    ctx: ContextView<M::V>,
    verifier: &V,
    msg: &MsgTimeout,
)
    requires
        ctx.registry.route(msg.packet@.source_port).is_some(),
        ({
            let packet = msg.packet@;
            let found = ctx.store.channel(packet.source_port, packet.source_channel);
            let link = open_link(ctx.store, found->0.end.connection_id);
            let client = ctx.store.client(link->Ok_0.client_id);
            &&& found.is_some()
            &&& timeout_obstacle(packet, found->0).is_none()
            &&& link is Ok
            &&& client.is_some()
            &&& client->0.status == ClientStatus::Active
            &&& client->0.snapshot_at(msg.proof_height).is_some()
            &&& timeout_passed(
                packet.timeout_height,
                packet.timeout_timestamp,
                LedgerTime {
                    height: msg.proof_height,
                    timestamp: client->0.snapshot_at(msg.proof_height)->0.timestamp,
                },
            )
        }),
    ensures
        ({
            let packet = msg.packet@;
            let envelope = PacketMsg::TimeoutPacket(*msg);
            let end = packet_dispatched::<V, M>(ctx, verifier, &envelope);
            let position = ctx.registry.route(packet.source_port)->0;
            let entry = ctx.store.channel(packet.source_port, packet.source_channel)->0;
            let client_id = open_link(ctx.store, entry.end.connection_id)->Ok_0.client_id;
            let accepted = verifier.accepts(
                client_id,
                msg.proof_height,
                msg.proof_unreceived@,
                absence_claim(packet),
            );
            let reaction = M::react(
                ctx.registry.modules[position],
                CallView::TimeoutPacket { packet, relayer: msg.signer@ },
            );
            &&& !accepted ==> end.context == ctx && end.result == Err::<OutputView, Error>(
                Error::ProofVerificationFailed,
            )
            &&& accepted && reaction.result is Err ==> end.context == ctx && end.result == Err::<
                OutputView,
                Error,
            >(Error::ApplicationCallbackRejected)
            &&& accepted && reaction.result is Ok ==> {
                &&& end.result is Ok
                &&& end.context.registry == ctx.registry.with_state(position, reaction.state)
                &&& end.context.store == ctx.store.with_packet(
                    PacketResultView::Timeout {
                        channel_id: packet.source_channel,
                        sequence: packet.sequence,
                    },
                )
                &&& end.context.store.channel(packet.source_port, packet.source_channel).is_some()
                &&& end.context.store.channel(
                    packet.source_port,
                    packet.source_channel,
                )->0.commitment_at(packet.sequence).is_none()
            }
        }),
{
}

/// Where the inner module acknowledges success and the fee cannot be taken, because the
/// data as the packet came hold no transfer payload or because the transfer of the fee is
/// refused, the decorator rejects with `ApplicationCallbackRejected`, reports what the
/// inner module reported and no fee, and leaves the inner module in the state it came to.
pub proof fn law_fee_that_cannot_be_taken_rejects<S: Module + BankKeeper>(
    state: ServiceChargeView<S::V>,
    packet: PacketView,
    relayer: Seq<char>,
)
    requires
        S::react(state.inner, CallView::RecvPacket { packet, relayer }).result matches Ok(
            Reply::Received { acknowledgement, .. },
        ) && acknowledgement == success_ack(),
        ({
            let inner = S::react(state.inner, CallView::RecvPacket { packet, relayer });
            let seen = inner.result->Ok_0->Received_packet;
            let data = payload_in(json_members(packet.data));
            data.is_none() || S::after_send(
                inner.state,
                data->0.receiver,
                state.pallet.account,
                local_denom(seen, data->0.denom),
                percent_mul(state.pallet.service_charge().0, data->0.amount) as u128,
            ).is_none()
        }),
    ensures
        ({
            let inner = S::react(state.inner, CallView::RecvPacket { packet, relayer });
            let reaction = Ics20ServiceCharge::<S>::react(
                state,
                CallView::RecvPacket { packet, relayer },
            );
            &&& reaction.result == Err::<Reply, Error>(Error::ApplicationCallbackRejected)
            &&& reaction.output == inner.output
            &&& reaction.state == (ServiceChargeView { inner: inner.state, ..state })
        }),
{
}

} // verus!
