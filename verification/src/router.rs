//! The dispatcher: routes an envelope to its state machine, lets the bound application
//! module have its say, and commits the result, all or nothing.

use crate::channel::{channel_dispatch, channel_outcome, ChannelMsg};
use crate::client::client_outcome;
use crate::connection::connection_outcome;
use crate::envelope::{decode, well_formed, Ics26Envelope, RawMessage};
use crate::error::Error;
use crate::evidence::ProofVerifier;
use crate::laws::law_reading_decides_delivery;
use crate::module::{CallView, Counterparty, CounterpartyView, Module, Registry, RegistryView, Reply};
use crate::output::{Event, HandlerOutput, MsgReceipt, OutputView};
use crate::packet::{
    packet_dispatch, packet_outcome, send_outcome, send_packet, LedgerTime, Packet, PacketMsg,
    SendOutcome, SendRequest,
};
use crate::store::{
    ChannelResult, ChannelResultView, PacketResult, PacketResultView, RecvPacketResult, Store,
    StoreView,
};
use crate::types::ConnectionId;
use vstd::prelude::*;

verus! {

/// What the dispatcher works on: the store, the proof verifier, the modules with their
/// port bindings, and the ledger's own height and time.
#[derive(Debug)]
pub struct Context<V, M> {
    pub store: Store,
    pub verifier: V,
    pub registry: Registry<M>,
    pub now: LedgerTime,
}

/// The mathematical content of a [`Context`], but for the verifier.
pub struct ContextView<S> {
    pub store: StoreView,
    pub registry: RegistryView<S>,
    pub now: LedgerTime,
}

impl<V: ProofVerifier, M: Module> View for Context<V, M> {
    type V = ContextView<M::V>;

    open spec fn view(&self) -> ContextView<M::V> {
        ContextView { store: self.store@, registry: self.registry@, now: self.now }
    }
}

impl<V: ProofVerifier, M: Module> Context<V, M> {
    /// A context with an empty store and an empty registry.
    pub fn new(verifier: V, now: LedgerTime) -> (ctx: Context<V, M>)
        ensures
            ctx@ == (ContextView {
                store: StoreView::empty(),
                registry: RegistryView::<M::V>::empty(),
                now,
            }),
            ctx.verifier == verifier,
    {
        Context { store: Store::new(), verifier, registry: Registry::new(), now }
    }

    /// Sends what an application asks to have sent: the packet gets the next sequence of
    /// its channel and its commitment is kept. Where sending fails nothing changes.
    pub fn send(&mut self, request: &SendRequest) -> (answer: Result<(Packet, HandlerOutput), Error>)
        ensures
            match answer {
                Ok((packet, output)) => {
                    &&& send_outcome(old(self)@.store, request) is Ok
                    &&& packet@ == send_outcome(old(self)@.store, request)->Ok_0.packet
                    &&& output@ == send_outcome(old(self)@.store, request)->Ok_0.output
                    &&& final(self)@ == (ContextView {
                        store: old(self)@.store.with_packet(
                            send_outcome(old(self)@.store, request)->Ok_0.result,
                        ),
                        ..old(self)@
                    })
                },
                Err(e) => send_outcome(old(self)@.store, request) == Err::<SendOutcome, Error>(e)
                    && final(self)@ == old(self)@,
            },
            final(self).verifier == old(self).verifier,
    {
        match send_packet(&self.store, request) {
            Err(e) => Err(e),
            Ok((packet, result, output)) => {
                self.store.store_packet_result(result);
                Ok((packet, output))
            },
        }
    }
}

/// The call that a channel message makes on the application module, once the handshake
/// step has produced `result`.
pub open spec fn channel_call(msg: &ChannelMsg, result: ChannelResultView) -> CallView {
    let end = result.record;
    let counterparty = CounterpartyView {
        port_id: end.counterparty_port_id,
        channel_id: end.counterparty_channel_id,
    };
    match msg {
        ChannelMsg::ChannelOpenInit(m) => CallView::ChanOpenInit {
            order: end.ordering,
            connection_hops: seq![end.connection_id],
            port_id: end.port_id,
            channel_id: result.channel_id,
            counterparty,
            version: end.version,
            relayer: m.signer@,
        },
        ChannelMsg::ChannelOpenTry(m) => CallView::ChanOpenTry {
            order: end.ordering,
            connection_hops: seq![end.connection_id],
            port_id: end.port_id,
            channel_id: result.channel_id,
            counterparty,
            version: end.version,
            counterparty_version: m.counterparty_version@,
            relayer: m.signer@,
        },
        ChannelMsg::ChannelOpenAck(m) => CallView::ChanOpenAck {
            port_id: end.port_id,
            channel_id: result.channel_id,
            counterparty_version: m.counterparty_version@,
            relayer: m.signer@,
        },
        ChannelMsg::ChannelOpenConfirm(m) => CallView::ChanOpenConfirm {
            port_id: end.port_id,
            channel_id: result.channel_id,
            relayer: m.signer@,
        },
        ChannelMsg::ChannelCloseInit(m) => CallView::ChanCloseInit {
            port_id: end.port_id,
            channel_id: result.channel_id,
            relayer: m.signer@,
        },
        ChannelMsg::ChannelCloseConfirm(m) => CallView::ChanCloseConfirm {
            port_id: end.port_id,
            channel_id: result.channel_id,
            relayer: m.signer@,
        },
    }
}

/// The channel result once the module has answered: where the module settles on a
/// version, the record takes it.
pub open spec fn settled(result: ChannelResultView, reply: Reply) -> ChannelResultView {
    match reply {
        Reply::Version(version) => ChannelResultView {
            record: crate::channel::ChannelRecordView { version, ..result.record },
            ..result
        },
        _ => result,
    }
}

/// Calls the callback of `module` that belongs to the channel message.
pub fn channel_callback<M: Module>(
    module: &mut M,
    msg: &ChannelMsg,
    result: ChannelResult,
    output: &mut HandlerOutput,
) -> (answer: Result<ChannelResult, Error>)
    ensures
        ({
            let reaction = M::react(old(module)@, channel_call(msg, result@));
            &&& final(module)@ == reaction.state
            &&& final(output)@ == old(output)@.then_output(reaction.output)
            &&& match answer {
                Ok(after) => reaction.result is Ok && after@ == settled(
                    result@,
                    reaction.result->Ok_0,
                ),
                Err(e) => reaction.result == Err::<Reply, Error>(e),
            }
        }),
{
    let mut result = result;
    let mut hops: Vec<ConnectionId> = Vec::new();
    hops.push(result.record.connection_id);
    assert(hops@ =~= seq![result.record.connection_id]);
    let counterparty = Counterparty {
        port_id: result.record.counterparty_port_id.clone(),
        channel_id: result.record.counterparty_channel_id,
    };
    match msg {
        ChannelMsg::ChannelOpenInit(m) => {
            match module.on_chan_open_init(
                output,
                result.record.ordering,
                &hops,
                &result.record.port_id,
                &result.channel_id,
                &counterparty,
                &result.record.version,
                &m.signer,
            ) {
                Ok(()) => Ok(result),
                Err(e) => Err(e),
            }
        },
        ChannelMsg::ChannelOpenTry(m) => {
            match module.on_chan_open_try(
                output,
                result.record.ordering,
                &hops,
                &result.record.port_id,
                &result.channel_id,
                &counterparty,
                &result.record.version,
                &m.counterparty_version,
                &m.signer,
            ) {
                Ok(version) => {
                    result.record.version = version;
                    Ok(result)
                },
                Err(e) => Err(e),
            }
        },
        ChannelMsg::ChannelOpenAck(m) => {
            match module.on_chan_open_ack(
                output,
                &result.record.port_id,
                &result.channel_id,
                &m.counterparty_version,
                &m.signer,
            ) {
                Ok(()) => Ok(result),
                Err(e) => Err(e),
            }
        },
        ChannelMsg::ChannelOpenConfirm(m) => {
            match module.on_chan_open_confirm(
                output,
                &result.record.port_id,
                &result.channel_id,
                &m.signer,
            ) {
                Ok(()) => Ok(result),
                Err(e) => Err(e),
            }
        },
        ChannelMsg::ChannelCloseInit(m) => {
            match module.on_chan_close_init(
                output,
                &result.record.port_id,
                &result.channel_id,
                &m.signer,
            ) {
                Ok(()) => Ok(result),
                Err(e) => Err(e),
            }
        },
        ChannelMsg::ChannelCloseConfirm(m) => {
            match module.on_chan_close_confirm(
                output,
                &result.record.port_id,
                &result.channel_id,
                &m.signer,
            ) {
                Ok(()) => Ok(result),
                Err(e) => Err(e),
            }
        },
    }
}

/// The call that a packet message makes on the application module.
pub open spec fn packet_call(msg: &PacketMsg) -> CallView {
    match msg {
        PacketMsg::RecvPacket(m) => CallView::RecvPacket { packet: m.packet@, relayer: m.signer@ },
        PacketMsg::AckPacket(m) => CallView::AcknowledgementPacket {
            packet: m.packet@,
            acknowledgement: m.acknowledgement@,
            relayer: m.signer@,
        },
        PacketMsg::TimeoutPacket(m) => CallView::TimeoutPacket {
            packet: m.packet@,
            relayer: m.signer@,
        },
        PacketMsg::TimeoutOnClosePacket(m) => CallView::TimeoutPacket {
            packet: m.packet@,
            relayer: m.signer@,
        },
    }
}

/// The acknowledgement to write once the module has answered: the one that the module
/// gave for a received packet.
pub open spec fn written(msg: &PacketMsg, reply: Reply) -> Option<Seq<u8>> {
    match (msg, reply) {
        (PacketMsg::RecvPacket(_), Reply::Received { acknowledgement, .. }) => Some(
            acknowledgement,
        ),
        _ => None,
    }
}

/// Calls the callback of `module` that belongs to the packet message. For a received
/// packet the acknowledgement comes back.
pub fn packet_callback<M: Module>(module: &mut M, msg: &PacketMsg, output: &mut HandlerOutput) -> (answer:
    Result<Option<Vec<u8>>, Error>)
    ensures
        ({
            let reaction = M::react(old(module)@, packet_call(msg));
            &&& final(module)@ == reaction.state
            &&& final(output)@ == old(output)@.then_output(reaction.output)
            &&& match answer {
                Ok(Some(acknowledgement)) => reaction.result is Ok && written(
                    msg,
                    reaction.result->Ok_0,
                ) == Some(acknowledgement@),
                Ok(None) => reaction.result is Ok && written(msg, reaction.result->Ok_0).is_none(),
                Err(e) => reaction.result == Err::<Reply, Error>(e),
            }
        }),
{
    match msg {
        PacketMsg::RecvPacket(m) => {
            let mut packet = m.packet.clone();
            match module.on_recv_packet(output, &mut packet, &m.signer) {
                Ok(acknowledgement) => Ok(Some(acknowledgement)),
                Err(e) => Err(e),
            }
        },
        PacketMsg::AckPacket(m) => {
            match module.on_acknowledgement_packet(output, &m.packet, &m.acknowledgement, &m.signer) {
                Ok(()) => Ok(None),
                Err(e) => Err(e),
            }
        },
        PacketMsg::TimeoutPacket(m) => {
            match module.on_timeout_packet(output, &m.packet, &m.signer) {
                Ok(()) => Ok(None),
                Err(e) => Err(e),
            }
        },
        PacketMsg::TimeoutOnClosePacket(m) => {
            match module.on_timeout_packet(output, &m.packet, &m.signer) {
                Ok(()) => Ok(None),
                Err(e) => Err(e),
            }
        },
    }
}

/// What a dispatch comes to: the context afterwards, and the events and log lines or the
/// error.
pub struct Dispatched<S> {
    pub context: ContextView<S>,
    pub result: Result<OutputView, Error>,
}

/// What is reported when the acknowledgement of a received packet is written.
pub open spec fn written_output(msg: &PacketMsg) -> OutputView {
    OutputView::single(
        Event::WriteAcknowledgement {
            channel_id: msg.packet().destination_channel,
            sequence: msg.packet().sequence,
        },
        "acknowledgement written"@,
    )
}

/// What the dispatch of a channel message comes to.
///
/// The port must be bound to a registered module (else `ModuleNotFound`). The handshake
/// step is computed; then the module is called. Where it rejects, the dispatch fails
/// with `ApplicationCallbackRejected` and nothing is left behind: the store stays as it
/// was, and the module is put back into the state it was in before the call. Else the
/// channel result is committed, with the version that the module settled on.
pub open spec fn channel_dispatched<V: ProofVerifier, M: Module>(
    ctx: ContextView<M::V>,
    verifier: &V,
    msg: &ChannelMsg,
) -> Dispatched<M::V> {
    match ctx.registry.route(msg.port()) {
        None => Dispatched { context: ctx, result: Err(Error::ModuleNotFound) },
        Some(position) => match channel_outcome(ctx.store, verifier, msg) {
            Err(e) => Dispatched { context: ctx, result: Err(e) },
            Ok(outcome) => {
                let reaction = M::react(
                    ctx.registry.modules[position],
                    channel_call(msg, outcome.result),
                );
                let registry = ctx.registry.with_state(position, reaction.state);
                match reaction.result {
                    Err(_) => Dispatched {
                        context: ctx,
                        result: Err(Error::ApplicationCallbackRejected),
                    },
                    Ok(reply) => Dispatched {
                        context: ContextView {
                            store: ctx.store.with_channel(settled(outcome.result, reply)),
                            registry,
                            ..ctx
                        },
                        result: Ok(outcome.output.then_output(reaction.output)),
                    },
                }
            },
        },
    }
}

/// What the dispatch of a packet message comes to.
///
/// The port must be bound to a registered module (else `ModuleNotFound`). The lifecycle
/// step is computed. A receive that turns out to be a replay ends here: nothing is
/// committed and no module is called. Else the module is called. Where it rejects, the
/// dispatch fails with `ApplicationCallbackRejected` and nothing is left behind: the
/// store stays as it was, and the module is put back into the state it was in before the
/// call. Else the packet result is committed, and for a received packet the acknowledgement that the
/// module gave is written.
pub open spec fn packet_dispatched<V: ProofVerifier, M: Module>(
    ctx: ContextView<M::V>,
    verifier: &V,
    msg: &PacketMsg,
) -> Dispatched<M::V> {
    match ctx.registry.route(msg.port()) {
        None => Dispatched { context: ctx, result: Err(Error::ModuleNotFound) },
        Some(position) => match packet_outcome(ctx.store, verifier, ctx.now, msg) {
            Err(e) => Dispatched { context: ctx, result: Err(e) },
            Ok(outcome) => {
                let reaction = M::react(ctx.registry.modules[position], packet_call(msg));
                let registry = ctx.registry.with_state(position, reaction.state);
                let stored = ctx.store.with_packet(outcome.result);
                let reported = outcome.output.then_output(reaction.output);
                if outcome.result == PacketResultView::Recv(RecvPacketResult::NoOp) {
                    Dispatched { context: ctx, result: Ok(outcome.output) }
                } else {
                    match reaction.result {
                        Err(_) => Dispatched {
                            context: ctx,
                            result: Err(Error::ApplicationCallbackRejected),
                        },
                        Ok(reply) => match written(msg, reply) {
                            Some(acknowledgement) => Dispatched {
                                context: ContextView {
                                    store: stored.with_packet(
                                        PacketResultView::WriteAck {
                                            channel_id: msg.packet().destination_channel,
                                            sequence: msg.packet().sequence,
                                            acknowledgement,
                                        },
                                    ),
                                    registry,
                                    ..ctx
                                },
                                result: Ok(reported.then_output(written_output(msg))),
                            },
                            None => Dispatched {
                                context: ContextView { store: stored, registry, ..ctx },
                                result: Ok(reported),
                            },
                        },
                    }
                }
            },
        },
    }
}

/// What the dispatch of `msg` comes to, from the context `ctx` with the verifier
/// `verifier`.
///
/// A client or connection message is computed by its state machine and committed. A
/// channel or packet message also passes the application module bound to its port. Where
/// the result is an error, the store is the one of `ctx`.
pub open spec fn dispatched<V: ProofVerifier, M: Module>(
    ctx: ContextView<M::V>,
    verifier: &V,
    msg: &Ics26Envelope,
) -> Dispatched<M::V> {
    match msg {
        Ics26Envelope::Ics2Msg(m) => match client_outcome(ctx.store, verifier, m) {
            Err(e) => Dispatched { context: ctx, result: Err(e) },
            Ok(outcome) => Dispatched {
                context: ContextView { store: ctx.store.with_client(outcome.result), ..ctx },
                result: Ok(outcome.output),
            },
        },
        Ics26Envelope::Ics3Msg(m) => match connection_outcome(ctx.store, verifier, m) {
            Err(e) => Dispatched { context: ctx, result: Err(e) },
            Ok(outcome) => Dispatched {
                context: ContextView { store: ctx.store.with_connection(outcome.result), ..ctx },
                result: Ok(outcome.output),
            },
        },
        Ics26Envelope::Ics4ChannelMsg(m) => channel_dispatched::<V, M>(ctx, verifier, m),
        Ics26Envelope::Ics4PacketMsg(m) => packet_dispatched::<V, M>(ctx, verifier, m),
    }
}

/// Whether an answer of the dispatcher is the result that the model gives.
pub open spec fn dispatch_answer(
    answer: Result<HandlerOutput, Error>,
    result: Result<OutputView, Error>,
) -> bool {
    match answer {
        Ok(output) => result == Ok::<OutputView, Error>(output@),
        Err(e) => result == Err::<OutputView, Error>(e),
    }
}

/// Routes `msg` to its state machine, calls the application module that is bound to its
/// port, and commits the result to the store of `ctx`.
///
/// The message applies as a whole or not at all: where an error comes back, the store,
/// the registry and every module are as they were before. A module that rejected is put
/// back into the state it was in before it was called.
#[verifier::rlimit(40)]
pub fn dispatch<V: ProofVerifier, M: Module>(ctx: &mut Context<V, M>, msg: Ics26Envelope) -> (answer:
    Result<HandlerOutput, Error>)
    ensures
        final(ctx)@ == dispatched::<V, M>(old(ctx)@, &old(ctx).verifier, &msg).context,
        dispatch_answer(answer, dispatched::<V, M>(old(ctx)@, &old(ctx).verifier, &msg).result),
        final(ctx).verifier == old(ctx).verifier,
        answer is Err ==> final(ctx)@ == old(ctx)@,
{
    match &msg {
        Ics26Envelope::Ics2Msg(m) => {
            let (result, output) = match crate::client::dispatch(&ctx.store, &ctx.verifier, m) {
                Err(e) => {
                    return Err(e);
                },
                Ok(handled) => handled,
            };
            ctx.store.store_client_result(result);
            Ok(output)
        },
        Ics26Envelope::Ics3Msg(m) => {
            let (result, output) = match crate::connection::dispatch(&ctx.store, &ctx.verifier, m) {
                Err(e) => {
                    return Err(e);
                },
                Ok(handled) => handled,
            };
            ctx.store.store_connection_result(result);
            Ok(output)
        },
        Ics26Envelope::Ics4ChannelMsg(m) => {
            let position = match ctx.registry.route(m.port_id()) {
                None => {
                    return Err(Error::ModuleNotFound);
                },
                Some(position) => position,
            };
            let (result, mut output) = match channel_dispatch(&ctx.store, &ctx.verifier, m) {
                Err(e) => {
                    return Err(e);
                },
                Ok(handled) => handled,
            };
            let mut module_output = HandlerOutput::new();
            let mut entry = ctx.registry.modules.remove(position);
            let before_call = entry.module.snapshot();
            let called = channel_callback(&mut entry.module, m, result, &mut module_output);
            if called.is_err() {
                entry.module = before_call;
            }
            ctx.registry.modules.insert(position, entry);
            proof {
                let before = old(ctx)@.registry;
                assert(ctx@.registry.module_ids =~= before.module_ids);
                assert(ctx@.registry.modules =~= before.modules.update(
                    position as int,
                    entry.module@,
                ));
                if called is Err {
                    assert(ctx@.registry.modules =~= before.modules);
                }
            }
            output.merge(module_output);
            let result = match called {
                Err(_) => {
                    return Err(Error::ApplicationCallbackRejected);
                },
                Ok(result) => result,
            };
            ctx.store.store_channel_result(result);
            Ok(output)
        },
        Ics26Envelope::Ics4PacketMsg(m) => {
            let position = match ctx.registry.route(m.port_id()) {
                None => {
                    return Err(Error::ModuleNotFound);
                },
                Some(position) => position,
            };
            let (result, mut output) = match packet_dispatch(
                &ctx.store,
                &ctx.verifier,
                ctx.now,
                m,
            ) {
                Err(e) => {
                    return Err(e);
                },
                Ok(handled) => handled,
            };
            if let PacketResult::Recv(RecvPacketResult::NoOp) = result {
                return Ok(output);
            }
            let mut module_output = HandlerOutput::new();
            let mut entry = ctx.registry.modules.remove(position);
            let before_call = entry.module.snapshot();
            let called = packet_callback(&mut entry.module, m, &mut module_output);
            if called.is_err() {
                entry.module = before_call;
            }
            ctx.registry.modules.insert(position, entry);
            proof {
                let before = old(ctx)@.registry;
                assert(ctx@.registry.module_ids =~= before.module_ids);
                assert(ctx@.registry.modules =~= before.modules.update(
                    position as int,
                    entry.module@,
                ));
                if called is Err {
                    assert(ctx@.registry.modules =~= before.modules);
                }
            }
            output.merge(module_output);
            let acknowledgement = match called {
                Err(_) => {
                    return Err(Error::ApplicationCallbackRejected);
                },
                Ok(acknowledgement) => acknowledgement,
            };
            ctx.store.store_packet_result(result);
            match acknowledgement {
                Some(acknowledgement) => {
                    let packet = m.packet_ref();
                    ctx.store.store_packet_result(
                        PacketResult::WriteAck {
                            channel_id: packet.destination_channel,
                            sequence: packet.sequence,
                            acknowledgement,
                        },
                    );
                    output.merge(
                        HandlerOutput::single(
                            Event::WriteAcknowledgement {
                                channel_id: packet.destination_channel,
                                sequence: packet.sequence,
                            },
                            "acknowledgement written",
                        ),
                    );
                },
                None => {},
            }
            Ok(output)
        },
    }
}

/// Decodes `message` and dispatches it: the entry point for one message of a
/// transaction. A malformed envelope fails before anything is looked at and changes
/// nothing; else the message that the payload reads as is dispatched, and the events
/// and log lines come back as a receipt. Whatever envelope the payload reads as, the
/// context and the answer are what dispatching that envelope comes to.
pub fn deliver<V: ProofVerifier, M: Module>(ctx: &mut Context<V, M>, message: RawMessage) -> (answer:
    Result<MsgReceipt, Error>)
    ensures
        !well_formed(&message) ==> answer == Err::<MsgReceipt, Error>(Error::MalformedEnvelope)
            && final(ctx)@ == old(ctx)@,
        well_formed(&message) ==> exists|envelope: Ics26Envelope|
            #![trigger message.value.reads_as(&envelope)]
            {
                &&& message.value.reads_as(&envelope)
                &&& final(ctx)@ == dispatched::<V, M>(
                    old(ctx)@,
                    &old(ctx).verifier,
                    &envelope,
                ).context
                &&& match answer {
                    Ok(receipt) => dispatched::<V, M>(
                        old(ctx)@,
                        &old(ctx).verifier,
                        &envelope,
                    ).result == Ok::<OutputView, Error>(receipt@),
                    Err(e) => dispatched::<V, M>(old(ctx)@, &old(ctx).verifier, &envelope).result
                        == Err::<OutputView, Error>(e),
                }
            },
        forall|envelope: Ics26Envelope|
            #![trigger message.value.reads_as(&envelope)]
            well_formed(&message) && message.value.reads_as(&envelope) ==> {
                &&& final(ctx)@ == dispatched::<V, M>(
                    old(ctx)@,
                    &old(ctx).verifier,
                    &envelope,
                ).context
                &&& match answer {
                    Ok(receipt) => dispatched::<V, M>(
                        old(ctx)@,
                        &old(ctx).verifier,
                        &envelope,
                    ).result == Ok::<OutputView, Error>(receipt@),
                    Err(e) => dispatched::<V, M>(old(ctx)@, &old(ctx).verifier, &envelope).result
                        == Err::<OutputView, Error>(e),
                }
            },
        final(ctx).verifier == old(ctx).verifier,
        answer is Err ==> final(ctx)@ == old(ctx)@,
{
    let envelope = match decode(message) {
        Err(e) => {
            return Err(e);
        },
        Ok(envelope) => envelope,
    };
    let ghost decoded = envelope;
    let answer = match dispatch(ctx, envelope) {
        Err(e) => Err(e),
        Ok(output) => Ok(MsgReceipt { events: output.events, log: output.log }),
    };
    assert(message.value.reads_as(&decoded));
    assert forall|envelope: Ics26Envelope| #[trigger]
        message.value.reads_as(&envelope) implies dispatched::<V, M>(
        old(ctx)@,
        &old(ctx).verifier,
        &envelope,
    ) == dispatched::<V, M>(old(ctx)@, &old(ctx).verifier, &decoded) by {
        law_reading_decides_delivery::<V, M>(
            old(ctx)@,
            &old(ctx).verifier,
            &message.value,
            &envelope,
            &decoded,
        );
    }
    answer
}

} // verus!
