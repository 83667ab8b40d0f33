//! The application-module callback protocol, and the registry that binds ports to modules.

use crate::error::Error;
use crate::output::{HandlerOutput, OutputView};
use crate::packet::{Packet, PacketView};
use crate::types::{ChannelId, ConnectionId, ModuleId, Order, PortId, Signer};
use vstd::prelude::*;

verus! {

/// The far end of a channel, as a module is told of it.
#[derive(Debug)]
pub struct Counterparty {
    pub port_id: PortId,
    pub channel_id: Option<ChannelId>,
}

/// The mathematical content of a [`Counterparty`].
pub struct CounterpartyView {
    pub port_id: Seq<char>,
    pub channel_id: Option<ChannelId>,
}

impl View for Counterparty {
    type V = CounterpartyView;

    open spec fn view(&self) -> CounterpartyView {
        CounterpartyView { port_id: self.port_id@, channel_id: self.channel_id }
    }
}

/// One callback with its arguments.
pub enum CallView {
    ChanOpenInit {
        order: Order,
        connection_hops: Seq<ConnectionId>,
        port_id: Seq<char>,
        channel_id: ChannelId,
        counterparty: CounterpartyView,
        version: Seq<char>,
        relayer: Seq<char>,
    },
    ChanOpenTry {
        order: Order,
        connection_hops: Seq<ConnectionId>,
        port_id: Seq<char>,
        channel_id: ChannelId,
        counterparty: CounterpartyView,
        version: Seq<char>,
        counterparty_version: Seq<char>,
        relayer: Seq<char>,
    },
    ChanOpenAck {
        port_id: Seq<char>,
        channel_id: ChannelId,
        counterparty_version: Seq<char>,
        relayer: Seq<char>,
    },
    ChanOpenConfirm { port_id: Seq<char>, channel_id: ChannelId, relayer: Seq<char> },
    ChanCloseInit { port_id: Seq<char>, channel_id: ChannelId, relayer: Seq<char> },
    ChanCloseConfirm { port_id: Seq<char>, channel_id: ChannelId, relayer: Seq<char> },
    RecvPacket { packet: PacketView, relayer: Seq<char> },
    AcknowledgementPacket { packet: PacketView, acknowledgement: Seq<u8>, relayer: Seq<char> },
    TimeoutPacket { packet: PacketView, relayer: Seq<char> },
}

/// What a callback hands back when it does not reject.
pub enum Reply {
    /// Nothing but consent.
    Done,
    /// The channel version that the module settles on.
    Version(Seq<char>),
    /// The acknowledgement for a received packet, and the packet as the module leaves it.
    Received { acknowledgement: Seq<u8>, packet: PacketView },
}

/// What a call does: the module's state afterwards, what it hands back or the error it
/// rejects with, and what it reports.
pub struct Reaction<S> {
    pub state: S,
    pub result: Result<Reply, Error>,
    pub output: OutputView,
}

/// A callback left the module and the output as the reaction says.
pub open spec fn reacted<S>(
    reaction: Reaction<S>,
    state_after: S,
    output_before: OutputView,
    output_after: OutputView,
) -> bool {
    state_after == reaction.state && output_after == output_before.then_output(reaction.output)
}

/// A callback without a value of its own answered as the reaction says.
pub open spec fn answered_done(answer: Result<(), Error>, result: Result<Reply, Error>) -> bool {
    match answer {
        Ok(()) => result == Ok::<Reply, Error>(Reply::Done),
        Err(e) => result == Err::<Reply, Error>(e),
    }
}

/// The capability set of an application module: ledger-specific logic that hooks into
/// channel and packet events.
///
/// A module is a state machine: `react` gives, for a state and a call, the state
/// afterwards, the answer and what is reported, and each callback does just that. A
/// callback that does not care about a flow answers `Done` and changes nothing. The
/// state that `react` gives with a rejection is the state in which the module stops; the
/// dispatcher does not keep it.
pub trait Module: View + Sized {
    /// What the module in `state` does on `call`.
    spec fn react(state: Self::V, call: CallView) -> Reaction<Self::V>;

    /// A copy of the module in the state it is in. The dispatcher takes one before it
    /// calls the module, and puts it back where the module rejects.
    fn snapshot(&self) -> (copy: Self)
        ensures
            copy@ == self@,
    ;

    fn on_chan_open_init(
        &mut self,
        output: &mut HandlerOutput,
        order: Order,
        connection_hops: &Vec<ConnectionId>,
        port_id: &PortId,
        channel_id: &ChannelId,
        counterparty: &Counterparty,
        version: &String,
        relayer: &Signer,
    ) -> (answer: Result<(), Error>)
        ensures
            ({
                let reaction = Self::react(
                    old(self)@,
                    CallView::ChanOpenInit {
                        order,
                        connection_hops: connection_hops@,
                        port_id: port_id@,
                        channel_id: *channel_id,
                        counterparty: counterparty@,
                        version: version@,
                        relayer: relayer@,
                    },
                );
                &&& reacted(reaction, final(self)@, old(output)@, final(output)@)
                &&& answered_done(answer, reaction.result)
            }),
    ;

    fn on_chan_open_try(
        &mut self,
        output: &mut HandlerOutput,
        order: Order,
        connection_hops: &Vec<ConnectionId>,
        port_id: &PortId,
        channel_id: &ChannelId,
        counterparty: &Counterparty,
        version: &String,
        counterparty_version: &String,
        relayer: &Signer,
    ) -> (answer: Result<String, Error>)
        ensures
            ({
                let reaction = Self::react(
                    old(self)@,
                    CallView::ChanOpenTry {
                        order,
                        connection_hops: connection_hops@,
                        port_id: port_id@,
                        channel_id: *channel_id,
                        counterparty: counterparty@,
                        version: version@,
                        counterparty_version: counterparty_version@,
                        relayer: relayer@,
                    },
                );
                &&& reacted(reaction, final(self)@, old(output)@, final(output)@)
                &&& match answer {
                    Ok(settled) => reaction.result == Ok::<Reply, Error>(Reply::Version(settled@)),
                    Err(e) => reaction.result == Err::<Reply, Error>(e),
                }
            }),
    ;

    fn on_chan_open_ack(
        &mut self,
        output: &mut HandlerOutput,
        port_id: &PortId,
        channel_id: &ChannelId,
        counterparty_version: &String,
        relayer: &Signer,
    ) -> (answer: Result<(), Error>)
        ensures
            ({
                let reaction = Self::react(
                    old(self)@,
                    CallView::ChanOpenAck {
                        port_id: port_id@,
                        channel_id: *channel_id,
                        counterparty_version: counterparty_version@,
                        relayer: relayer@,
                    },
                );
                &&& reacted(reaction, final(self)@, old(output)@, final(output)@)
                &&& answered_done(answer, reaction.result)
            }),
    ;

    fn on_chan_open_confirm(
        &mut self,
        output: &mut HandlerOutput,
        port_id: &PortId,
        channel_id: &ChannelId,
        relayer: &Signer,
    ) -> (answer: Result<(), Error>)
        ensures
            ({
                let reaction = Self::react(
                    old(self)@,
                    CallView::ChanOpenConfirm {
                        port_id: port_id@,
                        channel_id: *channel_id,
                        relayer: relayer@,
                    },
                );
                &&& reacted(reaction, final(self)@, old(output)@, final(output)@)
                &&& answered_done(answer, reaction.result)
            }),
    ;

    fn on_chan_close_init(
        &mut self,
        output: &mut HandlerOutput,
        port_id: &PortId,
        channel_id: &ChannelId,
        relayer: &Signer,
    ) -> (answer: Result<(), Error>)
        ensures
            ({
                let reaction = Self::react(
                    old(self)@,
                    CallView::ChanCloseInit {
                        port_id: port_id@,
                        channel_id: *channel_id,
                        relayer: relayer@,
                    },
                );
                &&& reacted(reaction, final(self)@, old(output)@, final(output)@)
                &&& answered_done(answer, reaction.result)
            }),
    ;

    fn on_chan_close_confirm(
        &mut self,
        output: &mut HandlerOutput,
        port_id: &PortId,
        channel_id: &ChannelId,
        relayer: &Signer,
    ) -> (answer: Result<(), Error>)
        ensures
            ({
                let reaction = Self::react(
                    old(self)@,
                    CallView::ChanCloseConfirm {
                        port_id: port_id@,
                        channel_id: *channel_id,
                        relayer: relayer@,
                    },
                );
                &&& reacted(reaction, final(self)@, old(output)@, final(output)@)
                &&& answered_done(answer, reaction.result)
            }),
    ;

    /// Hands a received packet to the application. The acknowledgement that comes back is
    /// committed whether it reports success or an application-level failure; only an
    /// error rejects the receipt. The module may rewrite the packet for those who look at
    /// it afterwards; a module that rejects leaves the packet as it came.
    fn on_recv_packet(
        &mut self,
        output: &mut HandlerOutput,
        packet: &mut Packet,
        relayer: &Signer,
    ) -> (answer: Result<Vec<u8>, Error>)
        ensures
            ({
                let reaction = Self::react(
                    old(self)@,
                    CallView::RecvPacket { packet: old(packet)@, relayer: relayer@ },
                );
                &&& reacted(reaction, final(self)@, old(output)@, final(output)@)
                &&& match answer {
                    Ok(acknowledgement) => reaction.result == Ok::<Reply, Error>(
                        Reply::Received {
                            acknowledgement: acknowledgement@,
                            packet: final(packet)@,
                        },
                    ),
                    Err(e) => reaction.result == Err::<Reply, Error>(e) && final(packet)@ == old(
                        packet,
                    )@,
                }
            }),
    ;

    fn on_acknowledgement_packet(
        &mut self,
        output: &mut HandlerOutput,
        packet: &Packet,
        acknowledgement: &Vec<u8>,
        relayer: &Signer,
    ) -> (answer: Result<(), Error>)
        ensures
            ({
                let reaction = Self::react(
                    old(self)@,
                    CallView::AcknowledgementPacket {
                        packet: packet@,
                        acknowledgement: acknowledgement@,
                        relayer: relayer@,
                    },
                );
                &&& reacted(reaction, final(self)@, old(output)@, final(output)@)
                &&& answered_done(answer, reaction.result)
            }),
    ;

    fn on_timeout_packet(
        &mut self,
        output: &mut HandlerOutput,
        packet: &Packet,
        relayer: &Signer,
    ) -> (answer: Result<(), Error>)
        ensures
            ({
                let reaction = Self::react(
                    old(self)@,
                    CallView::TimeoutPacket { packet: packet@, relayer: relayer@ },
                );
                &&& reacted(reaction, final(self)@, old(output)@, final(output)@)
                &&& answered_done(answer, reaction.result)
            }),
    ;
}

/// A port bound to a module.
#[derive(Debug)]
pub struct Binding {
    pub port_id: PortId,
    pub module_id: ModuleId,
}

/// A module under its identifier.
#[derive(Debug)]
pub struct Registered<M> {
    pub module_id: ModuleId,
    pub module: M,
}

/// The modules of a ledger, and the ports bound to them.
#[derive(Debug)]
pub struct Registry<M> {
    pub modules: Vec<Registered<M>>,
    pub bindings: Vec<Binding>,
}

/// The mathematical content of a [`Registry`]: for each module its identifier and its
/// state, for each binding its port and its module identifier, in the order in which
/// they were added.
pub struct RegistryView<S> {
    pub module_ids: Seq<Seq<char>>,
    pub modules: Seq<S>,
    pub ports: Seq<Seq<char>>,
    pub bound: Seq<Seq<char>>,
}

impl<M: Module> View for Registry<M> {
    type V = RegistryView<M::V>;

    open spec fn view(&self) -> RegistryView<M::V> {
        RegistryView {
            module_ids: self.modules@.map_values(|r: Registered<M>| r.module_id@),
            modules: self.modules@.map_values(|r: Registered<M>| r.module@),
            ports: self.bindings@.map_values(|b: Binding| b.port_id@),
            bound: self.bindings@.map_values(|b: Binding| b.module_id@),
        }
    }
}

impl<S> RegistryView<S> {
    /// A registry without modules and bindings.
    pub open spec fn empty() -> RegistryView<S> {
        RegistryView {
            module_ids: Seq::empty(),
            modules: Seq::empty(),
            ports: Seq::empty(),
            bound: Seq::empty(),
        }
    }

    /// The identifier of the module that `port` is bound to.
    pub open spec fn module_of(self, port: Seq<char>) -> Option<Seq<char>> {
        match self.ports.index_of_first(port) {
            Some(i) => Some(self.bound[i]),
            None => None,
        }
    }

    /// Where the module with the identifier `id` stands.
    pub open spec fn position_of(self, id: Seq<char>) -> Option<int> {
        self.module_ids.index_of_first(id)
    }

    /// Where the module stands that answers for `port`: the port must be bound, and to a
    /// module that is registered.
    pub open spec fn route(self, port: Seq<char>) -> Option<int> {
        match self.module_of(port) {
            Some(id) => self.position_of(id),
            None => None,
        }
    }

    /// The registry after `port` was bound to `module_id`.
    pub open spec fn with_binding(self, port: Seq<char>, module_id: Seq<char>) -> RegistryView<S> {
        RegistryView { ports: self.ports.push(port), bound: self.bound.push(module_id), ..self }
    }

    /// What binding `port` to `module_id` comes to: `PortAlreadyBound` where the port has
    /// a binding, else the registry with the new binding.
    pub open spec fn bound_to(self, port: Seq<char>, module_id: Seq<char>) -> Result<
        RegistryView<S>,
        Error,
    > {
        if self.module_of(port).is_some() {
            Err(Error::PortAlreadyBound)
        } else {
            Ok(self.with_binding(port, module_id))
        }
    }

    /// The registry after a module was added.
    pub open spec fn with_module(self, module_id: Seq<char>, state: S) -> RegistryView<S> {
        RegistryView {
            module_ids: self.module_ids.push(module_id),
            modules: self.modules.push(state),
            ..self
        }
    }

    /// The registry after the module at `position` came to `state`.
    pub open spec fn with_state(self, position: int, state: S) -> RegistryView<S> {
        RegistryView { modules: self.modules.update(position, state), ..self }
    }
}

/// Where `port` first stands among the bindings.
fn first_port(bindings: &Vec<Binding>, port: &PortId) -> (found: Option<usize>)
    ensures
        match found {
            Some(i) => bindings@.map_values(|b: Binding| b.port_id@).index_of_first(port@) == Some(
                i as int,
            ) && i < bindings.len(),
            None => bindings@.map_values(|b: Binding| b.port_id@).index_of_first(port@).is_none(),
        },
{
    let ghost keys = bindings@.map_values(|b: Binding| b.port_id@);
    proof {
        keys.index_of_first_ensures(port@);
    }
    let mut i: usize = 0;
    while i < bindings.len()
        invariant
            i <= bindings.len(),
            keys == bindings@.map_values(|b: Binding| b.port_id@),
            forall|j: int| 0 <= j < i ==> keys[j] != port@,
        decreases bindings.len() - i,
    {
        if bindings[i].port_id.same(port) {
            assert(keys[i as int] == port@);
            proof {
                keys.index_of_first_ensures(port@);
            }
            return Some(i);
        }
        i += 1;
    }
    assert(!keys.contains(port@));
    None
}

impl<M: Module> Registry<M> {
    /// A registry without modules and bindings.
    pub fn new() -> (registry: Registry<M>)
        ensures
            registry@ == RegistryView::<M::V>::empty(),
    {
        let registry = Registry { modules: Vec::new(), bindings: Vec::new() };
        assert(registry@.module_ids =~= Seq::empty());
        assert(registry@.modules =~= Seq::empty());
        assert(registry@.ports =~= Seq::empty());
        assert(registry@.bound =~= Seq::empty());
        registry
    }

    /// The identifier of the module that `port` is bound to.
    pub fn lookup(&self, port: &PortId) -> (found: Option<ModuleId>)
        ensures
            match found {
                Some(id) => self@.module_of(port@) == Some(id@),
                None => self@.module_of(port@).is_none(),
            },
    {
        match first_port(&self.bindings, port) {
            Some(i) => Some(self.bindings[i].module_id.clone()),
            None => None,
        }
    }

    /// Where the module with the identifier `id` stands.
    pub fn position(&self, id: &ModuleId) -> (found: Option<usize>)
        ensures
            match found {
                Some(i) => self@.position_of(id@) == Some(i as int) && i < self.modules.len(),
                None => self@.position_of(id@).is_none(),
            },
    {
        let ghost keys = self@.module_ids;
        proof {
            keys.index_of_first_ensures(id@);
        }
        let mut i: usize = 0;
        while i < self.modules.len()
            invariant
                i <= self.modules.len(),
                keys == self@.module_ids,
                forall|j: int| 0 <= j < i ==> keys[j] != id@,
            decreases self.modules.len() - i,
        {
            if self.modules[i].module_id.same(id) {
                assert(keys[i as int] == id@);
                proof {
                    keys.index_of_first_ensures(id@);
                }
                return Some(i);
            }
            i += 1;
        }
        assert(!keys.contains(id@));
        None
    }

    /// Where the module stands that answers for `port`.
    pub fn route(&self, port: &PortId) -> (found: Option<usize>)
        ensures
            match found {
                Some(i) => self@.route(port@) == Some(i as int) && i < self.modules.len(),
                None => self@.route(port@).is_none(),
            },
    {
        match self.lookup(port) {
            Some(id) => self.position(&id),
            None => None,
        }
    }

    /// Binds `port` to the module `module_id`. A port is bound once: binding it again, to
    /// the same module or another, fails with `PortAlreadyBound` and changes nothing.
    pub fn bind(&mut self, port: PortId, module_id: ModuleId) -> (r: Result<(), Error>)
        ensures
            match r {
                Ok(()) => old(self)@.bound_to(port@, module_id@) == Ok::<RegistryView<M::V>, Error>(
                    final(self)@,
                ),
                Err(e) => old(self)@.bound_to(port@, module_id@) == Err::<
                    RegistryView<M::V>,
                    Error,
                >(e) && final(self)@ == old(self)@,
            },
    {
        if first_port(&self.bindings, &port).is_some() {
            return Err(Error::PortAlreadyBound);
        }
        self.bindings.push(Binding { port_id: port, module_id });
        assert(self@.ports =~= old(self)@.ports.push(port@));
        assert(self@.bound =~= old(self)@.bound.push(module_id@));
        Ok(())
    }

    /// Registers `module` under `module_id`. Where the identifier is taken, nothing
    /// changes and the module comes back.
    pub fn add_route(&mut self, module_id: ModuleId, module: M) -> (rejected: Option<M>)
        ensures
            match rejected {
                None => old(self)@.position_of(module_id@).is_none() && final(self)@ == old(
                    self,
                )@.with_module(module_id@, module@),
                Some(back) => old(self)@.position_of(module_id@).is_some() && back@ == module@
                    && final(self)@ == old(self)@,
            },
    {
        if self.position(&module_id).is_some() {
            return Some(module);
        }
        self.modules.push(Registered { module_id, module });
        assert(self@.module_ids =~= old(self)@.module_ids.push(module_id@));
        assert(self@.modules =~= old(self)@.modules.push(module@));
        None
    }
}

} // verus!
