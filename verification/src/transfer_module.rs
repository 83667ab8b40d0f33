//! A small token-transfer module: it credits what it receives to a ledger in memory and
//! consents to everything else. It serves where a module is needed and none is at hand.

use crate::bank::{credited, moved, BalanceView, BankKeeper, Coin, Ledger};
use crate::error::Error;
use crate::json::json_members;
use crate::module::{CallView, Counterparty, Module, Reaction, Reply};
use crate::output::{HandlerOutput, OutputView};
use crate::packet::{Packet, PacketView};
use crate::transfer::{
    decode_packet_data, failure_ack, local_denom, local_denom_of, payload_in, success_ack,
};
use crate::types::{ChannelId, ConnectionId, Order, PortId, Signer};
use vstd::prelude::*;
use vstd::string::*;

verus! {

/// A transfer module over a ledger in memory.
#[derive(Debug)]
pub struct DummyTransferModule {
    pub bank: Ledger,
}

impl View for DummyTransferModule {
    type V = Seq<BalanceView>;

    open spec fn view(&self) -> Seq<BalanceView> {
        self.bank@
    }
}

/// A reaction that consents, changes nothing and reports nothing.
pub open spec fn consent(state: Seq<BalanceView>, reply: Reply) -> Reaction<Seq<BalanceView>> {
    Reaction { state, result: Ok(reply), output: OutputView::empty() }
}

/// The reaction to a received packet: where the data holds a transfer payload and the
/// receiver's balance has room, the receiver is credited with the full amount, in the
/// denomination under which this ledger keeps the token, and the acknowledgement reports
/// success. Else nothing changes and the acknowledgement reports failure. The packet is
/// left as it came.
pub open spec fn received(state: Seq<BalanceView>, packet: PacketView) -> Reaction<
    Seq<BalanceView>,
> {
    let failed = consent(state, Reply::Received { acknowledgement: failure_ack(), packet });
    match payload_in(json_members(packet.data)) {
        None => failed,
        Some(data) => match credited(
            state,
            data.receiver,
            local_denom(packet, data.denom),
            data.amount,
        ) {
            None => failed,
            Some(after) => consent(
                after,
                Reply::Received { acknowledgement: success_ack(), packet },
            ),
        },
    }
}

impl DummyTransferModule {
    /// A module over a ledger on which nobody holds anything.
    pub fn new() -> (module: DummyTransferModule)
        ensures
            module@ == Seq::<BalanceView>::empty(),
    {
        DummyTransferModule { bank: Ledger::new() }
    }
}

impl Default for DummyTransferModule {
    fn default() -> (module: DummyTransferModule)
        ensures
            module@ == Seq::<BalanceView>::empty(),
    {
        DummyTransferModule::new()
    }
}

impl BankKeeper for DummyTransferModule {
    open spec fn after_send(
        state: Seq<BalanceView>,
        from: Seq<char>,
        to: Seq<char>,
        denom: Seq<char>,
        amount: u128,
    ) -> Option<Seq<BalanceView>> {
        moved(state, from, to, denom, amount)
    }

    fn send_coins(&mut self, from: &str, to: &str, coin: &Coin) -> (r: Result<(), Error>) {
        self.bank.send_coins(from, to, coin)
    }
}

impl Module for DummyTransferModule {
    open spec fn react(state: Seq<BalanceView>, call: CallView) -> Reaction<Seq<BalanceView>> {
        match call {
            CallView::RecvPacket { packet, .. } => received(state, packet),
            CallView::ChanOpenTry { version, .. } => consent(state, Reply::Version(version)),
            _ => consent(state, Reply::Done),
        }
    }

    fn snapshot(&self) -> (copy: DummyTransferModule) {
        DummyTransferModule { bank: self.bank.snapshot() }
    }

    fn on_chan_open_init(
        &mut self,
        output: &mut HandlerOutput,
        order: Order,
        connection_hops: &Vec<ConnectionId>,
        port_id: &PortId,
        channel_id: &ChannelId,
        counterparty: &Counterparty,
        version: &String,
        relayer: &Signer,
    ) -> (answer: Result<(), Error>) {
        assert(output@ == output@.then_output(OutputView::empty()));
        Ok(())
    }

    fn on_chan_open_try(
        &mut self,
        output: &mut HandlerOutput,
        order: Order,
        connection_hops: &Vec<ConnectionId>,
        port_id: &PortId,
        channel_id: &ChannelId,
        counterparty: &Counterparty,
        version: &String,
        counterparty_version: &String,
        relayer: &Signer,
    ) -> (answer: Result<String, Error>) {
        assert(output@ == output@.then_output(OutputView::empty()));
        Ok(version.clone())
    }

    fn on_chan_open_ack(
        &mut self,
        output: &mut HandlerOutput,
        port_id: &PortId,
        channel_id: &ChannelId,
        counterparty_version: &String,
        relayer: &Signer,
    ) -> (answer: Result<(), Error>) {
        assert(output@ == output@.then_output(OutputView::empty()));
        Ok(())
    }

    fn on_chan_open_confirm(
        &mut self,
        output: &mut HandlerOutput,
        port_id: &PortId,
        channel_id: &ChannelId,
        relayer: &Signer,
    ) -> (answer: Result<(), Error>) {
        assert(output@ == output@.then_output(OutputView::empty()));
        Ok(())
    }

    fn on_chan_close_init(
        &mut self,
        output: &mut HandlerOutput,
        port_id: &PortId,
        channel_id: &ChannelId,
        relayer: &Signer,
    ) -> (answer: Result<(), Error>) {
        assert(output@ == output@.then_output(OutputView::empty()));
        Ok(())
    }

    fn on_chan_close_confirm(
        &mut self,
        output: &mut HandlerOutput,
        port_id: &PortId,
        channel_id: &ChannelId,
        relayer: &Signer,
    ) -> (answer: Result<(), Error>) {
        assert(output@ == output@.then_output(OutputView::empty()));
        Ok(())
    }

    fn on_recv_packet(
        &mut self,
        output: &mut HandlerOutput,
        packet: &mut Packet,
        relayer: &Signer,
    ) -> (answer: Result<Vec<u8>, Error>) {
        assert(output@ == output@.then_output(OutputView::empty()));
        let data = match decode_packet_data(&packet.data) {
            Some(data) => data,
            None => {
                return Ok("{\"error\":\"transfer failed\"}".as_bytes_vec());
            },
        };
        let denom = local_denom_of(packet, data.denom.as_str());
        if self.bank.mint(data.receiver.as_str(), denom.as_str(), data.amount) {
            Ok("{\"result\":\"AQ==\"}".as_bytes_vec())
        } else {
            Ok("{\"error\":\"transfer failed\"}".as_bytes_vec())
        }
    }

    fn on_acknowledgement_packet(
        &mut self,
        output: &mut HandlerOutput,
        packet: &Packet,
        acknowledgement: &Vec<u8>,
        relayer: &Signer,
    ) -> (answer: Result<(), Error>) {
        assert(output@ == output@.then_output(OutputView::empty()));
        Ok(())
    }

    fn on_timeout_packet(
        &mut self,
        output: &mut HandlerOutput,
        packet: &Packet,
        relayer: &Signer,
    ) -> (answer: Result<(), Error>) {
        assert(output@ == output@.then_output(OutputView::empty()));
        Ok(())
    }
}

} // verus!
