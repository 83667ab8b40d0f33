//! A decorator that charges a fee on received token transfers: it wraps an application
//! module, lets everything pass, and on a successful receipt moves a share of the amount
//! from the receiver to an account of its own.

use crate::bank::{BankKeeper, Coin};
use crate::error::Error;
use crate::json::json_members;
use crate::module::{CallView, Counterparty, Module, Reaction, Reply};
use crate::output::{Event, HandlerOutput, OutputView};
use crate::packet::{Packet, PacketView};
use crate::transfer::{
    decode_packet_data, encode_packet_data, encoded, is_success_ack, local_denom, local_denom_of,
    payload_in, success_ack, PacketDataView,
};
use crate::types::{ChannelId, ConnectionId, Order, PortId, Signer};
use vstd::prelude::*;

verus! {

/// A share in hundredths. More than a hundred counts as a hundred.
#[derive(Clone, Copy, Debug, PartialEq, Eq, Structural)]
pub struct Percent(pub u8);

/// The share `parts` hundredths of `amount`, rounded to the nearest whole with a half
/// going down: the whole hundreds of the amount are taken exactly, and the share of what
/// is left over is rounded.
pub open spec fn percent_mul(parts: u8, amount: u128) -> nat {
    let p: nat = if parts > 100 {
        100
    } else {
        parts as nat
    };
    let rest: nat = (amount as nat % 100) * p;
    (amount as nat / 100) * p + rest / 100 + if rest % 100 > 50 {
        1nat
    } else {
        0nat
    }
}

/// A share is never more than the amount it is taken of.
pub proof fn lemma_share_within_amount(parts: u8, amount: u128)
    ensures
        percent_mul(parts, amount) <= amount,
{
    let p: nat = if parts > 100 {
        100
    } else {
        parts as nat
    };
    let a = amount as nat;
    let q = a / 100;
    let r = a % 100;
    let rest = r * p;
    assert(a == q * 100 + r);
    assert(q * p <= q * 100) by (nonlinear_arith)
        requires
            p <= 100,
    ;
    assert(rest <= r * 100) by (nonlinear_arith)
        requires
            rest == r * p,
            p <= 100,
    ;
    if p == 100 {
        assert(rest % 100 == 0) by (nonlinear_arith)
            requires
                rest == r * 100,
        ;
        assert(rest / 100 == r) by (nonlinear_arith)
            requires
                rest == r * 100,
        ;
    } else if r == 0 {
        assert(rest == 0) by (nonlinear_arith)
            requires
                rest == r * p,
                r == 0,
        ;
    } else {
        assert(rest <= r * 100 - r) by (nonlinear_arith)
            requires
                rest == r * p,
                p <= 99,
        ;
        assert(rest / 100 < r);
    }
}

/// Takes `parts` hundredths of `amount`, with the multiplication of
/// `sp_runtime::Percent` by an integer.
///
/// Trusted: the product is `percent_mul`. The outside code caps the share at a hundred
/// hundredths, multiplies the whole hundreds of the amount exactly, and rounds the share
/// of the remainder to the nearest whole, a half going down.
#[verifier::external_body]
pub(crate) fn percent_of(parts: u8, amount: u128) -> (share: u128)
    ensures
        share == percent_mul(parts, amount),
{
    sp_runtime::Percent::from_percent(parts) * amount
}

/// The fee that `charge` takes of `amount`.
pub fn fee_of(charge: Percent, amount: u128) -> (fee: u128)
    ensures
        fee == percent_mul(charge.0, amount),
        fee <= amount,
{
    proof {
        lemma_share_within_amount(charge.0, amount);
    }
    percent_of(charge.0, amount)
}

/// The settings of the fee: the charge that was set, the charge that holds where none was
/// set, and the account that collects.
#[derive(Debug)]
pub struct Pallet {
    pub charge: Option<Percent>,
    pub default_charge: Percent,
    pub account: String,
}

/// The mathematical content of a [`Pallet`].
pub struct PalletView {
    pub charge: Option<Percent>,
    pub default_charge: Percent,
    pub account: Seq<char>,
}

impl View for Pallet {
    type V = PalletView;

    open spec fn view(&self) -> PalletView {
        PalletView {
            charge: self.charge,
            default_charge: self.default_charge,
            account: self.account@,
        }
    }
}

impl PalletView {
    /// The charge in force: the one that was set, else the default.
    pub open spec fn service_charge(self) -> Percent {
        match self.charge {
            Some(charge) => charge,
            None => self.default_charge,
        }
    }
}

impl Pallet {
    /// Settings with no charge set yet.
    pub fn new(default_charge: Percent, account: &str) -> (pallet: Pallet)
        ensures
            pallet@ == (PalletView { charge: None, default_charge, account: account@ }),
    {
        Pallet { charge: None, default_charge, account: account.to_owned() }
    }

    /// A copy of the settings.
    pub fn snapshot(&self) -> (copy: Pallet)
        ensures
            copy@ == self@,
    {
        Pallet {
            charge: self.charge,
            default_charge: self.default_charge,
            account: self.account.clone(),
        }
    }

    /// Sets the charge.
    pub fn set_charge(&mut self, charge: Percent)
        ensures
            final(self)@ == (PalletView { charge: Some(charge), ..old(self)@ }),
    {
        self.charge = Some(charge);
    }

    /// The charge in force.
    pub fn service_charge(&self) -> (charge: Percent)
        ensures
            charge == self@.service_charge(),
    {
        match self.charge {
            Some(charge) => charge,
            None => self.default_charge,
        }
    }

    /// The account that collects the fee.
    pub fn account_id(&self) -> (account: &str)
        ensures
            account@ == self@.account,
    {
        self.account.as_str()
    }
}

/// An application module with a fee on top.
#[derive(Debug)]
pub struct Ics20ServiceCharge<S> {
    pub inner: S,
    pub pallet: Pallet,
}

/// The mathematical content of an [`Ics20ServiceCharge`].
pub struct ServiceChargeView<I> {
    pub inner: I,
    pub pallet: PalletView,
}

impl<S: Module + BankKeeper> View for Ics20ServiceCharge<S> {
    type V = ServiceChargeView<S::V>;

    open spec fn view(&self) -> ServiceChargeView<S::V> {
        ServiceChargeView { inner: self.inner@, pallet: self.pallet@ }
    }
}

/// The reaction of the inner module, seen from outside the decorator: the same answer
/// and the same report, with the decorator's settings as they were.
pub open spec fn passed_on<I>(state: ServiceChargeView<I>, inner: Reaction<I>) -> Reaction<
    ServiceChargeView<I>,
> {
    Reaction {
        state: ServiceChargeView { inner: inner.state, ..state },
        result: inner.result,
        output: inner.output,
    }
}

/// What is reported when a fee was collected.
pub open spec fn fee_output(fee: u128) -> OutputView {
    OutputView { events: seq![Event::IbcTransferFeeCollected { amount: fee }], log: Seq::empty() }
}

/// The reaction to a successful receipt of `data`, after the inner module answered
/// `acknowledgement` and left the packet as `seen`.
///
/// The fee is the charge in force taken of the amount. It goes from the receiver to the
/// collecting account, in the denomination under which the receiving ledger keeps the
/// token. The packet's payload is rewritten with the amount less the fee. Where the
/// transfer is refused, the receipt is rejected, no fee is reported, and the inner module
/// stops in the state it came to.
pub open spec fn charged<S: Module + BankKeeper>(
    state: ServiceChargeView<S::V>,
    inner: Reaction<S::V>,
    data: PacketDataView,
    acknowledgement: Seq<u8>,
    seen: PacketView,
) -> Reaction<ServiceChargeView<S::V>> {
    let fee = percent_mul(state.pallet.service_charge().0, data.amount) as u128;
    let net = PacketDataView { amount: (data.amount - fee) as u128, ..data };
    match S::after_send(
        inner.state,
        data.receiver,
        state.pallet.account,
        local_denom(seen, data.denom),
        fee,
    ) {
        None => Reaction {
            state: ServiceChargeView { inner: inner.state, ..state },
            result: Err(Error::ApplicationCallbackRejected),
            output: inner.output,
        },
        Some(paid) => Reaction {
            state: ServiceChargeView { inner: paid, ..state },
            result: Ok(
                Reply::Received {
                    acknowledgement,
                    packet: PacketView { data: encoded(net), ..seen },
                },
            ),
            output: inner.output.then_output(fee_output(fee)),
        },
    }
}

/// The reaction of the decorator to a received packet.
///
/// The inner module receives the packet first, with the full amount, whatever the
/// packet's data hold. Whatever it answers but an acknowledgement of success passes
/// through unchanged: an error, and an acknowledgement that reports an application-level
/// failure. Only on an acknowledgement of success is the fee charged (see [`charged`]),
/// of the amount in the data as the packet came. Where the inner module acknowledges
/// success and the data as the packet came hold no transfer payload, there is nothing to
/// take the fee of: the receipt is rejected with `ApplicationCallbackRejected`, no fee is
/// reported, and the inner module stops in the state it came to.
pub open spec fn recv_reaction<S: Module + BankKeeper>(
    state: ServiceChargeView<S::V>,
    packet: PacketView,
    relayer: Seq<char>,
) -> Reaction<ServiceChargeView<S::V>> {
    let inner = S::react(state.inner, CallView::RecvPacket { packet, relayer });
    match inner.result {
        Ok(Reply::Received { acknowledgement, packet: seen }) => {
            if acknowledgement != success_ack() {
                passed_on(state, inner)
            } else {
                match payload_in(json_members(packet.data)) {
                    None => Reaction {
                        state: ServiceChargeView { inner: inner.state, ..state },
                        result: Err(Error::ApplicationCallbackRejected),
                        output: inner.output,
                    },
                    Some(data) => charged::<S>(state, inner, data, acknowledgement, seen),
                }
            }
        },
        _ => passed_on(state, inner),
    }
}

impl<S: Module + BankKeeper> Ics20ServiceCharge<S> {
    /// Puts the fee with the settings `pallet` on top of `inner`.
    pub fn new(inner: S, pallet: Pallet) -> (decorated: Ics20ServiceCharge<S>)
        ensures
            decorated@ == (ServiceChargeView { inner: inner@, pallet: pallet@ }),
    {
        Ics20ServiceCharge { inner, pallet }
    }
}

impl<S: Module + BankKeeper + Default> Default for Ics20ServiceCharge<S> {
    /// The default inner module under a fee of nothing, collected by the account with
    /// the empty name. No rate is configured here: a decorator that is to charge is made
    /// with [`Ics20ServiceCharge::new`] from settings that hold the rate of the ledger.
    fn default() -> (decorated: Ics20ServiceCharge<S>)
        ensures
            call_ensures(S::default, (), decorated.inner),
            decorated@.pallet == (PalletView {
                charge: None,
                default_charge: Percent(0),
                account: ""@,
            }),
    {
        Ics20ServiceCharge { inner: S::default(), pallet: Pallet::new(Percent(0), "") }
    }
}

impl<S: Module + BankKeeper> BankKeeper for Ics20ServiceCharge<S> {
    /// Coins move as the inner module moves them.
    open spec fn after_send(
        state: ServiceChargeView<S::V>,
        from: Seq<char>,
        to: Seq<char>,
        denom: Seq<char>,
        amount: u128,
    ) -> Option<ServiceChargeView<S::V>> {
        match S::after_send(state.inner, from, to, denom, amount) {
            Some(inner) => Some(ServiceChargeView { inner, ..state }),
            None => None,
        }
    }

    fn send_coins(&mut self, from: &str, to: &str, coin: &Coin) -> (r: Result<(), Error>) {
        self.inner.send_coins(from, to, coin)
    }
}

impl<S: Module + BankKeeper> Module for Ics20ServiceCharge<S> {
    open spec fn react(state: ServiceChargeView<S::V>, call: CallView) -> Reaction<
        ServiceChargeView<S::V>,
    > {
        match call {
            CallView::RecvPacket { packet, relayer } => recv_reaction::<S>(state, packet, relayer),
            _ => passed_on(state, S::react(state.inner, call)),
        }
    }

    fn snapshot(&self) -> (copy: Ics20ServiceCharge<S>) {
        Ics20ServiceCharge { inner: self.inner.snapshot(), pallet: self.pallet.snapshot() }
    }

    fn on_chan_open_init(
        &mut self,
        output: &mut HandlerOutput,
        order: Order,
        connection_hops: &Vec<ConnectionId>,
        port_id: &PortId,
        channel_id: &ChannelId,
        counterparty: &Counterparty,
        version: &String,
        relayer: &Signer,
    ) -> (answer: Result<(), Error>) {
        self.inner.on_chan_open_init(
            output,
            order,
            connection_hops,
            port_id,
            channel_id,
            counterparty,
            version,
            relayer,
        )
    }

    fn on_chan_open_try(
        &mut self,
        output: &mut HandlerOutput,
        order: Order,
        connection_hops: &Vec<ConnectionId>,
        port_id: &PortId,
        channel_id: &ChannelId,
        counterparty: &Counterparty,
        version: &String,
        counterparty_version: &String,
        relayer: &Signer,
    ) -> (answer: Result<String, Error>) {
        self.inner.on_chan_open_try(
            output,
            order,
            connection_hops,
            port_id,
            channel_id,
            counterparty,
            version,
            counterparty_version,
            relayer,
        )
    }

    fn on_chan_open_ack(
        &mut self,
        output: &mut HandlerOutput,
        port_id: &PortId,
        channel_id: &ChannelId,
        counterparty_version: &String,
        relayer: &Signer,
    ) -> (answer: Result<(), Error>) {
        self.inner.on_chan_open_ack(output, port_id, channel_id, counterparty_version, relayer)
    }

    fn on_chan_open_confirm(
        &mut self,
        output: &mut HandlerOutput,
        port_id: &PortId,
        channel_id: &ChannelId,
        relayer: &Signer,
    ) -> (answer: Result<(), Error>) {
        self.inner.on_chan_open_confirm(output, port_id, channel_id, relayer)
    }

    fn on_chan_close_init(
        &mut self,
        output: &mut HandlerOutput,
        port_id: &PortId,
        channel_id: &ChannelId,
        relayer: &Signer,
    ) -> (answer: Result<(), Error>) {
        self.inner.on_chan_close_init(output, port_id, channel_id, relayer)
    }

    fn on_chan_close_confirm(
        &mut self,
        output: &mut HandlerOutput,
        port_id: &PortId,
        channel_id: &ChannelId,
        relayer: &Signer,
    ) -> (answer: Result<(), Error>) {
        self.inner.on_chan_close_confirm(output, port_id, channel_id, relayer)
    }

    fn on_recv_packet(
        &mut self,
        output: &mut HandlerOutput,
        packet: &mut Packet,
        relayer: &Signer,
    ) -> (answer: Result<Vec<u8>, Error>) {
        let came = packet.clone();
        let percent = self.pallet.service_charge();
        // The receiver gets the full amount from the inner module first.
        let ack = match self.inner.on_recv_packet(output, packet, relayer) {
            Ok(ack) => ack,
            Err(e) => {
                return Err(e);
            },
        };
        // The fee is taken only where the acknowledgement reports success.
        if is_success_ack(&ack) {
            let mut packet_data = match decode_packet_data(&came.data) {
                Some(data) => data,
                None => {
                    *packet = came;
                    return Err(Error::ApplicationCallbackRejected);
                },
            };
            let fee = fee_of(percent, packet_data.amount);
            let coin = Coin {
                denom: local_denom_of(packet, packet_data.denom.as_str()),
                amount: fee,
            };
            match self.inner.send_coins(
                packet_data.receiver.as_str(),
                self.pallet.account_id(),
                &coin,
            ) {
                Ok(()) => {},
                Err(_) => {
                    *packet = came;
                    return Err(Error::ApplicationCallbackRejected);
                },
            }
            // Whoever looks at the packet afterwards sees what the receiver kept.
            packet_data.amount = packet_data.amount - fee;
            packet.data = encode_packet_data(&packet_data);
            output.emit(Event::IbcTransferFeeCollected { amount: fee });
            assert(output@.events =~= (old(output)@.events + Self::react(
                old(self)@,
                CallView::RecvPacket { packet: old(packet)@, relayer: relayer@ },
            ).output.events));
            assert(output@.log =~= (old(output)@.log + Self::react(
                old(self)@,
                CallView::RecvPacket { packet: old(packet)@, relayer: relayer@ },
            ).output.log));
        }
        Ok(ack)
    }

    fn on_acknowledgement_packet(
        &mut self,
        output: &mut HandlerOutput,
        packet: &Packet,
        acknowledgement: &Vec<u8>,
        relayer: &Signer,
    ) -> (answer: Result<(), Error>) {
        self.inner.on_acknowledgement_packet(output, packet, acknowledgement, relayer)
    }

    fn on_timeout_packet(
        &mut self,
        output: &mut HandlerOutput,
        packet: &Packet,
        relayer: &Signer,
    ) -> (answer: Result<(), Error>) {
        self.inner.on_timeout_packet(output, packet, relayer)
    }
}

} // verus!
