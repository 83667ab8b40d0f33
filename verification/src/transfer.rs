//! The token-transfer payload: its JSON form, its amounts as decimal text, and the trace
//! prefix by which a denomination tells where a token came from.

use crate::json::{json_members, json_quoted, quote, read_document, text_member};
use crate::packet::{Packet, PacketView};
use crate::text::{decimal, decimal_in, decimal_text, has_prefix, parse_decimal, starts_with};
use crate::types::ChannelId;
use vstd::prelude::*;
use vstd::string::*;
use vstd::utf8::encode_utf8;

verus! {

/// The amount that `text` writes: a decimal number that fits in 128 bits. A larger
/// number is no amount; it is not cut down to one.
pub open spec fn amount_in(text: Seq<char>) -> Option<u128> {
    decimal_in(text)
}

/// Reads an amount written in decimal digits. Empty text, anything but digits, and a
/// number beyond 128 bits give none.
pub fn parse_amount(text: &str) -> (amount: Option<u128>)
    ensures
        amount == amount_in(text@),
{
    parse_decimal(text)
}

/// The prefix that a denomination gets when its token passes the channel end
/// `port`/`channel`: the port, a slash, the channel's name, a slash.
pub open spec fn trace_prefix(port: Seq<char>, channel: ChannelId) -> Seq<char> {
    port + "/"@ + channel.name() + "/"@
}

/// Computes [`trace_prefix`].
pub fn trace_prefix_of(port: &str, channel: ChannelId) -> (prefix: String)
    ensures
        prefix@ == trace_prefix(port@, channel),
{
    let mut prefix = port.to_owned();
    prefix.append("/");
    let name = channel.to_text();
    prefix.append(name.as_str());
    prefix.append("/");
    prefix
}

/// The denomination under which the receiving ledger keeps the token of `packet` whose
/// denomination on the wire is `denom`.
///
/// A token that comes home, its denomination beginning with the prefix of the packet's
/// source end, loses that prefix. Any other token is a guest and gets the prefix of the
/// packet's destination end in front.
pub open spec fn local_denom(packet: PacketView, denom: Seq<char>) -> Seq<char> {
    let source = trace_prefix(packet.source_port, packet.source_channel);
    if starts_with(denom, source) {
        denom.subrange(source.len() as int, denom.len() as int)
    } else {
        trace_prefix(packet.destination_port, packet.destination_channel) + denom
    }
}

/// Computes [`local_denom`].
pub fn local_denom_of(packet: &Packet, denom: &str) -> (local: String)
    ensures
        local@ == local_denom(packet@, denom@),
{
    let source = trace_prefix_of(packet.source_port.as_str(), packet.source_channel);
    if has_prefix(denom, source.as_str()) {
        let from = source.as_str().unicode_len();
        let to = denom.unicode_len();
        denom.substring_char(from, to).to_owned()
    } else {
        let mut local = trace_prefix_of(
            packet.destination_port.as_str(),
            packet.destination_channel,
        );
        local.append(denom);
        local
    }
}

/// What a token-transfer packet carries.
#[derive(Debug)]
pub struct PacketData {
    pub denom: String,
    pub amount: u128,
    pub sender: String,
    pub receiver: String,
    pub memo: String,
}

/// The mathematical content of a [`PacketData`].
pub struct PacketDataView {
    pub denom: Seq<char>,
    pub amount: u128,
    pub sender: Seq<char>,
    pub receiver: Seq<char>,
    pub memo: Seq<char>,
}

impl View for PacketData {
    type V = PacketDataView;

    open spec fn view(&self) -> PacketDataView {
        PacketDataView {
            denom: self.denom@,
            amount: self.amount,
            sender: self.sender@,
            receiver: self.receiver@,
            memo: self.memo@,
        }
    }
}

/// The payload that the five members of a transfer document make up, each given where
/// the document has it.
///
/// Denomination, amount, sender and receiver must be there, and the amount must be a
/// decimal number within 128 bits. A memo that is missing is empty.
pub open spec fn assembled(
    denom: Option<Seq<char>>,
    amount: Option<Seq<char>>,
    sender: Option<Seq<char>>,
    receiver: Option<Seq<char>>,
    memo: Option<Seq<char>>,
) -> Option<PacketDataView> {
    if denom.is_none() || amount.is_none() || sender.is_none() || receiver.is_none() || amount_in(
        amount->0,
    ).is_none() {
        None
    } else {
        Some(
            PacketDataView {
                denom: denom->0,
                amount: amount_in(amount->0)->0,
                sender: sender->0,
                receiver: receiver->0,
                memo: match memo {
                    Some(m) => m,
                    None => Seq::empty(),
                },
            },
        )
    }
}

/// The member `key` of `members`, where there is one.
pub open spec fn member(members: Map<Seq<char>, Seq<char>>, key: Seq<char>) -> Option<Seq<char>> {
    if members.dom().contains(key) {
        Some(members[key])
    } else {
        None
    }
}

/// The payload that a document with the text members `members` holds.
pub open spec fn payload_in(members: Option<Map<Seq<char>, Seq<char>>>) -> Option<PacketDataView> {
    match members {
        None => None,
        Some(m) => assembled(
            member(m, "denom"@),
            member(m, "amount"@),
            member(m, "sender"@),
            member(m, "receiver"@),
            member(m, "memo"@),
        ),
    }
}

/// The view of an optional text.
pub open spec fn text_view(text: Option<String>) -> Option<Seq<char>> {
    match text {
        Some(t) => Some(t@),
        None => None,
    }
}

/// The view of an optional payload.
pub open spec fn payload_view(data: Option<PacketData>) -> Option<PacketDataView> {
    match data {
        Some(d) => Some(d@),
        None => None,
    }
}

/// Makes a payload of the five members of a transfer document.
pub fn assemble(
    denom: Option<String>,
    amount: Option<String>,
    sender: Option<String>,
    receiver: Option<String>,
    memo: Option<String>,
) -> (data: Option<PacketData>)
    ensures
        payload_view(data) == assembled(
            text_view(denom),
            text_view(amount),
            text_view(sender),
            text_view(receiver),
            text_view(memo),
        ),
{
    let denom = match denom {
        Some(t) => t,
        None => {
            return None;
        },
    };
    let amount = match amount {
        Some(t) => t,
        None => {
            return None;
        },
    };
    let sender = match sender {
        Some(t) => t,
        None => {
            return None;
        },
    };
    let receiver = match receiver {
        Some(t) => t,
        None => {
            return None;
        },
    };
    let amount = match parse_amount(amount.as_str()) {
        Some(a) => a,
        None => {
            return None;
        },
    };
    let memo = match memo {
        Some(t) => t,
        None => String::new(),
    };
    Some(PacketData { denom, amount, sender, receiver, memo })
}

/// Reads a transfer payload out of packet data: a JSON object with the text members
/// `denom`, `amount`, `sender`, `receiver` and, where there is one, `memo`.
pub fn decode_packet_data(bytes: &Vec<u8>) -> (data: Option<PacketData>)
    ensures
        payload_view(data) == payload_in(json_members(bytes@)),
{
    let document = match read_document(bytes) {
        Some(d) => d,
        None => {
            return None;
        },
    };
    let denom = text_member(&document, "denom");
    let amount = text_member(&document, "amount");
    let sender = text_member(&document, "sender");
    let receiver = text_member(&document, "receiver");
    let memo = text_member(&document, "memo");
    assemble(denom, amount, sender, receiver, memo)
}

/// The text of a transfer document, made of the quoted denomination, the amount, and
/// the quoted sender, receiver and memo.
pub open spec fn framed(
    denom: Seq<char>,
    amount: u128,
    sender: Seq<char>,
    receiver: Seq<char>,
    memo: Seq<char>,
) -> Seq<char> {
    "{\"denom\":"@ + denom + ",\"amount\":\""@ + decimal_text(amount as nat) + "\",\"sender\":"@
        + sender + ",\"receiver\":"@ + receiver + ",\"memo\":"@ + memo + "}"@
}

/// Puts a transfer document together from texts that are quoted already.
pub fn frame(denom: &str, amount: u128, sender: &str, receiver: &str, memo: &str) -> (text: String)
    ensures
        text@ == framed(denom@, amount, sender@, receiver@, memo@),
{
    let mut text = "{\"denom\":".to_owned();
    text.append(denom);
    text.append(",\"amount\":\"");
    let digits = decimal(amount);
    text.append(digits.as_str());
    text.append("\",\"sender\":");
    text.append(sender);
    text.append(",\"receiver\":");
    text.append(receiver);
    text.append(",\"memo\":");
    text.append(memo);
    text.append("}");
    text
}

/// The packet data that writes `data`: the document made of its quoted texts and its
/// amount, as bytes.
pub open spec fn encoded(data: PacketDataView) -> Seq<u8> {
    encode_utf8(
        framed(
            json_quoted(data.denom),
            data.amount,
            json_quoted(data.sender),
            json_quoted(data.receiver),
            json_quoted(data.memo),
        ),
    )
}

/// Writes a transfer payload as packet data.
pub fn encode_packet_data(data: &PacketData) -> (bytes: Vec<u8>)
    ensures
        bytes@ == encoded(data@),
{
    let denom = quote(data.denom.as_str()).unwrap();
    let sender = quote(data.sender.as_str()).unwrap();
    let receiver = quote(data.receiver.as_str()).unwrap();
    let memo = quote(data.memo.as_str()).unwrap();
    let text = frame(denom.as_str(), data.amount, sender.as_str(), receiver.as_str(), memo.as_str());
    text.as_str().as_bytes_vec()
}

/// The acknowledgement by which a transfer module reports success.
pub open spec fn success_ack() -> Seq<u8> {
    encode_utf8("{\"result\":\"AQ==\"}"@)
}

/// The acknowledgement by which a transfer module reports that it could not credit the
/// token.
pub open spec fn failure_ack() -> Seq<u8> {
    encode_utf8("{\"error\":\"transfer failed\"}"@)
}

/// Whether `acknowledgement` reports success.
pub fn is_success_ack(acknowledgement: &Vec<u8>) -> (r: bool)
    ensures
        r == (acknowledgement@ == success_ack()),
{
    let wanted = "{\"result\":\"AQ==\"}".as_bytes_vec();
    crate::types::same_bytes(acknowledgement, &wanted)
}

} // verus!
