use ibc_core::bank::{BankKeeper, Coin, Ledger};
use ibc_core::error::Error;
use ibc_core::fee::{fee_of, Ics20ServiceCharge, Pallet, Percent};
use ibc_core::module::Module;
use ibc_core::output::{Event, HandlerOutput};
use ibc_core::packet::Packet;
use ibc_core::text::{decimal, has_prefix, parse_decimal, parse_numbered, write_numbered};
use ibc_core::transfer::{
    decode_packet_data, encode_packet_data, is_success_ack, local_denom_of, parse_amount,
    trace_prefix_of, PacketData,
};
use ibc_core::transfer_module::DummyTransferModule;
use ibc_core::types::{ChannelId, Height, PortId, Signer};

fn transfer_packet(data: &str) -> Packet {
    Packet {
        sequence: 1,
        source_port: PortId::new("transfer"),
        source_channel: ChannelId(0),
        destination_port: PortId::new("transfer"),
        destination_channel: ChannelId(1),
        data: data.as_bytes().to_vec(),
        timeout_height: Height::new(0, 100),
        timeout_timestamp: 0,
    }
}

fn decorated(percent: u8) -> Ics20ServiceCharge<DummyTransferModule> {
    Ics20ServiceCharge::new(DummyTransferModule::new(), Pallet::new(Percent(percent), "fees"))
}

#[test]
fn one_percent_of_a_million_is_charged_on_receipt() {
    let mut module = decorated(1);
    let mut packet = transfer_packet(
        r#"{"denom":"uatom","amount":"1000000","sender":"alice","receiver":"bob","memo":""}"#,
    );
    let mut output = HandlerOutput::new();
    let ack = module.on_recv_packet(&mut output, &mut packet, &Signer::new("relayer")).unwrap();
    assert!(is_success_ack(&ack));
    let denom = "transfer/channel-1/uatom";
    assert_eq!(module.inner.bank.balance_of("bob", denom), 990_000);
    assert_eq!(module.inner.bank.balance_of("fees", denom), 10_000);
    let seen = decode_packet_data(&packet.data).unwrap();
    assert_eq!(seen.amount, 990_000);
    assert_eq!(seen.denom, "uatom");
    assert_eq!(seen.sender, "alice");
    assert_eq!(seen.receiver, "bob");
    assert_eq!(seen.memo, "");
    assert_eq!(output.events, vec![Event::IbcTransferFeeCollected { amount: 10_000 }]);
    assert_eq!(
        String::from_utf8(packet.data.clone()).unwrap(),
        r#"{"denom":"uatom","amount":"990000","sender":"alice","receiver":"bob","memo":""}"#
    );
}

#[test]
fn a_charge_that_was_set_replaces_the_default() {
    let mut module = decorated(1);
    module.pallet.set_charge(Percent(10));
    assert_eq!(module.pallet.service_charge(), Percent(10));
    assert_eq!(module.pallet.account_id(), "fees");
    let mut packet = transfer_packet(
        r#"{"denom":"uatom","amount":"200","sender":"alice","receiver":"bob"}"#,
    );
    let mut output = HandlerOutput::new();
    module.on_recv_packet(&mut output, &mut packet, &Signer::new("relayer")).unwrap();
    assert_eq!(module.inner.bank.balance_of("bob", "transfer/channel-1/uatom"), 180);
    assert_eq!(module.inner.bank.balance_of("fees", "transfer/channel-1/uatom"), 20);
}

#[test]
fn a_token_that_comes_home_loses_its_prefix() {
    let mut module = decorated(50);
    let mut packet = transfer_packet(
        r#"{"denom":"transfer/channel-0/uosmo","amount":"9","sender":"a","receiver":"b","memo":"hi"}"#,
    );
    let mut output = HandlerOutput::new();
    module.on_recv_packet(&mut output, &mut packet, &Signer::new("relayer")).unwrap();
    // 4.5 rounds down to 4.
    assert_eq!(module.inner.bank.balance_of("fees", "uosmo"), 4);
    assert_eq!(module.inner.bank.balance_of("b", "uosmo"), 5);
    let seen = decode_packet_data(&packet.data).unwrap();
    assert_eq!(seen.amount, 5);
    assert_eq!(seen.denom, "transfer/channel-0/uosmo");
    assert_eq!(seen.memo, "hi");
}

#[test]
fn the_inner_module_answers_first_whatever_the_data_hold() {
    let mut module = decorated(1);
    let mut output = HandlerOutput::new();
    for data in [
        "not json",
        r#"{"denom":"uatom","amount":"1","sender":"alice"}"#,
        r#"{"denom":"uatom","amount":"340282366920938463463374607431768211456","sender":"a","receiver":"b"}"#,
    ] {
        let mut packet = transfer_packet(data);
        let before = packet.data.clone();
        let ack = module.on_recv_packet(&mut output, &mut packet, &Signer::new("relayer")).unwrap();
        // The inner module reports an application-level failure; that passes through.
        assert!(!is_success_ack(&ack));
        assert_eq!(ack, br#"{"error":"transfer failed"}"#.to_vec());
        assert_eq!(packet.data, before);
    }
    assert!(module.inner.bank.balances.is_empty());
    assert!(output.events.is_empty());
}

#[test]
fn a_fee_that_cannot_be_moved_rejects_and_leaves_the_packet_as_it_came() {
    let mut module = decorated(1);
    assert!(module.inner.bank.mint("fees", "transfer/channel-1/uatom", u128::MAX));
    let mut packet = transfer_packet(
        r#"{"denom":"uatom","amount":"1000000","sender":"alice","receiver":"bob","memo":""}"#,
    );
    let before = packet.data.clone();
    let mut output = HandlerOutput::new();
    let answer = module.on_recv_packet(&mut output, &mut packet, &Signer::new("relayer"));
    assert_eq!(answer, Err(Error::ApplicationCallbackRejected));
    // The data still record the full amount, and no fee is reported.
    assert_eq!(packet.data, before);
    assert_eq!(decode_packet_data(&packet.data).unwrap().amount, 1_000_000);
    assert!(output.events.is_empty());
    // The inner module stops where it came to; the dispatcher is the one to put it back.
    assert_eq!(module.inner.bank.balance_of("bob", "transfer/channel-1/uatom"), 1_000_000);
    let copy = module.snapshot();
    assert_eq!(copy.inner.bank.balance_of("bob", "transfer/channel-1/uatom"), 1_000_000);
    assert_eq!(copy.pallet.service_charge(), Percent(1));
    assert_eq!(copy.pallet.account_id(), "fees");
}

#[test]
fn no_fee_is_taken_where_the_inner_module_reports_failure() {
    let mut module = decorated(1);
    assert!(module.inner.bank.mint("bob", "transfer/channel-1/uatom", u128::MAX));
    let mut packet = transfer_packet(
        r#"{"denom":"uatom","amount":"1000","sender":"alice","receiver":"bob","memo":""}"#,
    );
    let before = packet.data.clone();
    let mut output = HandlerOutput::new();
    let ack = module.on_recv_packet(&mut output, &mut packet, &Signer::new("relayer")).unwrap();
    assert!(!is_success_ack(&ack));
    assert_eq!(module.inner.bank.balance_of("fees", "transfer/channel-1/uatom"), 0);
    assert_eq!(packet.data, before);
    assert!(output.events.is_empty());
}

#[test]
fn the_other_callbacks_pass_through() {
    let mut module = decorated(1);
    let mut output = HandlerOutput::new();
    let port = PortId::new("transfer");
    let relayer = Signer::new("relayer");
    let packet = transfer_packet("{}");
    assert_eq!(module.on_chan_open_ack(&mut output, &port, &ChannelId(0), &"ics20-1".to_string(), &relayer), Ok(()));
    assert_eq!(module.on_chan_open_confirm(&mut output, &port, &ChannelId(0), &relayer), Ok(()));
    assert_eq!(module.on_chan_close_init(&mut output, &port, &ChannelId(0), &relayer), Ok(()));
    assert_eq!(module.on_chan_close_confirm(&mut output, &port, &ChannelId(0), &relayer), Ok(()));
    assert_eq!(module.on_acknowledgement_packet(&mut output, &packet, &vec![1], &relayer), Ok(()));
    assert_eq!(module.on_timeout_packet(&mut output, &packet, &relayer), Ok(()));
    assert!(output.events.is_empty());
    assert!(output.log.is_empty());
    assert!(module.inner.bank.balances.is_empty());
}

#[test]
fn fees_round_to_the_nearest_with_a_half_going_down() {
    assert_eq!(fee_of(Percent(1), 1_000_000), 10_000);
    assert_eq!(fee_of(Percent(1), 149), 1);
    assert_eq!(fee_of(Percent(1), 150), 1);
    assert_eq!(fee_of(Percent(1), 151), 2);
    assert_eq!(fee_of(Percent(50), 9), 4);
    assert_eq!(fee_of(Percent(0), 12345), 0);
    assert_eq!(fee_of(Percent(100), u128::MAX), u128::MAX);
    assert_eq!(fee_of(Percent(200), 77), 77);
    assert_eq!(fee_of(Percent(99), u128::MAX), u128::MAX - u128::MAX / 100 - 1);
}

#[test]
fn amounts_are_decimal_text() {
    assert_eq!(parse_amount("0"), Some(0));
    assert_eq!(parse_amount("007"), Some(7));
    assert_eq!(parse_amount("1000000"), Some(1_000_000));
    assert_eq!(parse_amount("340282366920938463463374607431768211455"), Some(u128::MAX));
    assert_eq!(parse_amount("340282366920938463463374607431768211456"), None);
    assert_eq!(parse_amount(""), None);
    assert_eq!(parse_amount("12a"), None);
    assert_eq!(parse_amount("-1"), None);
    assert_eq!(parse_decimal("42"), Some(42));
    assert_eq!(parse_decimal("4 2"), None);
    assert_eq!(parse_numbered("channel-42", "channel-"), Some(42));
    assert_eq!(parse_numbered("channel-18446744073709551615", "channel-"), Some(u64::MAX));
    assert_eq!(parse_numbered("channel-18446744073709551616", "channel-"), None);
    assert_eq!(parse_numbered("channel-", "channel-"), None);
    assert_eq!(parse_numbered("chan-4", "channel-"), None);
    assert_eq!(parse_numbered("channel-4x", "channel-"), None);
    assert_eq!(write_numbered("channel-", 0), "channel-0");
    assert_eq!(decimal(0), "0");
    assert_eq!(decimal(990_000), "990000");
    assert_eq!(decimal(u128::MAX), "340282366920938463463374607431768211455");
}

#[test]
fn trace_prefixes_name_port_and_channel() {
    assert_eq!(trace_prefix_of("transfer", ChannelId(42)), "transfer/channel-42/");
    assert!(has_prefix("transfer/channel-0/uatom", "transfer/channel-0/"));
    assert!(!has_prefix("transfer/channel-01/uatom", "transfer/channel-0/"));
    assert!(!has_prefix("uatom", "transfer/channel-0/"));
    assert!(has_prefix("uatom", ""));
    let packet = transfer_packet("{}");
    assert_eq!(local_denom_of(&packet, "uatom"), "transfer/channel-1/uatom");
    assert_eq!(local_denom_of(&packet, "transfer/channel-0/uatom"), "uatom");
    assert_eq!(
        local_denom_of(&packet, "transfer/channel-7/uatom"),
        "transfer/channel-1/transfer/channel-7/uatom"
    );
}

#[test]
fn payload_texts_are_quoted_when_written() {
    let data = PacketData {
        denom: "u\"atom".to_string(),
        amount: 12,
        sender: "al\\ice".to_string(),
        receiver: "bob\n".to_string(),
        memo: "é".to_string(),
    };
    let bytes = encode_packet_data(&data);
    assert_eq!(
        String::from_utf8(bytes.clone()).unwrap(),
        "{\"denom\":\"u\\\"atom\",\"amount\":\"12\",\"sender\":\"al\\\\ice\",\"receiver\":\"bob\\n\",\"memo\":\"é\"}"
    );
    let back = decode_packet_data(&bytes).unwrap();
    assert_eq!(back.denom, data.denom);
    assert_eq!(back.amount, 12);
    assert_eq!(back.sender, data.sender);
    assert_eq!(back.receiver, data.receiver);
    assert_eq!(back.memo, data.memo);
}

#[test]
fn a_payload_needs_text_members() {
    assert!(decode_packet_data(&b"[1,2]".to_vec()).is_none());
    assert!(decode_packet_data(&b"{}".to_vec()).is_none());
    let number = br#"{"denom":"uatom","amount":5,"sender":"a","receiver":"b"}"#.to_vec();
    assert!(decode_packet_data(&number).is_none());
    let extra = br#"{"denom":"uatom","amount":"5","sender":"a","receiver":"b","other":[1]}"#.to_vec();
    assert_eq!(decode_packet_data(&extra).unwrap().amount, 5);
}

#[test]
fn the_ledger_moves_coins_or_leaves_everything_alone() {
    let mut ledger = Ledger::new();
    assert!(ledger.mint("alice", "uatom", 10));
    assert!(ledger.mint("alice", "uosmo", 3));
    let coin = Coin { denom: "uatom".to_string(), amount: 4 };
    assert_eq!(ledger.send_coins("alice", "bob", &coin), Ok(()));
    assert_eq!(ledger.balance_of("alice", "uatom"), 6);
    assert_eq!(ledger.balance_of("bob", "uatom"), 4);
    assert_eq!(ledger.balance_of("alice", "uosmo"), 3);
    let much = Coin { denom: "uatom".to_string(), amount: 7 };
    assert_eq!(ledger.send_coins("alice", "bob", &much), Err(Error::ApplicationCallbackRejected));
    assert_eq!(ledger.send_coins("carol", "bob", &coin), Err(Error::ApplicationCallbackRejected));
    assert_eq!(ledger.balance_of("alice", "uatom"), 6);
    assert_eq!(ledger.balance_of("bob", "uatom"), 4);
    assert!(ledger.mint("dave", "uatom", u128::MAX));
    assert!(!ledger.mint("dave", "uatom", 1));
    assert_eq!(ledger.send_coins("alice", "dave", &coin), Err(Error::ApplicationCallbackRejected));
    assert_eq!(ledger.balance_of("alice", "uatom"), 6);
    assert_eq!(ledger.send_coins("alice", "alice", &coin), Ok(()));
    assert_eq!(ledger.balance_of("alice", "uatom"), 6);
}

#[test]
fn decorators_stack_and_their_order_shows() {
    let inner = Ics20ServiceCharge::new(DummyTransferModule::new(), Pallet::new(Percent(1), "town"));
    let mut module = Ics20ServiceCharge::new(inner, Pallet::new(Percent(10), "crown"));
    let mut packet = transfer_packet(
        r#"{"denom":"uatom","amount":"1000","sender":"alice","receiver":"bob","memo":""}"#,
    );
    let mut output = HandlerOutput::new();
    let ack = module.on_recv_packet(&mut output, &mut packet, &Signer::new("relayer")).unwrap();
    assert!(is_success_ack(&ack));
    // The inner fee is taken first; the outer one is taken of the amount that came in.
    assert_eq!(
        output.events,
        vec![
            Event::IbcTransferFeeCollected { amount: 10 },
            Event::IbcTransferFeeCollected { amount: 100 },
        ]
    );
    let denom = "transfer/channel-1/uatom";
    let bank = &module.inner.inner.bank;
    assert_eq!(bank.balance_of("town", denom), 10);
    assert_eq!(bank.balance_of("crown", denom), 100);
    assert_eq!(bank.balance_of("bob", denom), 890);
    assert_eq!(decode_packet_data(&packet.data).unwrap().amount, 900);
    let coin = Coin { denom: denom.to_string(), amount: 90 };
    assert_eq!(module.send_coins("bob", "alice", &coin), Ok(()));
    assert_eq!(module.inner.inner.bank.balance_of("alice", denom), 90);
}

#[test]
fn a_default_decorator_charges_nothing() {
    let mut module: Ics20ServiceCharge<DummyTransferModule> = Default::default();
    assert_eq!(module.pallet.service_charge(), Percent(0));
    assert_eq!(module.pallet.account_id(), "");
    let mut packet = transfer_packet(
        r#"{"denom":"uatom","amount":"1000","sender":"alice","receiver":"bob","memo":""}"#,
    );
    let mut output = HandlerOutput::new();
    let ack = module.on_recv_packet(&mut output, &mut packet, &Signer::new("relayer")).unwrap();
    assert!(is_success_ack(&ack));
    assert_eq!(module.inner.bank.balance_of("bob", "transfer/channel-1/uatom"), 1000);
    assert_eq!(module.inner.bank.balance_of("", "transfer/channel-1/uatom"), 0);
    assert_eq!(output.events, vec![Event::IbcTransferFeeCollected { amount: 0 }]);
    assert_eq!(decode_packet_data(&packet.data).unwrap().amount, 1000);
}
