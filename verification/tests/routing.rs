use ibc_core::channel::{
    ChannelMsg, ChannelState, MsgChannelCloseConfirm, MsgChannelCloseInit, MsgChannelOpenAck,
    MsgChannelOpenInit, MsgChannelOpenTry,
};
use ibc_core::client::{
    ClientMessage, ClientMsg, ConsensusSnapshot, Header, MsgCreateClient,
    MsgUpdateClient, MsgUpgradeClient,
};
use ibc_core::connection::{
    ConnectionMsg, ConnectionState, MsgConnectionOpenAck, MsgConnectionOpenInit,
    MsgConnectionOpenTry, Version,
};
use ibc_core::envelope::{decode, kind_of_tag, Ics26Envelope, MsgKind, RawMessage, RawPayload};
use ibc_core::error::Error;
use ibc_core::evidence::ScriptedVerifier;
use ibc_core::output::Event;
use ibc_core::packet::{
    send_packet, LedgerTime, MsgRecvPacket, MsgTimeoutOnClose, Packet, PacketMsg, SendRequest,
};
use ibc_core::router::{deliver, dispatch, Context};
use ibc_core::transfer_module::DummyTransferModule;
use ibc_core::types::{
    ChannelId, ClientId, ClientType, ConnectionId, Height, ModuleId, Order, PortId, Signer,
};
use ibc_core::wire::{
    RawChannel, RawChannelCounterparty, RawConnectionCounterparty, RawHeight, RawMsgChannelCloseInit, RawMsgChannelConfirm, RawMsgChannelOpenAck,
    RawMsgChannelOpenInit, RawMsgChannelOpenTry, RawMsgConnectionOpenAck,
    RawMsgConnectionOpenConfirm, RawMsgConnectionOpenInit, RawMsgConnectionOpenTry,
    RawMsgPacket, RawMsgUpdateClient, RawMsgUpgradeClient, RawPacket, RawVersion,
};

type Ctx = Context<ScriptedVerifier, DummyTransferModule>;

fn signer() -> Signer {
    Signer::new("cosmos1wxeyh7zgn4tctjzs0vtqpc6p5cxq5t2muzl7ng")
}

fn update(client_id: ClientId, height: Height, timestamp: u64) -> Ics26Envelope {
    Ics26Envelope::Ics2Msg(ClientMsg::UpdateClient(MsgUpdateClient {
        client_id,
        client_message: ClientMessage::Header(Header {
            height,
            snapshot: ConsensusSnapshot { timestamp, root: 0 },
            evidence: Vec::new(),
        }),
        signer: signer(),
    }))
}

fn upgrade(client_id: ClientId, height: Height) -> Ics26Envelope {
    Ics26Envelope::Ics2Msg(ClientMsg::UpgradeClient(MsgUpgradeClient {
        client_id,
        height,
        snapshot: ConsensusSnapshot { timestamp: 0, root: 0 },
        proof_upgrade_client: Vec::new(),
        proof_upgrade_consensus_state: Vec::new(),
        signer: signer(),
    }))
}

fn transfer_data(amount: u128) -> Vec<u8> {
    format!(
        r#"{{"denom":"uatom","amount":"{}","sender":"alice","receiver":"bob","memo":""}}"#,
        amount
    )
    .into_bytes()
}

#[test]
fn routing_module_and_keepers() {
    let default_signer = signer();
    let client_height = 5;
    let start_client_height = Height::new(0, client_height);
    let update_client_height = Height::new(0, 34);
    let update_client_height_after_send = Height::new(0, 35);
    let update_client_height_after_second_send = Height::new(0, 36);
    let upgrade_client_height = Height::new(1, 2);
    let upgrade_client_height_second = Height::new(1, 1);
    let transfer_module_id = ModuleId::new("transfer");
    let port = PortId::new("transfer");

    let mut ctx: Ctx = Context::new(
        ScriptedVerifier::accepting(),
        LedgerTime { height: Height::new(0, 10), timestamp: 1 },
    );
    assert!(ctx.registry.add_route(transfer_module_id.clone(), DummyTransferModule::new()).is_none());

    // First, create a client..
    let res = dispatch(
        &mut ctx,
        Ics26Envelope::Ics2Msg(ClientMsg::CreateClient(MsgCreateClient {
            client_type: ClientType::Mock,
            height: start_client_height,
            snapshot: ConsensusSnapshot { timestamp: 0, root: 0 },
            signer: default_signer.clone(),
        })),
    );
    assert!(res.is_ok(), "client creation failed with result: {:?}", res);
    assert_eq!(ctx.registry.bind(port.clone(), transfer_module_id.clone()), Ok(()));

    // Figure out the ID of the client that was just created.
    let mut events = res.unwrap().events;
    let client_id_event = events.pop();
    assert!(client_id_event.is_some(), "There was no event generated for client creation!");
    let client_id = match client_id_event.unwrap() {
        Event::CreateClient { client_id, .. } => client_id,
        event => panic!("unexpected IBC event: {:?}", event),
    };

    let version = Version { identifier: 1, ordered: true, unordered: true };
    let their_client = ClientId::new(ClientType::Mock, 9);
    // The client that a message names before it is given the one that was created.
    let dummy_client = ClientId::new(ClientType::Tendermint, 0);
    let conn_try = |client_id: ClientId, consensus_height: u64| {
        Ics26Envelope::Ics3Msg(ConnectionMsg::ConnectionOpenTry(MsgConnectionOpenTry {
            client_id,
            counterparty_client_id: their_client,
            counterparty_connection_id: ConnectionId(3),
            counterparty_versions: vec![version],
            proof_init: vec![1],
            proof_height: update_client_height,
            consensus_height: Height::new(0, consensus_height),
            signer: signer(),
        }))
    };
    let chan_init = |connection_id: ConnectionId| {
        Ics26Envelope::Ics4ChannelMsg(ChannelMsg::ChannelOpenInit(MsgChannelOpenInit {
            port_id: PortId::new("transfer"),
            ordering: Order::Unordered,
            connection_id,
            counterparty_port_id: PortId::new("transfer"),
            version: "ics20-1".to_string(),
            signer: signer(),
        }))
    };
    let recv = || {
        Ics26Envelope::Ics4PacketMsg(PacketMsg::RecvPacket(MsgRecvPacket {
            packet: Packet {
                sequence: 1,
                source_port: PortId::new("transfer"),
                source_channel: ChannelId(7),
                destination_port: PortId::new("transfer"),
                destination_channel: ChannelId(0),
                data: transfer_data(100),
                timeout_height: Height::new(0, 35),
                timeout_timestamp: 0,
            },
            proof_commitment: vec![1],
            proof_height: Height::new(0, 35),
            signer: signer(),
        }))
    };
    let send = |timeout: u64| SendRequest {
        source_port: PortId::new("transfer"),
        source_channel: ChannelId(0),
        data: transfer_data(7),
        timeout_height: Height::new(0, timeout),
        timeout_timestamp: 0,
    };

    let mut second_packet: Option<Packet> = None;
    let steps: Vec<(&str, Option<Ics26Envelope>, Option<SendRequest>, bool)> = vec![
        ("Client update successful", Some(update(client_id, update_client_height, 17)), None, true),
        (
            "Client update fails due to stale header",
            Some(update(client_id, update_client_height, 0)),
            None,
            false,
        ),
        (
            "Connection open init succeeds",
            Some(Ics26Envelope::Ics3Msg(ConnectionMsg::ConnectionOpenInit(
                MsgConnectionOpenInit {
                    client_id,
                    counterparty_client_id: their_client,
                    version: None,
                    signer: signer(),
                },
            ))),
            None,
            true,
        ),
        (
            "Connection open try fails due to InvalidConsensusHeight (too high)",
            Some(conn_try(dummy_client, client_height + 1)),
            None,
            false,
        ),
        ("Connection open try succeeds", Some(conn_try(client_id, client_height)), None, true),
        (
            "Connection open ack succeeds",
            Some(Ics26Envelope::Ics3Msg(ConnectionMsg::ConnectionOpenAck(MsgConnectionOpenAck {
                connection_id: ConnectionId(0),
                counterparty_connection_id: ConnectionId(3),
                version,
                proof_try: vec![1],
                proof_height: update_client_height,
                consensus_height: Height::new(0, client_height),
                signer: signer(),
            }))),
            None,
            true,
        ),
        ("Channel open init succeeds", Some(chan_init(ConnectionId(0))), None, true),
        (
            "Channel open init fail due to missing connection",
            Some(chan_init(ConnectionId(590))),
            None,
            false,
        ),
        (
            "Channel open try succeeds",
            Some(Ics26Envelope::Ics4ChannelMsg(ChannelMsg::ChannelOpenTry(MsgChannelOpenTry {
                port_id: PortId::new("transfer"),
                ordering: Order::Unordered,
                connection_id: ConnectionId(0),
                counterparty_port_id: PortId::new("transfer"),
                counterparty_channel_id: ChannelId(8),
                version: "ics20-1".to_string(),
                counterparty_version: "ics20-1".to_string(),
                proof_init: vec![1],
                proof_height: update_client_height,
                signer: signer(),
            }))),
            None,
            true,
        ),
        (
            "Channel open ack succeeds",
            Some(Ics26Envelope::Ics4ChannelMsg(ChannelMsg::ChannelOpenAck(MsgChannelOpenAck {
                port_id: PortId::new("transfer"),
                channel_id: ChannelId(0),
                counterparty_channel_id: ChannelId(7),
                counterparty_version: "ics20-1".to_string(),
                proof_try: vec![1],
                proof_height: update_client_height,
                signer: signer(),
            }))),
            None,
            true,
        ),
        ("Packet send", None, Some(send(35)), true),
        (
            "Client update successful #2",
            Some(update(client_id, update_client_height_after_send, 18)),
            None,
            true,
        ),
        ("Receive packet", Some(recv()), None, true),
        ("Re-Receive packet", Some(recv()), None, true),
        ("Packet send", None, Some(send(36)), true),
        (
            "Client update successful",
            Some(update(client_id, update_client_height_after_second_send, 0)),
            None,
            true,
        ),
        (
            "Channel close init succeeds",
            Some(Ics26Envelope::Ics4ChannelMsg(ChannelMsg::ChannelCloseInit(
                MsgChannelCloseInit {
                    port_id: PortId::new("transfer"),
                    channel_id: ChannelId(0),
                    signer: signer(),
                },
            ))),
            None,
            true,
        ),
        (
            "Channel close confirm fails cause channel is already closed",
            Some(Ics26Envelope::Ics4ChannelMsg(ChannelMsg::ChannelCloseConfirm(
                MsgChannelCloseConfirm {
                    port_id: PortId::new("transfer"),
                    channel_id: ChannelId(0),
                    proof_init: vec![1],
                    proof_height: update_client_height,
                    signer: signer(),
                },
            ))),
            None,
            false,
        ),
        ("Timeout on close", None, None, true),
        ("Client upgrade successful", Some(upgrade(client_id, upgrade_client_height)), None, true),
        (
            "Client upgrade un-successful",
            Some(upgrade(client_id, upgrade_client_height_second)),
            None,
            false,
        ),
    ];

    for (name, msg, request, want_pass) in steps {
        let res = match (msg, request) {
            (Some(msg), _) => dispatch(&mut ctx, msg).map(|_| ()),
            (None, Some(request)) => match send_packet(&ctx.store, &request) {
                Ok((packet, result, _)) => {
                    ctx.store.store_packet_result(result);
                    second_packet = Some(packet);
                    Ok(())
                }
                Err(e) => Err(e),
            },
            (None, None) => {
                let packet = second_packet.clone().unwrap();
                assert_eq!(packet.sequence, 2);
                dispatch(
                    &mut ctx,
                    Ics26Envelope::Ics4PacketMsg(PacketMsg::TimeoutOnClosePacket(
                        MsgTimeoutOnClose {
                            packet,
                            proof_unreceived: vec![1],
                            proof_close: vec![1],
                            proof_height: Height::new(0, 36),
                            signer: signer(),
                        },
                    )),
                )
                .map(|_| ())
            }
        };
        assert_eq!(
            want_pass,
            res.is_ok(),
            "ICS26 routing dispatch test '{}' failed\nwith result: {:?}",
            name,
            res
        );
    }

    assert_eq!(ctx.store.connections[0].state, ConnectionState::Open);
    assert_eq!(ctx.store.connections[1].state, ConnectionState::TryOpen);
    assert_eq!(ctx.store.channels[0].end.state, ChannelState::Closed);
    assert_eq!(ctx.store.channels[1].end.state, ChannelState::TryOpen);
    assert_eq!(ctx.store.channels[0].receipts, vec![1]);
    assert_eq!(ctx.store.channels[0].acks.len(), 1);
    assert!(ctx.store.channels[0].commitments[0].is_some());
    assert!(ctx.store.channels[0].commitments[1].is_none());
    assert_eq!(ctx.store.clients[0].latest_height, upgrade_client_height);
    assert_eq!(
        ctx.registry.modules[0].module.bank.balance_of("bob", "transfer/channel-0/uatom"),
        100
    );
}

fn raw_packet(source_channel: &str) -> RawPacket {
    RawPacket {
        sequence: 3,
        source_port: "transfer".to_string(),
        source_channel: source_channel.to_string(),
        destination_port: "transfer".to_string(),
        destination_channel: "channel-0".to_string(),
        data: vec![1, 2],
        timeout_height: None,
        timeout_timestamp: 77,
    }
}

fn raw_recv(packet: Option<RawPacket>, proof_height: Option<RawHeight>) -> RawPayload {
    RawPayload::RecvPacket(RawMsgPacket {
        packet,
        acknowledgement: Vec::new(),
        proof: vec![9],
        proof_close: Vec::new(),
        proof_height,
        signer: "relayer".to_string(),
    })
}

#[test]
fn a_tag_must_announce_the_kind_of_its_payload() {
    let create = || {
        RawPayload::CreateClient(MsgCreateClient {
            client_type: ClientType::Tendermint,
            height: Height::new(0, 1),
            snapshot: ConsensusSnapshot { timestamp: 0, root: 0 },
            signer: signer(),
        })
    };
    let good = RawMessage {
        type_url: "/ibc.core.client.v1.MsgCreateClient".to_string(),
        value: create(),
    };
    assert!(matches!(decode(good), Ok(Ics26Envelope::Ics2Msg(ClientMsg::CreateClient(_)))));
    let other = RawMessage {
        type_url: "/ibc.core.client.v1.MsgUpdateClient".to_string(),
        value: create(),
    };
    assert!(matches!(decode(other), Err(Error::MalformedEnvelope)));
    let unknown = RawMessage { type_url: "/cosmos.bank.v1beta1.MsgSend".to_string(), value: create() };
    assert!(matches!(decode(unknown), Err(Error::MalformedEnvelope)));
    assert_eq!(MsgKind::TimeoutOnClose.type_url(), "/ibc.core.channel.v1.MsgTimeoutOnClose");
    assert_eq!(create().msg_kind(), MsgKind::CreateClient);
}

#[test]
fn a_payload_is_read_part_by_part() {
    let height = Some(RawHeight { revision_number: 2, revision_height: 9 });
    let tag = "/ibc.core.channel.v1.MsgRecvPacket";
    let message = |value: RawPayload| RawMessage { type_url: tag.to_string(), value };
    match decode(message(raw_recv(Some(raw_packet("channel-5")), height))) {
        Ok(Ics26Envelope::Ics4PacketMsg(PacketMsg::RecvPacket(m))) => {
            assert_eq!(m.packet.sequence, 3);
            assert_eq!(m.packet.source_port.name, "transfer");
            assert_eq!(m.packet.source_channel, ChannelId(5));
            assert_eq!(m.packet.destination_channel, ChannelId(0));
            assert_eq!(m.packet.data, vec![1, 2]);
            assert_eq!(m.packet.timeout_height, Height::zero());
            assert_eq!(m.packet.timeout_timestamp, 77);
            assert_eq!(m.proof_commitment, vec![9]);
            assert_eq!(m.proof_height, Height::new(2, 9));
            assert_eq!(m.signer.account, "relayer");
        }
        other => panic!("unexpected: {:?}", other),
    }
    let refused = |value: RawPayload| matches!(decode(message(value)), Err(Error::MalformedEnvelope));
    assert!(refused(raw_recv(None, height)));
    assert!(refused(raw_recv(Some(raw_packet("channel-5")), None)));
    assert!(refused(raw_recv(Some(raw_packet("channel5")), height)));
    assert!(refused(raw_recv(Some(raw_packet("")), height)));
    // The same payload under the tag of a timeout is a timeout.
    let timeout = RawMessage {
        type_url: "/ibc.core.channel.v1.MsgTimeout".to_string(),
        value: match raw_recv(Some(raw_packet("channel-5")), height) {
            RawPayload::RecvPacket(raw) => RawPayload::Timeout(raw),
            other => other,
        },
    };
    assert!(matches!(
        decode(timeout),
        Ok(Ics26Envelope::Ics4PacketMsg(PacketMsg::TimeoutPacket(_)))
    ));
}

#[test]
fn handshake_messages_are_read_part_by_part() {
    let height = Some(RawHeight { revision_number: 0, revision_height: 5 });
    let version = || RawVersion {
        identifier: "1".to_string(),
        features: vec!["ORDER_ORDERED".to_string(), "ORDER_UNORDERED".to_string()],
    };
    let open_try = |client: &str, connection: &str, versions: Vec<RawVersion>| RawMessage {
        type_url: "/ibc.core.connection.v1.MsgConnectionOpenTry".to_string(),
        value: RawPayload::ConnectionOpenTry(RawMsgConnectionOpenTry {
            client_id: client.to_string(),
            counterparty: Some(RawConnectionCounterparty {
                client_id: "07-tendermint-4".to_string(),
                connection_id: connection.to_string(),
            }),
            counterparty_versions: versions,
            proof_init: vec![1],
            proof_height: height,
            consensus_height: height,
            signer: "relayer".to_string(),
        }),
    };
    match decode(open_try("9999-mock-0", "connection-2", vec![version()])) {
        Ok(Ics26Envelope::Ics3Msg(ConnectionMsg::ConnectionOpenTry(m))) => {
            assert_eq!(m.client_id, ClientId::new(ClientType::Mock, 0));
            assert_eq!(m.counterparty_client_id, ClientId::new(ClientType::Tendermint, 4));
            assert_eq!(m.counterparty_connection_id, ConnectionId(2));
            assert_eq!(
                m.counterparty_versions,
                vec![Version { identifier: 1, ordered: true, unordered: true }]
            );
            assert_eq!(m.consensus_height, Height::new(0, 5));
        }
        other => panic!("unexpected: {:?}", other),
    }
    let refused = |m: RawMessage| matches!(decode(m), Err(Error::MalformedEnvelope));
    assert!(refused(open_try("mock-0", "connection-2", vec![version()])));
    assert!(refused(open_try("9999-mock-0", "connection-x", vec![version()])));
    let unreadable = RawVersion { identifier: "one".to_string(), features: vec![] };
    assert!(refused(open_try("9999-mock-0", "connection-2", vec![version(), unreadable])));
    assert!(matches!(decode(open_try("9999-mock-0", "connection-2", vec![])), Ok(_)));

    let channel = |ordering: i32, hops: Vec<&str>| RawMessage {
        type_url: "/ibc.core.channel.v1.MsgChannelOpenInit".to_string(),
        value: RawPayload::ChannelOpenInit(RawMsgChannelOpenInit {
            port_id: "transfer".to_string(),
            channel: Some(RawChannel {
                ordering,
                counterparty: Some(RawChannelCounterparty {
                    port_id: "transfer".to_string(),
                    channel_id: String::new(),
                }),
                connection_hops: hops.into_iter().map(String::from).collect(),
                version: "ics20-1".to_string(),
            }),
            signer: "relayer".to_string(),
        }),
    };
    match decode(channel(2, vec!["connection-7"])) {
        Ok(Ics26Envelope::Ics4ChannelMsg(ChannelMsg::ChannelOpenInit(m))) => {
            assert_eq!(m.ordering, Order::Ordered);
            assert_eq!(m.connection_id, ConnectionId(7));
            assert_eq!(m.port_id.name, "transfer");
            assert_eq!(m.version, "ics20-1");
        }
        other => panic!("unexpected: {:?}", other),
    }
    assert!(refused(channel(0, vec!["connection-7"])));
    assert!(refused(channel(1, vec![])));
    assert!(refused(channel(1, vec!["connection-7", "connection-8"])));
    let none = RawMessage {
        type_url: "/ibc.core.channel.v1.MsgChannelOpenInit".to_string(),
        value: RawPayload::ChannelOpenInit(RawMsgChannelOpenInit {
            port_id: "transfer".to_string(),
            channel: None,
            signer: "relayer".to_string(),
        }),
    };
    assert!(refused(none));
}

#[test]
fn deliver_hands_back_a_receipt_or_leaves_the_context_alone() {
    let mut ctx: Ctx = Context::new(
        ScriptedVerifier::accepting(),
        LedgerTime { height: Height::new(0, 1), timestamp: 1 },
    );
    let message = |tag: &str| RawMessage {
        type_url: tag.to_string(),
        value: RawPayload::CreateClient(MsgCreateClient {
            client_type: ClientType::Grandpa,
            height: Height::new(2, 7),
            snapshot: ConsensusSnapshot { timestamp: 5, root: 1 },
            signer: signer(),
        }),
    };
    let refused = deliver(&mut ctx, message("/ibc.core.client.v1.MsgCreate"));
    assert!(matches!(refused, Err(Error::MalformedEnvelope)));
    assert!(ctx.store.clients.is_empty());
    let receipt = deliver(&mut ctx, message("/ibc.core.client.v1.MsgCreateClient")).unwrap();
    assert_eq!(
        receipt.events,
        vec![Event::CreateClient {
            client_id: ClientId::new(ClientType::Grandpa, 0),
            client_type: ClientType::Grandpa,
            height: Height::new(2, 7)
        }]
    );
    assert_eq!(receipt.log, vec!["client created".to_string()]);
    assert_eq!(ctx.store.clients.len(), 1);
    assert_eq!(ctx.store.clients[0].snapshot_at(Height::new(2, 7)), Some(ConsensusSnapshot { timestamp: 5, root: 1 }));
    assert_eq!(ctx.store.clients[0].snapshot_at(Height::new(2, 8)), None);
    let update = RawMessage {
        type_url: "/ibc.core.client.v1.MsgUpdateClient".to_string(),
        value: RawPayload::UpdateClient(RawMsgUpdateClient {
            client_id: "10-grandpa-0".to_string(),
            client_message: ClientMessage::Header(Header {
                height: Height::new(2, 8),
                snapshot: ConsensusSnapshot { timestamp: 6, root: 2 },
                evidence: vec![],
            }),
            signer: "relayer".to_string(),
        }),
    };
    let receipt = deliver(&mut ctx, update).unwrap();
    assert_eq!(
        receipt.events,
        vec![Event::UpdateClient {
            client_id: ClientId::new(ClientType::Grandpa, 0),
            height: Height::new(2, 8)
        }]
    );
    assert_eq!(ctx.store.clients[0].latest_height, Height::new(2, 8));
}

#[test]
fn every_kind_of_message_is_read() {
    let height = Some(RawHeight { revision_number: 1, revision_height: 4 });
    let tagged = |kind: MsgKind, value: RawPayload| RawMessage {
        type_url: kind.type_url().to_string(),
        value,
    };
    let refused = |m: RawMessage| matches!(decode(m), Err(Error::MalformedEnvelope));
    let version = |identifier: &str| RawVersion {
        identifier: identifier.to_string(),
        features: vec!["ORDER_UNORDERED".to_string()],
    };

    let upgrade = |client: &str| {
        tagged(
            MsgKind::UpgradeClient,
            RawPayload::UpgradeClient(RawMsgUpgradeClient {
                client_id: client.to_string(),
                height: Height::new(1, 4),
                snapshot: ConsensusSnapshot { timestamp: 3, root: 4 },
                proof_upgrade_client: vec![5],
                proof_upgrade_consensus_state: vec![6],
                signer: "relayer".to_string(),
            }),
        )
    };
    match decode(upgrade("11-beefy-2")) {
        Ok(Ics26Envelope::Ics2Msg(ClientMsg::UpgradeClient(m))) => {
            assert_eq!(m.client_id, ClientId::new(ClientType::Beefy, 2));
            assert_eq!(m.height, Height::new(1, 4));
            assert_eq!(m.snapshot, ConsensusSnapshot { timestamp: 3, root: 4 });
            assert_eq!(m.proof_upgrade_client, vec![5]);
            assert_eq!(m.proof_upgrade_consensus_state, vec![6]);
        }
        other => panic!("unexpected: {:?}", other),
    }
    assert!(refused(upgrade("beefy")));
    assert!(refused(upgrade("11-beefy-")));

    let init_from = |proposed: Option<RawVersion>, theirs: Option<RawConnectionCounterparty>| {
        tagged(
            MsgKind::ConnectionOpenInit,
            RawPayload::ConnectionOpenInit(RawMsgConnectionOpenInit {
                client_id: "07-tendermint-1".to_string(),
                counterparty: theirs,
                version: proposed,
                signer: "relayer".to_string(),
            }),
        )
    };
    let init = |proposed: Option<RawVersion>| {
        init_from(
            proposed,
            Some(RawConnectionCounterparty {
                client_id: "10-grandpa-6".to_string(),
                connection_id: String::new(),
            }),
        )
    };
    assert!(refused(init_from(None, None)));
    match decode(init(None)) {
        Ok(Ics26Envelope::Ics3Msg(ConnectionMsg::ConnectionOpenInit(m))) => {
            assert_eq!(m.client_id, ClientId::new(ClientType::Tendermint, 1));
            assert_eq!(m.counterparty_client_id, ClientId::new(ClientType::Grandpa, 6));
            assert_eq!(m.version, None);
        }
        other => panic!("unexpected: {:?}", other),
    }
    match decode(init(Some(version("3")))) {
        Ok(Ics26Envelope::Ics3Msg(ConnectionMsg::ConnectionOpenInit(m))) => {
            assert_eq!(m.version, Some(Version { identifier: 3, ordered: false, unordered: true }));
        }
        other => panic!("unexpected: {:?}", other),
    }
    assert!(refused(init(Some(version("")))));

    let ack = |chosen: Option<RawVersion>, connection: &str| {
        tagged(
            MsgKind::ConnectionOpenAck,
            RawPayload::ConnectionOpenAck(RawMsgConnectionOpenAck {
                connection_id: connection.to_string(),
                counterparty_connection_id: "connection-9".to_string(),
                version: chosen,
                proof_try: vec![1],
                proof_height: height,
                consensus_height: height,
                signer: "relayer".to_string(),
            }),
        )
    };
    match decode(ack(Some(version("1")), "connection-0")) {
        Ok(Ics26Envelope::Ics3Msg(ConnectionMsg::ConnectionOpenAck(m))) => {
            assert_eq!(m.connection_id, ConnectionId(0));
            assert_eq!(m.counterparty_connection_id, ConnectionId(9));
            assert_eq!(m.version.identifier, 1);
        }
        other => panic!("unexpected: {:?}", other),
    }
    assert!(refused(ack(None, "connection-0")));
    assert!(refused(ack(Some(version("1")), "connection")));

    let confirm = |connection: &str, height: Option<RawHeight>| {
        tagged(
            MsgKind::ConnectionOpenConfirm,
            RawPayload::ConnectionOpenConfirm(RawMsgConnectionOpenConfirm {
                connection_id: connection.to_string(),
                proof_ack: vec![2],
                proof_height: height,
                signer: "relayer".to_string(),
            }),
        )
    };
    assert!(matches!(
        decode(confirm("connection-1", height)),
        Ok(Ics26Envelope::Ics3Msg(ConnectionMsg::ConnectionOpenConfirm(_)))
    ));
    assert!(refused(confirm("connection-1", None)));

    let chan_try = |theirs: &str| {
        tagged(
            MsgKind::ChannelOpenTry,
            RawPayload::ChannelOpenTry(RawMsgChannelOpenTry {
                port_id: "transfer".to_string(),
                channel: Some(RawChannel {
                    ordering: 1,
                    counterparty: Some(RawChannelCounterparty {
                        port_id: "their-port".to_string(),
                        channel_id: theirs.to_string(),
                    }),
                    connection_hops: vec!["connection-0".to_string()],
                    version: "ics20-1".to_string(),
                }),
                counterparty_version: "ics20-2".to_string(),
                proof_init: vec![3],
                proof_height: height,
                signer: "relayer".to_string(),
            }),
        )
    };
    match decode(chan_try("channel-11")) {
        Ok(Ics26Envelope::Ics4ChannelMsg(ChannelMsg::ChannelOpenTry(m))) => {
            assert_eq!(m.ordering, Order::Unordered);
            assert_eq!(m.counterparty_channel_id, ChannelId(11));
            assert_eq!(m.counterparty_port_id.name, "their-port");
            assert_eq!(m.counterparty_version, "ics20-2");
        }
        other => panic!("unexpected: {:?}", other),
    }
    assert!(refused(chan_try("")));

    let chan_ack = |channel: &str| {
        tagged(
            MsgKind::ChannelOpenAck,
            RawPayload::ChannelOpenAck(RawMsgChannelOpenAck {
                port_id: "transfer".to_string(),
                channel_id: channel.to_string(),
                counterparty_channel_id: "channel-2".to_string(),
                counterparty_version: "ics20-1".to_string(),
                proof_try: vec![4],
                proof_height: height,
                signer: "relayer".to_string(),
            }),
        )
    };
    assert!(matches!(
        decode(chan_ack("channel-1")),
        Ok(Ics26Envelope::Ics4ChannelMsg(ChannelMsg::ChannelOpenAck(_)))
    ));
    assert!(refused(chan_ack("channel-one")));

    let chan_confirm = |channel: &str| RawMsgChannelConfirm {
        port_id: "transfer".to_string(),
        channel_id: channel.to_string(),
        proof: vec![6],
        proof_height: height,
        signer: "relayer".to_string(),
    };
    match decode(tagged(
        MsgKind::ChannelOpenConfirm,
        RawPayload::ChannelOpenConfirm(chan_confirm("channel-3")),
    )) {
        Ok(Ics26Envelope::Ics4ChannelMsg(ChannelMsg::ChannelOpenConfirm(m))) => {
            assert_eq!(m.channel_id, ChannelId(3));
            assert_eq!(m.proof_ack, vec![6]);
        }
        other => panic!("unexpected: {:?}", other),
    }
    match decode(tagged(
        MsgKind::ChannelCloseConfirm,
        RawPayload::ChannelCloseConfirm(chan_confirm("channel-3")),
    )) {
        Ok(Ics26Envelope::Ics4ChannelMsg(ChannelMsg::ChannelCloseConfirm(m))) => {
            assert_eq!(m.proof_init, vec![6]);
        }
        other => panic!("unexpected: {:?}", other),
    }
    assert!(refused(tagged(
        MsgKind::ChannelCloseConfirm,
        RawPayload::ChannelOpenConfirm(chan_confirm("channel-3")),
    )));
    assert!(refused(tagged(
        MsgKind::ChannelOpenConfirm,
        RawPayload::ChannelOpenConfirm(chan_confirm("3")),
    )));

    let close = |channel: &str| {
        tagged(
            MsgKind::ChannelCloseInit,
            RawPayload::ChannelCloseInit(RawMsgChannelCloseInit {
                port_id: "transfer".to_string(),
                channel_id: channel.to_string(),
                signer: "relayer".to_string(),
            }),
        )
    };
    assert!(matches!(
        decode(close("channel-0")),
        Ok(Ics26Envelope::Ics4ChannelMsg(ChannelMsg::ChannelCloseInit(_)))
    ));
    assert!(refused(close("connection-0")));

    let about_packet = || RawMsgPacket {
        packet: Some(raw_packet("channel-5")),
        acknowledgement: vec![7],
        proof: vec![8],
        proof_close: vec![9],
        proof_height: height,
        signer: "relayer".to_string(),
    };
    match decode(tagged(MsgKind::AcknowledgePacket, RawPayload::Acknowledgement(about_packet()))) {
        Ok(Ics26Envelope::Ics4PacketMsg(PacketMsg::AckPacket(m))) => {
            assert_eq!(m.acknowledgement, vec![7]);
            assert_eq!(m.proof_acked, vec![8]);
        }
        other => panic!("unexpected: {:?}", other),
    }
    match decode(tagged(MsgKind::TimeoutOnClose, RawPayload::TimeoutOnClose(about_packet()))) {
        Ok(Ics26Envelope::Ics4PacketMsg(PacketMsg::TimeoutOnClosePacket(m))) => {
            assert_eq!(m.proof_unreceived, vec![8]);
            assert_eq!(m.proof_close, vec![9]);
            assert_eq!(m.proof_height, Height::new(1, 4));
        }
        other => panic!("unexpected: {:?}", other),
    }
    assert!(refused(tagged(MsgKind::TimeoutPacket, RawPayload::TimeoutOnClose(about_packet()))));
}

#[test]
fn a_tag_names_one_kind_or_none() {
    assert_eq!(kind_of_tag("/ibc.core.client.v1.MsgCreateClient"), Some(MsgKind::CreateClient));
    assert_eq!(kind_of_tag("/ibc.core.client.v1.MsgUpdateClient"), Some(MsgKind::UpdateClient));
    assert_eq!(kind_of_tag("/ibc.core.client.v1.MsgUpgradeClient"), Some(MsgKind::UpgradeClient));
    assert_eq!(
        kind_of_tag("/ibc.core.connection.v1.MsgConnectionOpenConfirm"),
        Some(MsgKind::ConnectionOpenConfirm)
    );
    assert_eq!(
        kind_of_tag("/ibc.core.channel.v1.MsgAcknowledgement"),
        Some(MsgKind::AcknowledgePacket)
    );
    assert_eq!(kind_of_tag("/ibc.core.channel.v1.MsgTimeout"), Some(MsgKind::TimeoutPacket));
    assert_eq!(
        kind_of_tag("/ibc.core.channel.v1.MsgTimeoutOnClose"),
        Some(MsgKind::TimeoutOnClose)
    );
    assert_eq!(kind_of_tag("/ibc.core.channel.v1.MsgTimeoutOnClos"), None);
    assert_eq!(kind_of_tag("ibc.core.client.v1.MsgCreateClient"), None);
    assert_eq!(kind_of_tag(""), None);
    for kind in [MsgKind::ChannelOpenTry, MsgKind::RecvPacket, MsgKind::ChannelCloseInit] {
        assert_eq!(kind_of_tag(kind.type_url()), Some(kind));
    }
}
