use saf_handler::request::handle_stored_messages_request;
use saf_handler::response::handle_stored_messages;
use saf_handler::{
    Answers, BroadcastStrategy, CommsHeader, DecryptedDhtMessage, DhtConfig, DhtHeader,
    DhtMessageType, Dispatch, Disposition, Effects, EntryEvidence, Message, MessageHandlerTask,
    NodeDestination, NodeId, NodeIdentity, OutboundEncryption, Peer, PublicKey, RequestHandler,
    ResponseHandler, SafStore, StoreAndForwardError, StoredMessage, StoredMessagesRequest,
    StoredMessagesResponse,
};

const NOW: i64 = 1_600_000_000;

fn public_key(tag: u8) -> PublicKey {
    PublicKey::new(vec![tag; 32])
}

fn node_id(tag: u8) -> NodeId {
    NodeId::new(vec![tag; 13])
}

fn peer(tag: u8) -> Peer {
    Peer::new(node_id(tag), public_key(tag))
}

fn node_identity(tag: u8) -> NodeIdentity {
    NodeIdentity::new(node_id(tag), public_key(tag))
}

fn comms_header(tag: u8) -> CommsHeader {
    CommsHeader { message_public_key: public_key(tag), message_signature: vec![tag, tag] }
}

fn dht_header(origin: u8, destination: NodeDestination, message_type: DhtMessageType) -> DhtHeader {
    DhtHeader {
        destination,
        origin_public_key: public_key(origin),
        origin_signature: vec![origin; 64],
        message_type,
    }
}

fn stored(body: &[u8], stored_at: i64, origin: u8, destination: NodeDestination) -> StoredMessage {
    StoredMessage::new(
        0,
        comms_header(origin),
        dht_header(origin, destination, DhtMessageType::UserMessage),
        body.to_vec(),
        stored_at,
    )
}

fn inbound(source: u8, message_type: DhtMessageType, body: &[u8]) -> DecryptedDhtMessage {
    DecryptedDhtMessage::succeeded(
        Message::new(vec![], body.to_vec()),
        0,
        peer(source),
        comms_header(source),
        dht_header(source, NodeDestination::Undisclosed, message_type),
    )
}

fn undecrypted(source: u8, message_type: DhtMessageType, body: &[u8]) -> DecryptedDhtMessage {
    DecryptedDhtMessage::failed(
        body.to_vec(),
        0,
        peer(source),
        comms_header(source),
        dht_header(source, NodeDestination::Undisclosed, message_type),
    )
}

fn no_answers() -> Answers {
    Answers {
        request: None,
        nearest: vec![],
        sent: false,
        response: None,
        evidence: vec![],
        accepted: false,
    }
}

fn good_evidence(body: &[u8], origin: u8) -> EntryEvidence {
    EntryEvidence {
        signature: Some(true),
        decrypted: Some(Message::new(vec![], body.to_vec())),
        origin: Some(peer(origin)),
    }
}

fn run(message: DecryptedDhtMessage, answers: Answers, store: &mut SafStore) -> Effects {
    MessageHandlerTask::new(DhtConfig::default(), node_identity(1), message)
        .run_to_end(answers, Some(store), NOW)
}

#[test]
fn request_stored_messages() {
    let mut storage = SafStore::new(10);
    // Recent message
    storage.insert(vec![0], stored(b"A", NOW, 1, NodeDestination::Undisclosed), 60, NOW);
    // Expired message
    storage.insert(vec![1], stored(b"", NOW, 1, NodeDestination::Undisclosed), 0, NOW);

    let message = inbound(1, DhtMessageType::SafRequestMessages, b"request");
    let answers = Answers {
        request: Some(StoredMessagesRequest::since(NOW - 60)),
        nearest: vec![node_id(3), node_id(1)],
        sent: true,
        ..no_answers()
    };
    let done = run(message, answers, &mut storage);

    assert_eq!(done.result, Ok(()));
    let msg = done.outbound.unwrap();
    assert_eq!(msg.payload.messages.len(), 1);
    assert_eq!(msg.payload.messages[0].encrypted_body, b"A");
    assert!(done.downstream.is_empty());
}

#[test]
fn receive_stored_messages() {
    let mut storage = SafStore::new(10);
    let message = inbound(1, DhtMessageType::SafStoredMessages, b"response");
    let answers = Answers {
        response: Some(StoredMessagesResponse::new(vec![
            stored(b"sealed A", NOW, 1, NodeDestination::Undisclosed),
            stored(b"sealed B", NOW, 1, NodeDestination::Undisclosed),
        ])),
        evidence: vec![good_evidence(b"A", 1), good_evidence(b"B", 1)],
        accepted: true,
        ..no_answers()
    };
    let done = run(message, answers, &mut storage);

    assert_eq!(done.result, Ok(()));
    assert_eq!(done.downstream.len(), 2);
    let msgs = done
        .downstream
        .iter()
        .map(|req| req.success().unwrap().body.clone())
        .collect::<Vec<Vec<u8>>>();
    assert!(msgs.contains(&b"A".to_vec()));
    assert!(msgs.contains(&b"B".to_vec()));
    assert!(done.outbound.is_none());
}

#[test]
fn request_is_filtered_by_time() {
    let day = 24 * 60 * 60;
    let mut storage = SafStore::new(10);
    storage.insert(vec![0], stored(b"A", NOW, 2, NodeDestination::Undisclosed), 60, NOW);
    storage.insert(vec![1], stored(b"", NOW, 2, NodeDestination::Undisclosed), 0, NOW);
    storage.insert(vec![2], stored(b"", NOW - day, 2, NodeDestination::Undisclosed), 60, NOW);

    let message = inbound(7, DhtMessageType::SafRequestMessages, b"request");
    let answers = Answers {
        request: Some(StoredMessagesRequest::since(NOW - 60)),
        nearest: vec![node_id(3), node_id(7)],
        sent: true,
        ..no_answers()
    };
    let done = run(message, answers, &mut storage);

    assert_eq!(done.result, Ok(()));
    let reply = done.outbound.unwrap();
    assert_eq!(reply.strategy, BroadcastStrategy::DirectPublicKey(public_key(7)));
    assert_eq!(reply.destination, NodeDestination::Undisclosed);
    assert_eq!(reply.encryption, OutboundEncryption::EncryptForDestination);
    assert_eq!(reply.message_type, DhtMessageType::SafStoredMessages);
    assert_eq!(reply.payload.len(), 1);
    assert_eq!(reply.payload.messages[0].encrypted_body, b"A");
    assert!(done.downstream.is_empty());
    assert!(done.discarded.is_empty());
    // The expired entry left the store on the way, the old one stayed.
    assert_eq!(storage.len(), 2);
}

#[test]
fn request_without_since_gets_everything_live() {
    let day = 24 * 60 * 60;
    let mut storage = SafStore::new(10);
    storage.insert(vec![0], stored(b"A", NOW, 2, NodeDestination::Undisclosed), 60, NOW);
    storage.insert(vec![1], stored(b"B", NOW, 2, NodeDestination::Undisclosed), 0, NOW);
    storage.insert(vec![2], stored(b"C", NOW - day, 2, NodeDestination::Undisclosed), 60, NOW);

    let message = inbound(7, DhtMessageType::SafRequestMessages, b"request");
    let answers = Answers {
        request: Some(StoredMessagesRequest::new()),
        nearest: vec![node_id(3), node_id(7)],
        sent: true,
        ..no_answers()
    };
    let done = run(message, answers, &mut storage);
    let bodies: Vec<Vec<u8>> =
        done.outbound.unwrap().payload.messages.into_iter().map(|m| m.encrypted_body).collect();
    assert_eq!(bodies, vec![b"A".to_vec(), b"C".to_vec()]);
}

#[test]
fn request_since_the_future_gets_an_empty_reply() {
    let mut storage = SafStore::new(10);
    storage.insert(vec![0], stored(b"A", NOW, 2, NodeDestination::Undisclosed), 60, NOW);
    let message = inbound(7, DhtMessageType::SafRequestMessages, b"request");
    let answers = Answers {
        request: Some(StoredMessagesRequest::since(NOW + 1)),
        nearest: vec![node_id(3), node_id(7)],
        sent: true,
        ..no_answers()
    };
    let done = run(message, answers, &mut storage);
    assert_eq!(done.result, Ok(()));
    let reply = done.outbound.unwrap();
    assert!(reply.payload.is_empty());
    assert_eq!(reply.strategy, BroadcastStrategy::DirectPublicKey(public_key(7)));
    assert_eq!(storage.len(), 1);
}

#[test]
fn request_on_an_empty_store_still_gets_a_reply() {
    let mut storage = SafStore::new(10);
    let message = inbound(7, DhtMessageType::SafRequestMessages, b"request");
    let answers = Answers {
        request: Some(StoredMessagesRequest::new()),
        nearest: vec![node_id(3), node_id(7)],
        sent: true,
        ..no_answers()
    };
    let done = run(message, answers, &mut storage);
    assert_eq!(done.result, Ok(()));
    assert_eq!(done.outbound.unwrap().payload.len(), 0);
}

#[test]
fn request_that_does_not_decode_fails() {
    let mut storage = SafStore::new(10);
    storage.insert(vec![0], stored(b"A", NOW, 2, NodeDestination::Undisclosed), 0, NOW);
    let message = inbound(7, DhtMessageType::SafRequestMessages, b"garbage");
    let answers = Answers {
        request: None,
        nearest: vec![node_id(3), node_id(7)],
        sent: true,
        ..no_answers()
    };
    let done = run(message, answers, &mut storage);
    assert_eq!(done.result, Err(StoreAndForwardError::InvalidEnvelopeBody));
    assert!(done.outbound.is_none());
    assert!(done.downstream.is_empty());
    // Nothing was read, so even the expired entry is still there.
    assert_eq!(storage.len(), 1);
}

#[test]
fn request_from_outside_the_region_is_ignored() {
    let mut storage = SafStore::new(10);
    storage.insert(vec![0], stored(b"A", NOW, 2, NodeDestination::Undisclosed), 60, NOW);
    storage.insert(vec![1], stored(b"B", NOW, 2, NodeDestination::Undisclosed), 0, NOW);
    let message = inbound(7, DhtMessageType::SafRequestMessages, b"request");
    let answers = Answers {
        request: Some(StoredMessagesRequest::new()),
        nearest: vec![node_id(3), node_id(4)],
        sent: true,
        ..no_answers()
    };
    let done = run(message, answers, &mut storage);
    assert_eq!(done.result, Ok(()));
    assert!(done.outbound.is_none());
    assert!(done.downstream.is_empty());
    assert!(done.discarded.is_empty());
    assert_eq!(storage.len(), 2);
}

#[test]
fn request_without_a_store_fails() {
    let message = inbound(7, DhtMessageType::SafRequestMessages, b"request");
    let answers = Answers {
        request: Some(StoredMessagesRequest::new()),
        nearest: vec![node_id(3), node_id(7)],
        sent: true,
        ..no_answers()
    };
    let done = MessageHandlerTask::new(DhtConfig::default(), node_identity(1), message)
        .run_to_end(answers, None, NOW);
    assert_eq!(done.result, Err(StoreAndForwardError::StoreUnavailable));
    assert!(done.outbound.is_none());
}

#[test]
fn reply_that_cannot_be_sent_fails() {
    let mut storage = SafStore::new(10);
    storage.insert(vec![0], stored(b"A", NOW, 2, NodeDestination::Undisclosed), 60, NOW);
    let message = inbound(7, DhtMessageType::SafRequestMessages, b"request");
    let answers = Answers {
        request: Some(StoredMessagesRequest::new()),
        nearest: vec![node_id(3), node_id(7)],
        sent: false,
        ..no_answers()
    };
    let done = run(message, answers, &mut storage);
    assert_eq!(done.result, Err(StoreAndForwardError::OutboundFailed));
    assert_eq!(done.outbound.unwrap().payload.len(), 1);
    assert!(done.downstream.is_empty());
}

#[test]
fn reply_is_capped_by_the_configuration() {
    let mut storage = SafStore::new(10);
    for i in 0..5u8 {
        storage.insert(vec![i], stored(&[i], NOW, 2, NodeDestination::Undisclosed), 60, NOW);
    }
    let config = DhtConfig { saf_max_returned_messages: 3, ..DhtConfig::default() };
    let message = inbound(7, DhtMessageType::SafRequestMessages, b"request");
    let answers = Answers {
        request: Some(StoredMessagesRequest::new()),
        nearest: vec![node_id(3), node_id(7)],
        sent: true,
        ..no_answers()
    };
    let done = MessageHandlerTask::new(config, node_identity(1), message)
        .run_to_end(answers, Some(&mut storage), NOW);
    let bodies: Vec<Vec<u8>> =
        done.outbound.unwrap().payload.messages.into_iter().map(|m| m.encrypted_body).collect();
    assert_eq!(bodies, vec![vec![0u8], vec![1u8], vec![2u8]]);
}

#[test]
fn reply_holds_only_what_is_for_the_requester() {
    let mut storage = SafStore::new(10);
    storage.insert(vec![0], stored(b"any", NOW, 2, NodeDestination::Undisclosed), 60, NOW);
    storage.insert(
        vec![1],
        stored(b"key 7", NOW, 2, NodeDestination::PublicKey(public_key(7))),
        60,
        NOW,
    );
    storage.insert(
        vec![2],
        stored(b"key 8", NOW, 2, NodeDestination::PublicKey(public_key(8))),
        60,
        NOW,
    );
    storage.insert(vec![3], stored(b"id 7", NOW, 2, NodeDestination::NodeId(node_id(7))), 60, NOW);
    storage.insert(vec![4], stored(b"id 8", NOW, 2, NodeDestination::NodeId(node_id(8))), 60, NOW);
    let message = inbound(7, DhtMessageType::SafRequestMessages, b"request");
    let answers = Answers {
        request: Some(StoredMessagesRequest::new()),
        nearest: vec![node_id(3), node_id(7)],
        sent: true,
        ..no_answers()
    };
    let done = run(message, answers, &mut storage);
    let bodies: Vec<Vec<u8>> =
        done.outbound.unwrap().payload.messages.into_iter().map(|m| m.encrypted_body).collect();
    assert_eq!(bodies, vec![b"any".to_vec(), b"key 7".to_vec(), b"id 7".to_vec()]);
    assert_eq!(storage.len(), 5);
}

#[test]
fn batch_is_fanned_out() {
    let mut storage = SafStore::new(10);
    let message = inbound(9, DhtMessageType::SafStoredMessages, b"response");
    let first = stored(b"sealed A", NOW, 3, NodeDestination::PublicKey(public_key(1)));
    let second = stored(b"sealed B", NOW, 4, NodeDestination::NodeId(node_id(1)));
    let answers = Answers {
        response: Some(StoredMessagesResponse::new(vec![first.clone(), second.clone()])),
        evidence: vec![good_evidence(b"A", 3), good_evidence(b"B", 4)],
        accepted: true,
        ..no_answers()
    };
    let done = run(message, answers, &mut storage);
    assert_eq!(done.result, Ok(()));
    assert!(done.outbound.is_none());
    assert!(done.discarded.is_empty());
    assert_eq!(
        done.downstream,
        vec![
            DecryptedDhtMessage::succeeded(
                Message::new(vec![], b"A".to_vec()),
                0,
                peer(3),
                first.comms_header,
                first.dht_header,
            ),
            DecryptedDhtMessage::succeeded(
                Message::new(vec![], b"B".to_vec()),
                0,
                peer(4),
                second.comms_header,
                second.dht_header,
            ),
        ]
    );
}

#[test]
fn batch_with_a_bad_signature_is_dropped_with_a_warning() {
    let mut storage = SafStore::new(10);
    let message = inbound(9, DhtMessageType::SafStoredMessages, b"response");
    let answers = Answers {
        response: Some(StoredMessagesResponse::new(vec![stored(
            b"sealed",
            NOW,
            3,
            NodeDestination::Undisclosed,
        )])),
        evidence: vec![EntryEvidence { signature: Some(false), ..good_evidence(b"A", 3) }],
        accepted: true,
        ..no_answers()
    };
    let done = run(message, answers, &mut storage);
    assert_eq!(done.result, Ok(()));
    assert!(done.downstream.is_empty());
    assert_eq!(done.discarded.len(), 1);
    assert_eq!(done.discarded[0].index, 0);
    assert_eq!(done.discarded[0].error, StoreAndForwardError::InvalidSignature);
    assert_eq!(done.discarded[0].disposition, Disposition::Misbehaviour);
}

#[test]
fn batch_for_another_node_is_dropped_with_a_warning() {
    let mut storage = SafStore::new(10);
    let message = inbound(9, DhtMessageType::SafStoredMessages, b"response");
    let answers = Answers {
        response: Some(StoredMessagesResponse::new(vec![stored(
            b"sealed",
            NOW,
            3,
            NodeDestination::PublicKey(public_key(2)),
        )])),
        evidence: vec![good_evidence(b"A", 3)],
        accepted: true,
        ..no_answers()
    };
    let done = run(message, answers, &mut storage);
    assert_eq!(done.result, Ok(()));
    assert!(done.downstream.is_empty());
    assert_eq!(done.discarded.len(), 1);
    assert_eq!(done.discarded[0].error, StoreAndForwardError::InvalidDestination);
    assert_eq!(done.discarded[0].disposition, Disposition::Misbehaviour);
}

#[test]
fn batch_from_a_stranger_is_dropped_quietly() {
    let mut storage = SafStore::new(10);
    let message = inbound(9, DhtMessageType::SafStoredMessages, b"response");
    let answers = Answers {
        response: Some(StoredMessagesResponse::new(vec![stored(
            b"sealed",
            NOW,
            3,
            NodeDestination::Undisclosed,
        )])),
        evidence: vec![EntryEvidence { origin: None, ..good_evidence(b"A", 3) }],
        accepted: true,
        ..no_answers()
    };
    let done = run(message, answers, &mut storage);
    assert_eq!(done.result, Ok(()));
    assert!(done.downstream.is_empty());
    assert_eq!(done.discarded.len(), 1);
    assert_eq!(done.discarded[0].error, StoreAndForwardError::PeerNotFound);
    assert_eq!(done.discarded[0].disposition, Disposition::Expected);
}

#[test]
fn batch_that_does_not_decrypt_is_dropped_quietly() {
    let mut storage = SafStore::new(10);
    let message = inbound(9, DhtMessageType::SafStoredMessages, b"response");
    let answers = Answers {
        response: Some(StoredMessagesResponse::new(vec![stored(
            b"sealed",
            NOW,
            3,
            NodeDestination::Undisclosed,
        )])),
        evidence: vec![EntryEvidence { decrypted: None, ..good_evidence(b"A", 3) }],
        accepted: true,
        ..no_answers()
    };
    let done = run(message, answers, &mut storage);
    assert_eq!(done.result, Ok(()));
    assert!(done.downstream.is_empty());
    assert_eq!(done.discarded[0].error, StoreAndForwardError::DecryptionFailed);
    assert_eq!(done.discarded[0].disposition, Disposition::Expected);
}

#[test]
fn batch_that_does_not_decode_fails() {
    let mut storage = SafStore::new(10);
    let message = inbound(9, DhtMessageType::SafStoredMessages, b"garbage");
    let answers = Answers { response: None, accepted: true, ..no_answers() };
    let done = run(message, answers, &mut storage);
    assert_eq!(done.result, Err(StoreAndForwardError::InvalidEnvelopeBody));
    assert!(done.downstream.is_empty());
    assert!(done.discarded.is_empty());
}

#[test]
fn batch_survives_a_failing_next_stage() {
    let mut storage = SafStore::new(10);
    let message = inbound(9, DhtMessageType::SafStoredMessages, b"response");
    let answers = Answers {
        response: Some(StoredMessagesResponse::new(vec![stored(
            b"sealed",
            NOW,
            3,
            NodeDestination::Undisclosed,
        )])),
        evidence: vec![good_evidence(b"A", 3)],
        accepted: false,
        ..no_answers()
    };
    let done = run(message, answers, &mut storage);
    assert_eq!(done.result, Ok(()));
    assert_eq!(done.downstream.len(), 1);
}

#[test]
fn batch_failures_do_not_stop_the_rest() {
    let mut storage = SafStore::new(10);
    let message = inbound(9, DhtMessageType::SafStoredMessages, b"response");
    let answers = Answers {
        response: Some(StoredMessagesResponse::new(vec![
            stored(b"0", NOW, 3, NodeDestination::NodeId(node_id(2))),
            stored(b"1", NOW, 3, NodeDestination::Undisclosed),
            stored(b"2", NOW, 4, NodeDestination::Undisclosed),
            stored(b"3", NOW, 5, NodeDestination::Undisclosed),
            stored(b"4", NOW, 6, NodeDestination::Undisclosed),
        ])),
        evidence: vec![
            good_evidence(b"zero", 3),
            good_evidence(b"one", 3),
            EntryEvidence { signature: None, ..good_evidence(b"two", 4) },
            good_evidence(b"three", 5),
            // Nothing was found out about the last entry.
        ],
        accepted: true,
        ..no_answers()
    };
    let done = run(message, answers, &mut storage);
    assert_eq!(done.result, Ok(()));
    let bodies: Vec<Vec<u8>> =
        done.downstream.iter().map(|m| m.success().unwrap().body.clone()).collect();
    assert_eq!(bodies, vec![b"one".to_vec(), b"three".to_vec()]);
    let failed: Vec<(usize, StoreAndForwardError)> =
        done.discarded.iter().map(|d| (d.index, d.error)).collect();
    assert_eq!(
        failed,
        vec![
            (0, StoreAndForwardError::InvalidDestination),
            (2, StoreAndForwardError::InvalidSignature),
            (4, StoreAndForwardError::InvalidSignature),
        ]
    );
    assert_eq!(done.downstream.len() + done.discarded.len(), 5);
}

#[test]
fn other_messages_pass_unchanged() {
    let mut storage = SafStore::new(10);
    storage.insert(vec![0], stored(b"A", NOW, 2, NodeDestination::Undisclosed), 0, NOW);
    let message = inbound(5, DhtMessageType::UserMessage, b"hello");
    let answers = Answers { accepted: true, ..no_answers() };
    let done = run(message, answers, &mut storage);
    assert_eq!(done.result, Ok(()));
    assert_eq!(done.downstream, vec![inbound(5, DhtMessageType::UserMessage, b"hello")]);
    assert!(done.outbound.is_none());
    assert!(done.discarded.is_empty());
    assert_eq!(storage.len(), 1);
}

#[test]
fn other_control_messages_pass_when_decrypted() {
    let mut storage = SafStore::new(10);
    for message_type in [DhtMessageType::Join, DhtMessageType::Discover] {
        let answers = Answers { accepted: true, ..no_answers() };
        let done = run(inbound(5, message_type, b"hello"), answers, &mut storage);
        assert_eq!(done.downstream, vec![inbound(5, message_type, b"hello")]);
        assert_eq!(done.result, Ok(()));
    }
}

#[test]
fn undecrypted_user_message_passes() {
    let mut storage = SafStore::new(10);
    let answers = Answers { accepted: true, ..no_answers() };
    let done = run(undecrypted(5, DhtMessageType::UserMessage, b"sealed"), answers, &mut storage);
    assert_eq!(done.downstream, vec![undecrypted(5, DhtMessageType::UserMessage, b"sealed")]);
    assert_eq!(done.result, Ok(()));
}

#[test]
fn undecrypted_control_messages_are_dropped() {
    let mut storage = SafStore::new(10);
    for message_type in [
        DhtMessageType::Join,
        DhtMessageType::Discover,
        DhtMessageType::SafRequestMessages,
        DhtMessageType::SafStoredMessages,
    ] {
        let answers = Answers {
            request: Some(StoredMessagesRequest::new()),
            nearest: vec![node_id(3), node_id(5)],
            sent: true,
            response: Some(StoredMessagesResponse::new(vec![])),
            evidence: vec![],
            accepted: true,
        };
        let done = run(undecrypted(5, message_type, b"sealed"), answers, &mut storage);
        assert_eq!(done.result, Ok(()));
        assert!(done.downstream.is_empty());
        assert!(done.outbound.is_none());
    }
}

#[test]
fn passing_reports_what_the_next_stage_says() {
    let mut storage = SafStore::new(10);
    let answers = Answers { accepted: false, ..no_answers() };
    let done = run(inbound(5, DhtMessageType::UserMessage, b"hello"), answers, &mut storage);
    assert_eq!(done.result, Err(StoreAndForwardError::DownstreamFailed));
    assert_eq!(done.downstream.len(), 1);
}

#[test]
fn run_routes_by_type() {
    let task = MessageHandlerTask::new(
        DhtConfig::default(),
        node_identity(1),
        inbound(7, DhtMessageType::SafRequestMessages, b"request"),
    );
    match task.run() {
        Dispatch::ServeRequest(handler) => {
            assert_eq!(handler.requester, peer(7));
            assert_eq!(handler.body, b"request");
            assert_eq!(handler.node_identity, node_identity(1));
            assert_eq!(handler.config, DhtConfig::default());
        },
        other => panic!("unexpected dispatch: {:?}", other),
    }
    let task = MessageHandlerTask::new(
        DhtConfig::default(),
        node_identity(1),
        inbound(9, DhtMessageType::SafStoredMessages, b"response"),
    );
    match task.run() {
        Dispatch::ReceiveStored(handler) => {
            assert_eq!(handler.relay, peer(9));
            assert_eq!(handler.body, b"response");
            assert_eq!(handler.node_identity, node_identity(1));
        },
        other => panic!("unexpected dispatch: {:?}", other),
    }
    let task = MessageHandlerTask::new(
        DhtConfig::default(),
        node_identity(1),
        undecrypted(9, DhtMessageType::SafStoredMessages, b"response"),
    );
    assert_eq!(task.run(), Dispatch::Discard);
    let task = MessageHandlerTask::new(
        DhtConfig::default(),
        node_identity(1),
        inbound(9, DhtMessageType::UserMessage, b"hello"),
    );
    assert_eq!(
        task.run(),
        Dispatch::PassDownstream(inbound(9, DhtMessageType::UserMessage, b"hello"))
    );
}

#[test]
fn request_from_beyond_the_nearest_is_ignored() {
    let mut storage = SafStore::new(10);
    storage.insert(vec![0], stored(b"A", NOW, 2, NodeDestination::Undisclosed), 60, NOW);
    let config = DhtConfig { saf_num_closest_nodes: 2, ..DhtConfig::default() };
    let answers = || Answers {
        request: Some(StoredMessagesRequest::new()),
        nearest: vec![node_id(3), node_id(4), node_id(7)],
        sent: true,
        ..no_answers()
    };
    // The requester is known, but two peers are nearer.
    let message = inbound(7, DhtMessageType::SafRequestMessages, b"request");
    let done = MessageHandlerTask::new(config, node_identity(1), message)
        .run_to_end(answers(), Some(&mut storage), NOW);
    assert_eq!(done.result, Ok(()));
    assert!(done.outbound.is_none());
    // With room for three it is served.
    let config = DhtConfig { saf_num_closest_nodes: 3, ..DhtConfig::default() };
    let message = inbound(7, DhtMessageType::SafRequestMessages, b"request");
    let done = MessageHandlerTask::new(config, node_identity(1), message)
        .run_to_end(answers(), Some(&mut storage), NOW);
    assert_eq!(done.result, Ok(()));
    assert_eq!(done.outbound.unwrap().payload.len(), 1);
}

#[test]
fn request_handler_runs_from_decoding_to_sending() {
    let mut storage = SafStore::new(10);
    storage.insert(vec![0], stored(b"A", NOW, 2, NodeDestination::NodeId(node_id(7))), 60, NOW);
    storage.insert(vec![1], stored(b"B", NOW, 2, NodeDestination::NodeId(node_id(8))), 60, NOW);
    let handler =
        || RequestHandler::new(DhtConfig::default(), node_identity(1), peer(7), b"body".to_vec());
    let request = Some(StoredMessagesRequest::new());
    let nearest = vec![node_id(7)];

    let done = handle_stored_messages_request(handler(), None, &nearest, Some(&mut storage), NOW, true);
    assert_eq!(done.result, Err(StoreAndForwardError::InvalidEnvelopeBody));
    assert!(done.outbound.is_none());

    let done = handle_stored_messages_request(handler(), request, &vec![], Some(&mut storage), NOW, true);
    assert_eq!(done.result, Ok(()));
    assert!(done.outbound.is_none());

    let done = handle_stored_messages_request(handler(), request, &nearest, None, NOW, true);
    assert_eq!(done.result, Err(StoreAndForwardError::StoreUnavailable));
    assert!(done.outbound.is_none());

    let done = handle_stored_messages_request(handler(), request, &nearest, Some(&mut storage), NOW, false);
    assert_eq!(done.result, Err(StoreAndForwardError::OutboundFailed));
    assert_eq!(done.outbound.unwrap().payload.len(), 1);

    let done = handle_stored_messages_request(handler(), request, &nearest, Some(&mut storage), NOW, true);
    assert_eq!(done.result, Ok(()));
    let reply = done.outbound.unwrap();
    assert_eq!(reply.strategy, BroadcastStrategy::DirectPublicKey(public_key(7)));
    assert_eq!(reply.payload.messages[0].encrypted_body, b"A");
    assert_eq!(reply.payload.len(), 1);
    assert!(done.downstream.is_empty());
    assert!(done.discarded.is_empty());
}

#[test]
fn response_handler_runs_from_decoding_to_delivery() {
    let handler = || ResponseHandler::new(node_identity(1), peer(9), b"body".to_vec());
    let response = || {
        Some(StoredMessagesResponse::new(vec![
            stored(b"sealed A", NOW, 3, NodeDestination::Undisclosed),
            stored(b"sealed B", NOW, 4, NodeDestination::Undisclosed),
        ]))
    };

    let done = handle_stored_messages(handler(), None, vec![good_evidence(b"A", 3)], true);
    assert_eq!(done.result, Err(StoreAndForwardError::InvalidEnvelopeBody));
    assert!(done.downstream.is_empty());

    let evidence = vec![
        good_evidence(b"A", 3),
        EntryEvidence { decrypted: None, ..good_evidence(b"B", 4) },
    ];
    let done = handle_stored_messages(handler(), response(), evidence, false);
    assert_eq!(done.result, Ok(()));
    assert!(done.outbound.is_none());
    assert_eq!(done.downstream.len(), 1);
    assert_eq!(done.downstream[0].source_peer, peer(3));
    assert_eq!(done.downstream[0].success().unwrap().body, b"A");
    assert_eq!(done.discarded.len(), 1);
    assert_eq!(done.discarded[0].index, 1);
    assert_eq!(done.discarded[0].error, StoreAndForwardError::DecryptionFailed);
}
