use amiquip::ConnectionBlockedNotification;
use amiquip::Engine;
use amiquip::EngineEvent;
use amiquip::EngineRequest;
use amiquip::ErrorKind;
use amiquip::OutboundFrame;
use crossbeam_channel::unbounded;

fn open_channel_event(
    requested_id: Option<u16>,
) -> (EngineEvent, crossbeam_channel::Receiver<Result<u16, amiquip::Error>>) {
    let (reply, reply_rx) = unbounded();
    (
        EngineEvent::Request(EngineRequest::OpenChannel { requested_id, reply }),
        reply_rx,
    )
}

#[test]
fn explicit_channel_id_granted_once_then_unavailable() {
    let (frame_tx, _frame_rx) = unbounded();
    let mut eng = Engine::new(16, frame_tx);

    let (ev, reply_rx) = open_channel_event(Some(5));
    assert!(eng.handle_event(ev).is_none());
    assert_eq!(reply_rx.try_recv().unwrap().unwrap(), 5);

    let (ev, reply_rx) = open_channel_event(Some(5));
    assert!(eng.handle_event(ev).is_none());
    match reply_rx.try_recv().unwrap() {
        Err(e) => assert_eq!(e.kind(), &ErrorKind::UnavailableChannelId(5)),
        Ok(id) => panic!("second open of id 5 must fail, got {}", id),
    }
}

#[test]
fn automatic_ids_are_lowest_free_until_exhausted() {
    let (frame_tx, _frame_rx) = unbounded();
    let mut eng = Engine::new(2, frame_tx);

    let (ev, r1) = open_channel_event(None);
    eng.handle_event(ev);
    assert_eq!(r1.try_recv().unwrap().unwrap(), 1);

    let (ev, r2) = open_channel_event(None);
    eng.handle_event(ev);
    assert_eq!(r2.try_recv().unwrap().unwrap(), 2);

    let (ev, r3) = open_channel_event(None);
    eng.handle_event(ev);
    match r3.try_recv().unwrap() {
        Err(e) => assert_eq!(e.kind(), &ErrorKind::ExhaustedChannelIds),
        Ok(id) => panic!("open beyond capacity must fail, got {}", id),
    }
}

#[test]
fn second_blocked_listener_replaces_the_first() {
    let (frame_tx, _frame_rx) = unbounded();
    let mut eng = Engine::new(4, frame_tx);
    let (tx1, rx1) = unbounded();
    let (tx2, rx2) = unbounded();

    eng.handle_event(EngineEvent::Request(EngineRequest::SetBlockedTx { tx: tx1 }));
    eng.handle_event(EngineEvent::Request(EngineRequest::SetBlockedTx { tx: tx2 }));
    eng.handle_event(EngineEvent::Blocked("resource pressure".to_string()));

    assert_eq!(
        rx2.try_recv().unwrap(),
        ConnectionBlockedNotification::Blocked("resource pressure".to_string()),
    );
    assert!(rx1.try_recv().is_err());

    eng.handle_event(EngineEvent::Unblocked);
    assert_eq!(rx2.try_recv().unwrap(), ConnectionBlockedNotification::Unblocked);
    assert!(rx1.try_recv().is_err());
}

#[test]
fn forced_close_reaches_every_later_caller() {
    let (frame_tx, _frame_rx) = unbounded();
    let mut eng = Engine::new(4, frame_tx);

    eng.handle_event(EngineEvent::ServerClose(320, "CONNECTION_FORCED".to_string()));

    let (ev, reply_rx) = open_channel_event(Some(1));
    assert!(eng.handle_event(ev).is_none());
    match reply_rx.try_recv().unwrap() {
        Err(e) => assert_eq!(
            e.kind(),
            &ErrorKind::ServerClosedConnection(320, "CONNECTION_FORCED".to_string()),
        ),
        Ok(id) => panic!("open on a doomed connection must fail, got {}", id),
    }

    match eng.handle_event(EngineEvent::Request(EngineRequest::CloseConnection)) {
        Some(Err(e)) => assert_eq!(
            e.kind(),
            &ErrorKind::ServerClosedConnection(320, "CONNECTION_FORCED".to_string()),
        ),
        other => panic!("close must report the forced close, got {:?}", other),
    }
}

#[test]
fn first_recorded_failure_wins() {
    let (frame_tx, _frame_rx) = unbounded();
    let mut eng = Engine::new(4, frame_tx);

    eng.handle_event(EngineEvent::ServerClose(320, "CONNECTION_FORCED".to_string()));
    eng.handle_event(EngineEvent::SocketClosed);

    match eng.handle_event(EngineEvent::Request(EngineRequest::CloseConnection)) {
        Some(Err(e)) => assert_eq!(
            e.kind(),
            &ErrorKind::ServerClosedConnection(320, "CONNECTION_FORCED".to_string()),
        ),
        other => panic!("close must report the first failure, got {:?}", other),
    }
}

#[test]
fn socket_close_is_recorded_as_unexpected() {
    let (frame_tx, _frame_rx) = unbounded();
    let mut eng = Engine::new(4, frame_tx);

    eng.handle_event(EngineEvent::SocketClosed);
    match eng.handle_event(EngineEvent::Request(EngineRequest::CloseConnection)) {
        Some(Err(e)) => assert_eq!(e.kind(), &ErrorKind::UnexpectedSocketClose),
        other => panic!("close must report the socket loss, got {:?}", other),
    }
}

#[test]
fn frames_are_forwarded_until_the_connection_is_doomed() {
    let (frame_tx, frame_rx) = unbounded();
    let mut eng = Engine::new(4, frame_tx);

    let f = OutboundFrame::Ack { channel_id: 1, delivery_tag: 7, multiple: false };
    eng.handle_event(EngineEvent::Request(EngineRequest::Frame(f.clone())));
    assert_eq!(frame_rx.try_recv().unwrap(), f);

    eng.handle_event(EngineEvent::SocketClosed);
    eng.handle_event(EngineEvent::Request(EngineRequest::Frame(f)));
    assert!(frame_rx.try_recv().is_err());
}

#[test]
fn clean_close_reports_success() {
    let (frame_tx, _frame_rx) = unbounded();
    let mut eng = Engine::new(4, frame_tx);
    match eng.handle_event(EngineEvent::Request(EngineRequest::CloseConnection)) {
        Some(Ok(())) => {}
        other => panic!("clean close must succeed, got {:?}", other),
    }
}

#[test]
fn step_processes_queued_events_and_stops_when_the_queue_closes() {
    let (event_tx, event_rx) = unbounded();
    let (frame_tx, frame_rx) = unbounded();
    let mut eng = Engine::new(4, frame_tx);

    let f = OutboundFrame::Reject { channel_id: 2, delivery_tag: 3, requeue: true };
    event_tx
        .send(EngineEvent::Request(EngineRequest::Frame(f.clone())))
        .unwrap();
    drop(event_tx);

    assert!(eng.step(&event_rx).is_none());
    assert_eq!(frame_rx.try_recv().unwrap(), f);
    match eng.step(&event_rx) {
        Some(Ok(())) => {}
        other => panic!("engine must stop cleanly when all handles are gone, got {:?}", other),
    }
}

#[test]
fn highest_negotiated_id_is_usable() {
    let (frame_tx, _frame_rx) = unbounded();
    let mut eng = Engine::new(u16::MAX, frame_tx);

    let (ev, reply_rx) = open_channel_event(Some(u16::MAX));
    assert!(eng.handle_event(ev).is_none());
    assert_eq!(reply_rx.try_recv().unwrap().unwrap(), u16::MAX);

    let (ev, reply_rx) = open_channel_event(Some(0));
    assert!(eng.handle_event(ev).is_none());
    match reply_rx.try_recv().unwrap() {
        Err(e) => assert_eq!(e.kind(), &ErrorKind::UnavailableChannelId(0)),
        Ok(id) => panic!("the control channel id must stay unavailable, got {}", id),
    }
}

#[test]
fn interpret_open_reply_passes_the_decision_through() {
    assert_eq!(amiquip::interpret_open_reply(Some(Ok(7))).unwrap(), 7);
    match amiquip::interpret_open_reply(None) {
        Err(e) => assert_eq!(e.kind(), &ErrorKind::EventLoopDropped),
        Ok(id) => panic!("a missing reply must fail, got {}", id),
    }
}

#[test]
fn step_stops_on_close_request() {
    let (event_tx, event_rx) = unbounded();
    let (frame_tx, _frame_rx) = unbounded();
    let mut eng = Engine::new(4, frame_tx);

    event_tx
        .send(EngineEvent::Request(EngineRequest::CloseConnection))
        .unwrap();
    match eng.step(&event_rx) {
        Some(Ok(())) => {}
        other => panic!("close request must stop the engine, got {:?}", other),
    }
}
