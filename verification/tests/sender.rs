use presence::{
    announcer_step, decode, heartbeat, heartbeat_step, join_announcement, PresenceEvent,
    SenderAction, SenderEvent, TransportFault, HEARTBEAT_INTERVAL_SECS,
};

#[test]
fn interval_is_one_second() {
    assert_eq!(HEARTBEAT_INTERVAL_SECS, 1);
}

#[test]
fn join_announcement_is_the_encoded_join() {
    assert_eq!(
        join_announcement("alice"),
        vec![1, 0, 0, 0, 5, 0, 0, 0, 0, 0, 0, 0, b'a', b'l', b'i', b'c', b'e']
    );
    assert_eq!(
        decode(&join_announcement("bob")),
        Ok(PresenceEvent::Join("bob".to_string()))
    );
}

#[test]
fn heartbeat_is_the_encoded_keep_alive() {
    assert_eq!(
        heartbeat("alice"),
        vec![0, 0, 0, 0, 5, 0, 0, 0, 0, 0, 0, 0, b'a', b'l', b'i', b'c', b'e']
    );
    assert_eq!(
        decode(&heartbeat("bob")),
        Ok(PresenceEvent::KeepAlive("bob".to_string()))
    );
}

#[test]
fn announcer_sends_join_then_finishes() {
    assert_eq!(
        announcer_step("alice", SenderEvent::Started),
        SenderAction::Send(join_announcement("alice"))
    );
    assert_eq!(announcer_step("alice", SenderEvent::Sent), SenderAction::Finish);
    assert_eq!(announcer_step("alice", SenderEvent::Rested), SenderAction::Finish);
}

#[test]
fn emitter_sends_at_start_and_after_each_rest() {
    assert_eq!(
        heartbeat_step("alice", SenderEvent::Started),
        SenderAction::Send(heartbeat("alice"))
    );
    assert_eq!(
        heartbeat_step("alice", SenderEvent::Rested),
        SenderAction::Send(heartbeat("alice"))
    );
}

#[test]
fn emitter_rests_one_interval_after_each_send() {
    assert_eq!(heartbeat_step("alice", SenderEvent::Sent), SenderAction::Rest { secs: 1 });
}

#[test]
fn failed_send_aborts_either_sender() {
    for fault in [
        TransportFault::WouldBlock,
        TransportFault::ConnectionRefused,
        TransportFault::NotConnected,
        TransportFault::Other,
    ] {
        assert_eq!(
            announcer_step("alice", SenderEvent::SendFailed(fault)),
            SenderAction::Abort(fault)
        );
        assert_eq!(
            heartbeat_step("alice", SenderEvent::SendFailed(fault)),
            SenderAction::Abort(fault)
        );
    }
}

#[test]
fn one_keep_alive_per_elapsed_interval() {
    let mut clock: u64 = 0;
    let mut send_times: Vec<u64> = Vec::new();
    let mut event = SenderEvent::Started;
    for _ in 0..20 {
        match heartbeat_step("alice", event) {
            SenderAction::Send(bytes) => {
                assert_eq!(bytes, heartbeat("alice"));
                send_times.push(clock);
                event = SenderEvent::Sent;
            }
            SenderAction::Rest { secs } => {
                clock += secs;
                event = SenderEvent::Rested;
            }
            other => panic!("the emitter stopped: {:?}", other),
        }
    }
    assert_eq!(send_times, vec![0, 1, 2, 3, 4, 5, 6, 7, 8, 9]);
    assert_eq!(clock, 10);
}

#[test]
fn emitter_stops_at_the_first_failed_send() {
    let mut sends = 0;
    let mut event = SenderEvent::Started;
    let last = loop {
        match heartbeat_step("alice", event) {
            SenderAction::Send(_) => {
                sends += 1;
                event = if sends == 3 {
                    SenderEvent::SendFailed(TransportFault::ConnectionRefused)
                } else {
                    SenderEvent::Sent
                };
            }
            SenderAction::Rest { .. } => event = SenderEvent::Rested,
            other => break other,
        }
    };
    assert_eq!(sends, 3);
    assert_eq!(last, SenderAction::Abort(TransportFault::ConnectionRefused));
}

#[test]
fn empty_identifier_is_sent_as_it_is() {
    assert_eq!(join_announcement(""), vec![1, 0, 0, 0, 0, 0, 0, 0, 0, 0, 0, 0]);
    assert!(!decode(&heartbeat("")).unwrap().is_well_formed());
}
