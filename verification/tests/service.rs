use gma3_cue_display::notify::{WsMessage, WsPayload};
use gma3_cue_display::osc::{OscMessage, OscValue};
use gma3_cue_display::hub::HUB_CAPACITY;
use gma3_cue_display::service::{CueService, HTTP_PORT, OSC_PORT};
use gma3_cue_display::state::CueState;
use rosc::{OscBundle, OscPacket, OscTime, OscType};
use tokio::sync::broadcast::error::TryRecvError;

fn datagram(args: Vec<OscType>) -> Vec<u8> {
    let packet = OscPacket::Message(rosc::OscMessage { addr: "/gma3/cue".to_string(), args });
    rosc::encoder::encode(&packet).expect("encodable packet")
}

fn go_datagram() -> Vec<u8> {
    datagram(vec![
        OscType::String("Go+".to_string()),
        OscType::Int(5),
        OscType::String("MainSeq 5 Opening".to_string()),
    ])
}

fn state_of(msg: &WsMessage) -> &CueState {
    match &msg.data {
        WsPayload::State(state) => state,
        WsPayload::Log(_) => panic!("a state was expected"),
    }
}

fn kinds(msgs: &[WsMessage]) -> Vec<&str> {
    msgs.iter().map(|m| m.msg_type.as_str()).collect()
}

#[test]
fn ports_are_fixed() {
    assert_eq!(HTTP_PORT, 3000);
    assert_eq!(OSC_PORT, 8000);
}

#[test]
fn new_service_has_initial_state_and_no_history() {
    let service = CueService::new();
    let state = service.state();
    assert_eq!(state.cue_number, "--");
    assert!(!state.connected);
    assert!(service.history().is_empty());
    assert_eq!(service.status(), (false, None));
}

#[test]
fn go_datagram_updates_state_and_seeds_later_viewers() {
    let mut service = CueService::new();
    let published = service.handle_datagram(&go_datagram());
    assert_eq!(kinds(&published), vec!["oscLog", "cueUpdate"]);

    let state = service.state();
    assert_eq!(state.cue_name, "MainSeq 5 Opening");
    assert_eq!(state.sequence_name, "MainSeq");
    assert_eq!(state.cue_number, "5");
    assert!(state.is_active);

    let seed = service.seed();
    assert_eq!(seed.msg_type, "state");
    let seeded = state_of(&seed);
    assert_eq!(seeded.cue_name, "MainSeq 5 Opening");
    assert_eq!(seeded.sequence_name, "MainSeq");
    assert_eq!(seeded.cue_number, "5");
    assert!(seeded.is_active);
    assert!(seeded.connected);
    assert_eq!(seeded.last_update, state.last_update);
    assert_eq!(seeded.fader_level_bits, 0);
}

#[test]
fn each_message_announces_its_record_then_the_state() {
    let mut service = CueService::new();
    let published = service.handle_datagram(&go_datagram());
    assert_eq!(published.len(), 2);
    match &published[0].data {
        WsPayload::Log(entry) => {
            assert_eq!(entry.address, "/gma3/cue");
            let tags: Vec<&str> = entry.args.iter().map(|a| a.arg_type.as_str()).collect();
            assert_eq!(tags, vec!["s", "i", "s"]);
            assert_eq!(Some(entry.timestamp.clone()), service.state().last_update);
        }
        WsPayload::State(_) => panic!("a record was expected"),
    }
    let announced = state_of(&published[1]);
    assert_eq!(announced.cue_number, "5");
    assert_eq!(announced.last_update, service.state().last_update);
}

#[test]
fn timestamp_is_utc_with_milliseconds() {
    let mut service = CueService::new();
    service.handle_datagram(&go_datagram());
    let (connected, last) = service.status();
    assert!(connected);
    let stamp = last.expect("a stamp after the first message");
    let bytes = stamp.as_bytes();
    assert_eq!(bytes.len(), 24, "{stamp}");
    assert_eq!(bytes[4], b'-');
    assert_eq!(bytes[7], b'-');
    assert_eq!(bytes[10], b'T');
    assert_eq!(bytes[13], b':');
    assert_eq!(bytes[16], b':');
    assert_eq!(bytes[19], b'.');
    assert_eq!(bytes[23], b'Z');
    assert_eq!(service.history()[0].timestamp, stamp);
}

#[test]
fn malformed_datagram_changes_nothing() {
    let mut service = CueService::new();
    service.handle_datagram(&go_datagram());
    let before = service.state();
    let history_before = service.history().len();
    let mut viewer = service.subscribe();

    for bad in [&b""[..], &b"garbage"[..], &[0xffu8, 0x00, 0x12][..]] {
        let published = service.handle_datagram(bad);
        assert!(published.is_empty());
    }
    let after = service.state();
    assert_eq!(after.cue_name, before.cue_name);
    assert_eq!(after.cue_number, before.cue_number);
    assert_eq!(after.last_update, before.last_update);
    assert_eq!(service.history().len(), history_before);
    assert!(matches!(viewer.try_recv(), Err(TryRecvError::Empty)));

    let published = service.handle_datagram(&datagram(vec![
        OscType::String("Goto".to_string()),
        OscType::Int(6),
        OscType::String("MainSeq 6 Finale".to_string()),
    ]));
    assert_eq!(published.len(), 2);
    assert_eq!(service.state().cue_number, "6");
    assert_eq!(service.state().cue_name, "MainSeq 6 Finale");
    assert_eq!(service.history().len(), history_before + 1);
}

#[test]
fn malformed_datagram_on_a_new_service_leaves_it_unconnected() {
    let mut service = CueService::new();
    assert!(service.handle_datagram(b"\x01\x02").is_empty());
    assert_eq!(service.status(), (false, None));
    assert!(service.history().is_empty());
}

#[test]
fn bundle_messages_are_taken_in_order() {
    let mut service = CueService::new();
    let message = |args: Vec<OscType>| {
        OscPacket::Message(rosc::OscMessage { addr: "/cue".to_string(), args })
    };
    let bundle = OscPacket::Bundle(OscBundle {
        timetag: OscTime { seconds: 0, fractional: 1 },
        content: vec![
            message(vec![
                OscType::String("Go+".to_string()),
                OscType::Int(1),
                OscType::String("Show 1 One".to_string()),
            ]),
            OscPacket::Bundle(OscBundle {
                timetag: OscTime { seconds: 0, fractional: 1 },
                content: vec![message(vec![
                    OscType::String("Go+".to_string()),
                    OscType::Int(9),
                    OscType::String("Hidden 9 Nine".to_string()),
                ])],
            }),
            message(vec![
                OscType::String("Go+".to_string()),
                OscType::Int(2),
                OscType::String("Show 2 Two".to_string()),
            ]),
            message(vec![
                OscType::String("FaderMaster".to_string()),
                OscType::Int(1),
                OscType::Float(0.5),
            ]),
        ],
    });
    let bytes = rosc::encoder::encode(&bundle).expect("encodable packet");
    let published = service.handle_datagram(&bytes);
    assert_eq!(
        kinds(&published),
        vec!["oscLog", "cueUpdate", "oscLog", "cueUpdate", "oscLog", "cueUpdate"]
    );
    assert_eq!(state_of(&published[1]).cue_name, "Show 1 One");
    assert_eq!(state_of(&published[3]).cue_name, "Show 2 Two");
    assert_eq!(state_of(&published[5]).fader_level_bits, 0.5f32.to_bits());

    let state = service.state();
    assert_eq!(state.cue_name, "Show 2 Two");
    assert_eq!(state.cue_number, "2");
    assert_eq!(f32::from_bits(state.fader_level_bits) as f64 * 100.0, 50.0);
    let history = service.history();
    assert_eq!(history.len(), 3);
    assert_eq!(history[0].args[0].arg_type, "s");
    assert_eq!(history[0].args[2].arg_type, "f");
}

#[test]
fn decoded_float_falls_back_as_its_text() {
    let mut service = CueService::new();
    service.handle_datagram(&datagram(vec![OscType::String("Go+".to_string()), OscType::Float(3.5)]));
    assert_eq!(service.state().cue_number, "3.5");
}

#[test]
fn history_through_the_service_is_bounded_and_newest_first() {
    let mut service = CueService::new();
    for n in 0..130 {
        service.handle_datagram(&datagram(vec![OscType::Int(n)]));
    }
    let history = service.history();
    assert_eq!(history.len(), 100);
    match &history[0].args[0].value {
        OscValue::Int(n) => assert_eq!(*n, 129),
        _ => panic!("an integer was expected"),
    }
    match &history[99].args[0].value {
        OscValue::Int(n) => assert_eq!(*n, 30),
        _ => panic!("an integer was expected"),
    }
}

#[test]
fn subscriber_sees_only_later_notifications_in_order() {
    let mut service = CueService::new();
    for n in 0..3 {
        service.handle_datagram(&datagram(vec![OscType::Int(n)]));
    }
    let seed = service.seed();
    let mut viewer = service.subscribe();
    assert!(matches!(viewer.try_recv(), Err(TryRecvError::Empty)));

    let mut expected: Vec<WsMessage> = Vec::new();
    for n in 10..14 {
        expected.extend(service.handle_datagram(&datagram(vec![
            OscType::String("Go+".to_string()),
            OscType::Int(n),
        ])));
    }
    assert_eq!(expected.len(), 8);
    assert_eq!(state_of(&seed).cue_number, "--");
    for want in &expected {
        let got = viewer.try_recv().expect("a published notification");
        assert_eq!(got.msg_type, want.msg_type);
        match (&got.data, &want.data) {
            (WsPayload::State(a), WsPayload::State(b)) => {
                assert_eq!(a.cue_number, b.cue_number);
                assert_eq!(a.last_update, b.last_update);
            }
            (WsPayload::Log(a), WsPayload::Log(b)) => {
                assert_eq!(a.timestamp, b.timestamp);
                assert_eq!(a.args.len(), b.args.len());
            }
            _ => panic!("payloads of different kinds"),
        }
    }
    assert!(matches!(viewer.try_recv(), Err(TryRecvError::Empty)));
}

#[test]
fn every_subscriber_gets_every_notification() {
    let mut service = CueService::new();
    let mut first = service.subscribe();
    let mut second = service.subscribe();
    service.handle_datagram(&go_datagram());
    for viewer in [&mut first, &mut second] {
        assert_eq!(viewer.try_recv().expect("the record").msg_type, "oscLog");
        assert_eq!(viewer.try_recv().expect("the state").msg_type, "cueUpdate");
        assert!(matches!(viewer.try_recv(), Err(TryRecvError::Empty)));
    }
}

#[test]
fn publishing_without_viewers_is_no_error() {
    let mut service = CueService::new();
    let published = service.handle_datagram(&go_datagram());
    assert_eq!(published.len(), 2);
    assert_eq!(service.state().cue_number, "5");
}

#[test]
fn handle_message_takes_a_plain_message() {
    let mut service = CueService::new();
    let msg = OscMessage {
        addr: "/cue".to_string(),
        args: vec![
            OscValue::Str("Top".to_string()),
            OscValue::Int(1),
            OscValue::Str("Show 1 Start".to_string()),
        ],
    };
    let published = service.handle_message(&msg);
    assert_eq!(kinds(&published), vec!["oscLog", "cueUpdate"]);
    assert_eq!(service.state().sequence_name, "Show");
    assert_eq!(service.history().len(), 1);
}

#[test]
fn record_uses_the_given_time_and_publishes_nothing() {
    let mut service = CueService::new();
    let mut viewer = service.subscribe();
    let msg = OscMessage { addr: "/cue".to_string(), args: vec![OscValue::Str("Go+".to_string())] };
    let notes = service.record(&msg, "fixed".to_string(), None);
    assert_eq!(kinds(&notes), vec!["oscLog", "cueUpdate"]);
    assert_eq!(service.state().last_update.as_deref(), Some("fixed"));
    assert_eq!(service.history()[0].timestamp, "fixed");
    assert!(matches!(viewer.try_recv(), Err(TryRecvError::Empty)));
    service.announce(&notes);
    assert_eq!(viewer.try_recv().expect("the record").msg_type, "oscLog");
    assert_eq!(viewer.try_recv().expect("the state").msg_type, "cueUpdate");
}

#[test]
fn viewer_within_the_capacity_misses_nothing() {
    assert_eq!(HUB_CAPACITY, 100);
    let mut service = CueService::new();
    let mut viewer = service.subscribe();
    let mut expected: Vec<String> = Vec::new();
    for n in 0..50 {
        for note in service.handle_datagram(&datagram(vec![OscType::Int(n)])) {
            expected.push(note.msg_type);
        }
    }
    assert_eq!(expected.len(), HUB_CAPACITY);
    for want in &expected {
        let got = viewer.try_recv().expect("nothing was dropped");
        assert_eq!(&got.msg_type, want);
    }
    assert!(matches!(viewer.try_recv(), Err(TryRecvError::Empty)));
}

#[test]
fn viewer_far_behind_misses_the_oldest_only() {
    let mut service = CueService::new();
    let mut slow = service.subscribe();
    let mut published = 0;
    for n in 0..200 {
        published += service.handle_datagram(&datagram(vec![OscType::Int(n)])).len();
    }
    assert_eq!(published, 400);
    let missed = match slow.try_recv() {
        Err(TryRecvError::Lagged(missed)) => missed as usize,
        _ => panic!("a viewer this far behind has missed notifications"),
    };
    assert!(missed > 0);
    assert!(published - missed >= HUB_CAPACITY);
    let mut read = 0;
    let mut last_number = -1;
    while let Ok(note) = slow.try_recv() {
        read += 1;
        if let WsPayload::Log(entry) = &note.data {
            match &entry.args[0].value {
                OscValue::Int(n) => {
                    assert!(*n > last_number);
                    last_number = *n;
                }
                _ => panic!("an integer was expected"),
            }
        }
    }
    assert_eq!(read, published - missed);
    assert_eq!(last_number, 199);

    let mut fresh = service.subscribe();
    assert!(matches!(fresh.try_recv(), Err(TryRecvError::Empty)));
}
