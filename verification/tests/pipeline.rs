use input_monitor::accum::DistanceAccumulator;
use input_monitor::coordinator::{Action, Coordinator, Message};
use input_monitor::decimal::{detail_string, u64_to_dec};
use input_monitor::normalize::{normalize, EventKind, InputEvent};

const JAN_1_2024: u64 = 1_704_067_200;

fn move_event() -> InputEvent {
    InputEvent { kind: EventKind::MouseMove, epoch_secs: JAN_1_2024 }
}

fn key_event() -> InputEvent {
    InputEvent { kind: EventKind::KeyPress, epoch_secs: JAN_1_2024 }
}

#[test]
fn decimal_rendering_exact() {
    assert_eq!(u64_to_dec(0).as_str(), "0");
    assert_eq!(u64_to_dec(7).as_str(), "7");
    assert_eq!(u64_to_dec(1234567).as_str(), "1234567");
    assert_eq!(detail_string(0).as_str(), "0.000000");
    assert_eq!(detail_string(1_000_000).as_str(), "1.000000");
    assert_eq!(detail_string(1_000_804).as_str(), "1.000804");
    assert_eq!(detail_string(40_796).as_str(), "0.040796");
}

#[test]
fn accumulator_emits_exactly_at_threshold() {
    let mut acc = DistanceAccumulator::new(500);
    for _ in 0..1999 {
        assert!(acc.on_mouse_move().is_none());
    }
    assert_eq!(acc.total, 1999);
    let emitted = acc.on_mouse_move();
    assert_eq!(emitted, Some(1_000_000));
    assert_eq!(acc.total, 0);
}

#[test]
fn key_press_record_has_tag_time_and_zero_detail() {
    let mut acc = DistanceAccumulator::new(500);
    let rec = normalize(&key_event(), &mut acc).expect("a key press always logs");
    assert_eq!(rec.event_type.as_str(), "KeyPress");
    assert_eq!(rec.detail.as_str(), "0.000000");
    assert_eq!(rec.timestamp.as_str(), "2024-01-01 00:00:00");
    assert_eq!(rec.id.len(), 36);
    assert!(rec.id.contains('-'));
    assert_eq!(acc.total, 0);
}

#[test]
fn button_press_record_carries_button_name() {
    let mut acc = DistanceAccumulator::new(500);
    let ev = InputEvent { kind: EventKind::ButtonPress(String::from("Left")), epoch_secs: 0 };
    let rec = normalize(&ev, &mut acc).expect("a button press always logs");
    assert_eq!(rec.event_type.as_str(), "Left");
    assert_eq!(rec.detail.as_str(), "0.000000");
    assert_eq!(rec.timestamp.as_str(), "1970-01-01 00:00:00");
}

#[test]
fn burst_scenario_one_distance_record() {
    // Scale 0.000868 units per sample: the threshold falls at the 1153rd
    // sample, inside the second burst.
    let mut coord = Coordinator::new(868);
    let mut mouse_records = 0usize;
    let mut key_records = 0usize;
    for _ in 0..1150 {
        match coord.step(Message::Input(move_event())) {
            Action::Logged(_) => mouse_records += 1,
            Action::Silent => {}
            _ => panic!("unexpected action"),
        }
    }
    assert_eq!(mouse_records, 0);
    assert_eq!(coord.acc.total, 1150);
    match coord.step(Message::Input(key_event())) {
        Action::Logged(_) => key_records += 1,
        _ => panic!("a key press always logs"),
    }
    assert_eq!(coord.acc.total, 1150);
    for i in 0..50 {
        match coord.step(Message::Input(move_event())) {
            Action::Logged(_) => {
                mouse_records += 1;
                // The crossing resets the counter to zero at once.
                assert_eq!(i, 2);
                assert_eq!(coord.acc.total, 0);
            }
            Action::Silent => {}
            _ => panic!("unexpected action"),
        }
    }
    assert_eq!(mouse_records, 1);
    assert_eq!(key_records, 1);
    assert_eq!(coord.acc.total, 47);
    let distance_rec = coord.log.records.iter().find(|r| r.event_type.as_str() == "MouseMove");
    assert_eq!(distance_rec.expect("one distance record").detail.as_str(), "1.000804");
    assert_eq!(coord.log.records.len(), 2);
}

#[test]
fn unrecorded_event_kind_is_suppressed() {
    let mut acc = DistanceAccumulator::new(500);
    acc.on_mouse_move();
    let ev = InputEvent { kind: EventKind::Other, epoch_secs: JAN_1_2024 };
    assert!(normalize(&ev, &mut acc).is_none());
    assert_eq!(acc.total, 1);
    let mut coord = Coordinator::new(500);
    match coord.step(Message::Input(ev)) {
        Action::Silent => {}
        _ => panic!("an unrecorded event changes nothing"),
    }
    assert_eq!(coord.log.records.len(), 0);
    assert!(coord.running);
}

#[test]
fn fifo_queue_drains_before_quit() {
    // Five input events sit ahead of the quit message; all five are
    // processed in order before the machine stops.
    let mut coord = Coordinator::new(500);
    let mut queue = Vec::new();
    for _ in 0..5 {
        queue.push(Message::Input(key_event()));
    }
    queue.push(Message::Quit);
    let mut stopped = false;
    for msg in queue {
        assert!(coord.running);
        match coord.step(msg) {
            Action::Logged(_) => assert!(!stopped),
            Action::Stop => stopped = true,
            _ => panic!("unexpected action"),
        }
    }
    assert!(stopped);
    assert!(!coord.running);
    assert_eq!(coord.log.records.len(), 5);
}

#[test]
fn timer_message_only_requests_import() {
    let mut coord = Coordinator::new(500);
    coord.step(Message::Input(key_event()));
    let before = coord.log.records.len();
    match coord.step(Message::ImportAndReset) {
        Action::RunImport => {}
        _ => panic!("a timer tick requests an import"),
    }
    assert_eq!(coord.log.records.len(), before);
    assert!(coord.running);
    let content = coord.finish_import();
    assert_eq!(content.as_str(), "ID,Timestamp,EventType,Details\n");
    assert_eq!(coord.log.records.len(), 0);
    assert!(coord.running);
}
