use toca::{
    KeyboardAction, KeyboardActionSerializable, KeyboardEv, KeyboardEvSerializable,
    KeyboardRecorder, Keycode, MouseAction, MouseActionSerializable, MouseEv, MouseEvSerializable,
    MouseEventName, MouseRecorder,
};

fn kev(code: Keycode, press: bool, timestamp: u64) -> KeyboardEv {
    KeyboardEv { code, press, timestamp }
}

fn mev(ev_name: MouseEventName, x: i32, y: i32, timestamp: u64) -> MouseEv {
    MouseEv { ev_name, position: (x, y), timestamp }
}

fn is_timeline(times: &[u64], till: u64) -> bool {
    times.windows(2).all(|w| w[0] <= w[1]) && times.iter().all(|t| *t <= till)
}

#[test]
fn keyboard_recorder() {
    let mut recorder = KeyboardRecorder::new();
    assert_eq!(recorder.start_record(Keycode::Escape), Ok(()));
    assert!(recorder.is_recording());
    recorder.on_key_down(Keycode::H, 120);
    recorder.on_key_up(Keycode::H, 180);
    recorder.on_key_down(Keycode::I, 300);
    recorder.on_key_up(Keycode::I, 340);
    recorder.on_key_down(Keycode::Escape, 500);
    assert!(!recorder.is_recording());
    // events after the stop key are not recorded
    recorder.on_key_up(Keycode::Escape, 520);
    recorder.on_key_down(Keycode::J, 530);
    let action = recorder.finish_record(560);
    assert_eq!(
        action.evs,
        vec![
            kev(Keycode::H, true, 120),
            kev(Keycode::H, false, 180),
            kev(Keycode::I, true, 300),
            kev(Keycode::I, false, 340),
        ]
    );
    assert_eq!(action.till, 560);
    assert_eq!(recorder.get_record(), action.evs);
}

#[test]
fn keyboard_recorder_to_string() {
    let mut recorder = KeyboardRecorder::new();
    assert_eq!(recorder.start_record(Keycode::Escape), Ok(()));
    recorder.on_key_down(Keycode::LShift, 10);
    recorder.on_key_down(Keycode::Insert, 20);
    recorder.on_key_down(Keycode::Numpad1, 30);
    recorder.on_key_up(Keycode::LShift, 40);
    recorder.on_key_down(Keycode::Escape, 50);
    let action = recorder.finish_record(55);
    let text = action.to_serializable();
    assert_eq!(text.till, 55);
    // Insert has no neutral name and is left out
    let names: Vec<&str> = text.evs.iter().map(|e| e.code.as_str()).collect();
    assert_eq!(names, vec!["ShiftLeft", "Numpad1", "ShiftLeft"]);
    let presses: Vec<bool> = text.evs.iter().map(|e| e.press).collect();
    assert_eq!(presses, vec![true, true, false]);
    let times: Vec<u64> = text.evs.iter().map(|e| e.timestamp).collect();
    assert_eq!(times, vec![10, 30, 40]);
}

#[test]
fn mouse_recorder() {
    let mut recorder = MouseRecorder::new();
    assert_eq!(recorder.start_record(Keycode::Escape), Ok(()));
    recorder.on_button_down(1, (123, 27), 2251);
    recorder.on_button_up(1, (218, 345), 3795);
    recorder.on_button_down(4, (1, 1), 3800); // an extra button: not recorded
    recorder.on_button_down(2, (75, 1208), 4000);
    recorder.on_button_up(2, (75, 1208), 4080);
    recorder.on_button_down(3, (5, 6), 4100);
    recorder.on_button_up(3, (5, 6), 4200);
    recorder.on_key_down(Keycode::A); // not the stop key
    assert!(recorder.is_recording());
    recorder.on_key_down(Keycode::Escape);
    assert!(!recorder.is_recording());
    recorder.on_button_down(1, (0, 0), 4300);
    let action = recorder.finish_record(4250);
    assert_eq!(
        action.evs,
        vec![
            mev(MouseEventName::LeftDown, 123, 27, 2251),
            mev(MouseEventName::LeftUp, 218, 345, 3795),
            mev(MouseEventName::RightDown, 75, 1208, 4000),
            mev(MouseEventName::RightUp, 75, 1208, 4080),
            mev(MouseEventName::MidDown, 5, 6, 4100),
            mev(MouseEventName::MidUp, 5, 6, 4200),
        ]
    );
    assert_eq!(action.till, 4250);
    assert_eq!(recorder.get_record(), action.evs);
}

#[test]
fn mouse_recorder_to_string() {
    let mut recorder = MouseRecorder::new();
    assert_eq!(recorder.start_record(Keycode::Escape), Ok(()));
    recorder.on_button_down(1, (10, -20), 5);
    recorder.on_button_up(1, (11, -21), 9);
    recorder.on_button_down(3, (0, 0), 12);
    recorder.on_key_down(Keycode::Escape);
    let action = recorder.finish_record(15);
    let text = action.to_serializable();
    assert_eq!(text.till, 15);
    assert_eq!(
        text.evs,
        vec![
            MouseEvSerializable { ev_name: 1, position: [10, -20], timestamp: 5 },
            MouseEvSerializable { ev_name: 2, position: [11, -21], timestamp: 9 },
            MouseEvSerializable { ev_name: 5, position: [0, 0], timestamp: 12 },
        ]
    );
}

#[test]
fn recorder_output_stays_in_time_order() {
    let mut recorder = KeyboardRecorder::new();
    assert_eq!(recorder.start_record(Keycode::Escape), Ok(()));
    // readings that arrive out of order count as the latest one seen
    recorder.on_key_down(Keycode::A, 100);
    recorder.on_key_down(Keycode::B, 90);
    recorder.on_key_up(Keycode::A, 100);
    recorder.on_key_up(Keycode::B, 150);
    let action = recorder.finish_record(120);
    let times: Vec<u64> = action.evs.iter().map(|e| e.timestamp).collect();
    assert_eq!(times, vec![100, 100, 100, 150]);
    assert_eq!(action.till, 150);
    assert!(is_timeline(&times, action.till));
}

#[test]
fn empty_recording() {
    let mut recorder = KeyboardRecorder::new();
    assert_eq!(recorder.start_record(Keycode::Escape), Ok(()));
    recorder.on_key_down(Keycode::Escape, 0);
    let action = recorder.finish_record(0);
    assert!(action.evs.is_empty());
    assert_eq!(action.till, 0);
}

#[test]
fn recording_again_starts_afresh() {
    let mut recorder = KeyboardRecorder::new();
    assert_eq!(recorder.start_record(Keycode::Escape), Ok(()));
    recorder.on_key_down(Keycode::A, 40);
    // a second start while recording is refused and changes nothing
    assert_eq!(recorder.start_record(Keycode::Q), Err(()));
    recorder.on_key_down(Keycode::Q, 50);
    assert!(recorder.is_recording());
    recorder.on_key_down(Keycode::Escape, 60);
    let first = recorder.finish_record(70);
    assert_eq!(first.evs, vec![kev(Keycode::A, true, 40), kev(Keycode::Q, true, 50)]);

    assert_eq!(recorder.start_record(Keycode::Q), Ok(()));
    assert!(recorder.get_record().is_empty());
    recorder.on_key_down(Keycode::B, 3);
    recorder.on_key_down(Keycode::Q, 4);
    let second = recorder.finish_record(5);
    assert_eq!(second.evs, vec![kev(Keycode::B, true, 3)]);
    assert_eq!(second.till, 5);

    let mut mouse = MouseRecorder::new();
    assert_eq!(mouse.start_record(Keycode::Escape), Ok(()));
    assert_eq!(mouse.start_record(Keycode::Escape), Err(()));
}

#[test]
fn keyboard_round_trip() {
    let action = KeyboardAction {
        evs: vec![
            kev(Keycode::H, true, 0),
            kev(Keycode::RShift, true, 0),
            kev(Keycode::Dot, true, 250),
            kev(Keycode::RShift, false, 300),
            kev(Keycode::NumpadDivide, false, 900),
        ],
        till: 1000,
    };
    let back = KeyboardAction::from_serializable(&action.to_serializable());
    assert_eq!(back.evs, action.evs);
    assert_eq!(back.till, action.till);
}

#[test]
fn keyboard_decode_drops_unknown_names() {
    let text = KeyboardActionSerializable {
        evs: vec![
            KeyboardEvSerializable { code: String::from("KeyH"), press: true, timestamp: 0 },
            KeyboardEvSerializable { code: String::from("Insert"), press: true, timestamp: 5 },
            KeyboardEvSerializable { code: String::from("Period"), press: false, timestamp: 9 },
        ],
        till: 12,
    };
    let action = KeyboardAction::from_serializable(&text);
    assert_eq!(action.evs, vec![kev(Keycode::H, true, 0), kev(Keycode::Dot, false, 9)]);
    assert_eq!(action.till, 12);
}

#[test]
fn mouse_round_trip() {
    let action = MouseAction {
        evs: vec![
            mev(MouseEventName::LeftDown, 505, 1246, 160),
            mev(MouseEventName::LeftUp, 405, 1246, 224),
            mev(MouseEventName::RightDown, 75, 1208, 1200),
            mev(MouseEventName::RightUp, 75, 1208, 1280),
            mev(MouseEventName::MidDown, -3, 0, 1280),
            mev(MouseEventName::MidUp, -3, 0, 1300),
        ],
        till: 1400,
    };
    let back = MouseAction::from_serializable(&action.to_serializable());
    assert_eq!(back.evs, action.evs);
    assert_eq!(back.till, 1400);
}

#[test]
fn mouse_decode_drops_unknown_kinds() {
    let text = MouseActionSerializable {
        evs: vec![
            MouseEvSerializable { ev_name: 0, position: [1, 2], timestamp: 1 },
            MouseEvSerializable { ev_name: 4, position: [3, 4], timestamp: 2 },
            MouseEvSerializable { ev_name: 7, position: [5, 6], timestamp: 3 },
            MouseEvSerializable { ev_name: 6, position: [7, 8], timestamp: 4 },
        ],
        till: 4,
    };
    let action = MouseAction::from_serializable(&text);
    assert_eq!(
        action.evs,
        vec![mev(MouseEventName::RightUp, 3, 4, 2), mev(MouseEventName::MidUp, 7, 8, 4)]
    );
    assert_eq!(action.till, 4);
}
