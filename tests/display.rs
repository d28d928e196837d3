use toca::{
    Key, KeyboardAction, KeyboardEv, KeyboardPlayer, KeyboardStep, Keycode, MouseAction,
    MouseButton, MouseEv, MouseEventName, MousePlayer, MouseStep,
};

fn kev(code: Keycode, press: bool, timestamp: u64) -> KeyboardEv {
    KeyboardEv { code, press, timestamp }
}

fn run_keyboard(player: &mut KeyboardPlayer) -> Vec<KeyboardStep> {
    assert_eq!(player.start_play(), Ok(()));
    let mut steps = Vec::new();
    while let Some(step) = player.next_step() {
        steps.push(step);
    }
    assert!(!player.is_playing());
    steps
}

fn run_mouse(player: &mut MousePlayer) -> Vec<MouseStep> {
    assert_eq!(player.start_play(), Ok(()));
    let mut steps = Vec::new();
    while let Some(step) = player.next_step() {
        steps.push(step);
    }
    assert!(!player.is_playing());
    steps
}

#[test]
fn display_keyboard() {
    let mock_action = KeyboardAction {
        evs: vec![
            kev(Keycode::H, true, 500),
            kev(Keycode::E, true, 1500),
            kev(Keycode::L, true, 2000),
            kev(Keycode::L, true, 2500),
            kev(Keycode::O, true, 3000),
            kev(Keycode::Space, true, 3500),
            kev(Keycode::W, true, 4000),
            kev(Keycode::O, true, 4500),
            kev(Keycode::R, true, 5000),
            kev(Keycode::L, true, 5500),
            kev(Keycode::D, true, 6000),
            kev(Keycode::LShift, true, 6500),
            kev(Keycode::Numpad1, true, 6600),
            kev(Keycode::LShift, false, 6700),
        ],
        till: 6700,
    };
    let mut player = KeyboardPlayer::new();
    assert_eq!(player.load(mock_action), Ok(()));
    let steps = run_keyboard(&mut player);
    let keys: Vec<Option<Key>> = steps.iter().map(|s| s.key).collect();
    let expected: Vec<Option<Key>> = "hello world"
        .chars()
        .map(|c| Some(if c == ' ' { Key::Space } else { Key::Layout(c) }))
        .chain([Some(Key::Shift), Some(Key::Layout('1')), Some(Key::Shift)])
        .collect();
    assert_eq!(keys, expected);
    let delays: Vec<u64> = steps.iter().map(|s| s.delay).collect();
    assert_eq!(delays, vec![500, 1000, 500, 500, 500, 500, 500, 500, 500, 500, 500, 500, 100, 100]);
    assert!(steps[..13].iter().all(|s| s.press));
    assert!(!steps[13].press);
}

#[test]
fn display_mouse() {
    let mock_action = MouseAction {
        evs: vec![
            MouseEv { ev_name: MouseEventName::LeftDown, position: (123, 27), timestamp: 2251 },
            MouseEv { ev_name: MouseEventName::LeftUp, position: (218, 345), timestamp: 3795 },
        ],
        till: 3795,
    };
    let mut player = MousePlayer::new();
    assert_eq!(player.load(mock_action), Ok(()));
    let steps = run_mouse(&mut player);
    assert_eq!(
        steps,
        vec![
            MouseStep { delay: 2251, position: (123, 27), button: MouseButton::Left, press: true },
            MouseStep { delay: 1544, position: (218, 345), button: MouseButton::Left, press: false },
        ]
    );
}

#[test]
fn play_mock_keys() {
    let mock_key_action = KeyboardAction {
        evs: vec![
            kev(Keycode::A, true, 1_000),
            kev(Keycode::B, true, 2_000),
            kev(Keycode::Comma, true, 3_000),
        ],
        till: 3_000,
    };
    let mut player = KeyboardPlayer::new();
    assert_eq!(player.load(mock_key_action), Ok(()));
    assert_eq!(
        run_keyboard(&mut player),
        vec![
            KeyboardStep { delay: 1000, key: Some(Key::Layout('a')), press: true },
            KeyboardStep { delay: 1000, key: Some(Key::Layout('b')), press: true },
            KeyboardStep { delay: 1000, key: Some(Key::Layout(',')), press: true },
        ]
    );
}

#[test]
fn delays_follow_timestamp_differences() {
    let action = KeyboardAction {
        evs: vec![
            kev(Keycode::A, true, 0),
            kev(Keycode::B, true, 500),
            kev(Keycode::C, true, 500),
            kev(Keycode::D, true, 1200),
        ],
        till: 1200,
    };
    let mut player = KeyboardPlayer::new();
    assert_eq!(player.load(action), Ok(()));
    let delays: Vec<u64> = run_keyboard(&mut player).iter().map(|s| s.delay).collect();
    assert_eq!(delays, vec![0, 500, 0, 700]);
}

#[test]
fn replay_of_two_keys() {
    let action = KeyboardAction {
        evs: vec![kev(Keycode::H, true, 0), kev(Keycode::I, true, 300)],
        till: 300,
    };
    let mut player = KeyboardPlayer::new();
    assert_eq!(player.load(action), Ok(()));
    assert_eq!(
        run_keyboard(&mut player),
        vec![
            KeyboardStep { delay: 0, key: Some(Key::Layout('h')), press: true },
            KeyboardStep { delay: 300, key: Some(Key::Layout('i')), press: true },
        ]
    );
}

#[test]
fn unsupported_key_is_skipped() {
    let action = KeyboardAction {
        evs: vec![
            kev(Keycode::A, true, 100),
            kev(Keycode::Insert, true, 400),
            kev(Keycode::Meta, false, 450),
            kev(Keycode::B, true, 1000),
        ],
        till: 1000,
    };
    let mut player = KeyboardPlayer::new();
    assert_eq!(player.load(action), Ok(()));
    let steps = run_keyboard(&mut player);
    assert_eq!(steps.len(), 4);
    assert_eq!(steps.iter().filter(|s| s.key.is_some()).count(), 2);
    let delays: Vec<u64> = steps.iter().map(|s| s.delay).collect();
    assert_eq!(delays, vec![100, 300, 50, 550]);
    assert_eq!(steps[1].key, None);
    assert_eq!(steps[3].key, Some(Key::Layout('b')));
}

#[test]
fn second_replay_is_refused_while_one_runs() {
    let action = KeyboardAction {
        evs: vec![kev(Keycode::A, true, 10), kev(Keycode::B, true, 20)],
        till: 20,
    };
    let mut player = KeyboardPlayer::new();
    assert_eq!(player.load(action), Ok(()));
    assert_eq!(player.start_play(), Ok(()));
    let first = player.next_step();
    assert_eq!(first, Some(KeyboardStep { delay: 10, key: Some(Key::Layout('a')), press: true }));
    assert!(player.is_playing());
    assert_eq!(player.start_play(), Err(()));
    let other = KeyboardAction { evs: vec![kev(Keycode::C, true, 1)], till: 1 };
    assert_eq!(player.load(other), Err(()));
    // the running replay goes on where it was
    assert_eq!(
        player.next_step(),
        Some(KeyboardStep { delay: 10, key: Some(Key::Layout('b')), press: true })
    );
    assert_eq!(player.next_step(), None);
    assert!(!player.is_playing());
    assert_eq!(player.get_record(), vec![kev(Keycode::A, true, 10), kev(Keycode::B, true, 20)]);
    // once it has ended, a new replay can start
    assert_eq!(player.start_play(), Ok(()));

    let mut mouse = MousePlayer::new();
    assert_eq!(mouse.start_play(), Ok(()));
    assert_eq!(mouse.start_play(), Err(()));
    assert_eq!(mouse.load(MouseAction { evs: vec![], till: 5 }), Err(()));
    assert_eq!(mouse.next_step(), None);
    assert_eq!(mouse.load(MouseAction { evs: vec![], till: 5 }), Ok(()));
    assert_eq!(mouse.get_duration(), 5);
}

#[test]
fn loading_twice_replaces() {
    let mut player = KeyboardPlayer::new();
    let first = KeyboardAction { evs: vec![kev(Keycode::A, true, 10)], till: 10 };
    let second = KeyboardAction {
        evs: vec![kev(Keycode::X, true, 5), kev(Keycode::X, false, 8)],
        till: 30,
    };
    assert_eq!(player.load(first), Ok(()));
    assert_eq!(player.load(second), Ok(()));
    assert_eq!(player.get_record(), vec![kev(Keycode::X, true, 5), kev(Keycode::X, false, 8)]);
    assert_eq!(player.get_duration(), 30);
}

#[test]
fn nothing_is_replayed_for_zero_duration_or_no_events() {
    let mut player = KeyboardPlayer::new();
    assert_eq!(player.load(KeyboardAction { evs: vec![kev(Keycode::A, true, 0)], till: 0 }), Ok(()));
    assert!(run_keyboard(&mut player).is_empty());
    assert_eq!(player.load(KeyboardAction { evs: vec![], till: 40 }), Ok(()));
    assert!(run_keyboard(&mut player).is_empty());
    // outside a replay no step is handed out
    assert_eq!(player.next_step(), None);
}

#[test]
fn mouse_replay_presses_and_releases_each_button() {
    let action = MouseAction {
        evs: vec![
            MouseEv { ev_name: MouseEventName::RightDown, position: (75, 1208), timestamp: 1200 },
            MouseEv { ev_name: MouseEventName::RightUp, position: (75, 1208), timestamp: 1280 },
            MouseEv { ev_name: MouseEventName::MidDown, position: (1, 2), timestamp: 1280 },
            MouseEv { ev_name: MouseEventName::MidUp, position: (1, 2), timestamp: 1290 },
        ],
        till: 1300,
    };
    let mut player = MousePlayer::new();
    assert_eq!(player.load(action), Ok(()));
    let steps = run_mouse(&mut player);
    let got: Vec<(u64, MouseButton, bool)> = steps.iter().map(|s| (s.delay, s.button, s.press)).collect();
    assert_eq!(
        got,
        vec![
            (1200, MouseButton::Right, true),
            (80, MouseButton::Right, false),
            (0, MouseButton::Middle, true),
            (10, MouseButton::Middle, false),
        ]
    );
}
