use vstd::prelude::*;
use crate::keys::{ButtonCode, Keycode};
use crate::mapper::{code_named, name_of, opt_str_view, KeyboardMapper};

verus! {

/// Whether a list of timestamps never goes down and none passes `till`.
pub open spec fn is_timeline(times: Seq<u64>, till: u64) -> bool {
    &&& forall|i: int, j: int| 0 <= i <= j < times.len() ==> times[i] <= times[j]
    &&& forall|i: int| 0 <= i < times.len() ==> times[i] <= till
}

// region keyboard events

/// One keyboard event: a key went down (`press`) or up, `timestamp`
/// milliseconds after the recording started.
#[derive(Clone, Copy, Debug, PartialEq, Eq, Structural)]
pub struct KeyboardEv {
    pub code: Keycode,
    pub press: bool,
    pub timestamp: u64,
}

/// A recorded keyboard session: its events in order, and how long it lasted.
pub struct KeyboardAction {
    pub evs: Vec<KeyboardEv>,
    pub till: u64,
}

/// The timestamps of a list of keyboard events.
pub open spec fn key_times(evs: Seq<KeyboardEv>) -> Seq<u64> {
    evs.map_values(|e: KeyboardEv| e.timestamp)
}

impl KeyboardAction {
    /// Events in time order, none after the end of the session.
    pub open spec fn well_formed(&self) -> bool {
        is_timeline(key_times(self.evs@), self.till)
    }
}

/// A keyboard event with its key written as a neutral name.
pub struct KeyboardEvSerializable {
    pub code: String,
    pub press: bool,
    pub timestamp: u64,
}

/// A keyboard session with its keys written as neutral names.
pub struct KeyboardActionSerializable {
    pub evs: Vec<KeyboardEvSerializable>,
    pub till: u64,
}

impl View for KeyboardEvSerializable {
    type V = (Seq<char>, bool, u64);

    open spec fn view(&self) -> (Seq<char>, bool, u64) {
        (self.code@, self.press, self.timestamp)
    }
}

/// The views of a list of serializable keyboard events.
pub open spec fn key_texts(evs: Seq<KeyboardEvSerializable>) -> Seq<(Seq<char>, bool, u64)> {
    evs.map_values(|e: KeyboardEvSerializable| e@)
}

/// Keyboard events with each key replaced by its neutral name; events whose
/// key has no name are left out.
pub open spec fn encode_keys(evs: Seq<KeyboardEv>) -> Seq<(Seq<char>, bool, u64)>
    decreases evs.len(),
{
    if evs.len() == 0 {
        seq![]
    } else {
        let rest = encode_keys(evs.drop_last());
        let e = evs.last();
        match name_of(e.code) {
            Some(name) => rest.push((name, e.press, e.timestamp)),
            None => rest,
        }
    }
}

/// Named keyboard events read back into keys; events whose name stands for no
/// key are left out.
pub open spec fn decode_keys(evs: Seq<(Seq<char>, bool, u64)>) -> Seq<KeyboardEv>
    decreases evs.len(),
{
    if evs.len() == 0 {
        seq![]
    } else {
        let rest = decode_keys(evs.drop_last());
        let (name, press, timestamp) = evs.last();
        match code_named(name) {
            Some(code) => rest.push(KeyboardEv { code, press, timestamp }),
            None => rest,
        }
    }
}

impl KeyboardAction {
    /// The session with its keys written as neutral names, ready to be
    /// written out as text. Events whose key has no name are left out.
    pub fn to_serializable(&self) -> (r: KeyboardActionSerializable)
        ensures
            r.till == self.till,
            key_texts(r.evs@) == encode_keys(self.evs@),
    {
        let mut evs: Vec<KeyboardEvSerializable> = Vec::new();
        let mut i: usize = 0;
        while i < self.evs.len()
            invariant
                i <= self.evs@.len(),
                key_texts(evs@) == encode_keys(self.evs@.take(i as int)),
            decreases self.evs@.len() - i,
        {
            let ev = self.evs[i];
            assert(self.evs@.take(i + 1).drop_last() =~= self.evs@.take(i as int));
            match KeyboardMapper::dq_to_front(ev.code) {
                Some(name) => {
                    evs.push(KeyboardEvSerializable {
                        code: String::from_str(name),
                        press: ev.press,
                        timestamp: ev.timestamp,
                    });
                    assert(key_texts(evs@) =~= encode_keys(self.evs@.take(i + 1)));
                },
                None => {},
            }
            i = i + 1;
        }
        assert(self.evs@.take(self.evs@.len() as int) =~= self.evs@);
        KeyboardActionSerializable { evs, till: self.till }
    }

    /// The session that a serializable form stands for. Events whose name
    /// stands for no key are left out.
    pub fn from_serializable(source: &KeyboardActionSerializable) -> (r: KeyboardAction)
        ensures
            r.till == source.till,
            r.evs@ == decode_keys(key_texts(source.evs@)),
    {
        let mut evs: Vec<KeyboardEv> = Vec::new();
        let mut i: usize = 0;
        while i < source.evs.len()
            invariant
                i <= source.evs@.len(),
                evs@ == decode_keys(key_texts(source.evs@.take(i as int))),
            decreases source.evs@.len() - i,
        {
            let ev = &source.evs[i];
            assert(key_texts(source.evs@.take(i + 1)).drop_last() =~= key_texts(
                source.evs@.take(i as int),
            ));
            match KeyboardMapper::front_to_dq(ev.code.as_str()) {
                Some(code) => {
                    evs.push(KeyboardEv { code, press: ev.press, timestamp: ev.timestamp });
                },
                None => {},
            }
            assert(evs@ =~= decode_keys(key_texts(source.evs@.take(i + 1))));
            i = i + 1;
        }
        assert(source.evs@.take(source.evs@.len() as int) =~= source.evs@);
        KeyboardAction { evs, till: source.till }
    }
}

/// Writing keyboard events as neutral names and reading them back gives the
/// same events, in the same order, when every key has a name.
pub proof fn lemma_keyboard_round_trip(evs: Seq<KeyboardEv>)
    requires
        forall|i: int| 0 <= i < evs.len() ==> name_of(#[trigger] evs[i].code).is_some(),
    ensures
        decode_keys(encode_keys(evs)) == evs,
    decreases evs.len(),
{
    if evs.len() > 0 {
        let rest = evs.drop_last();
        assert forall|i: int| 0 <= i < rest.len() implies name_of(#[trigger] rest[i].code).is_some() by {
            assert(rest[i] == evs[i]);
        }
        lemma_keyboard_round_trip(rest);
        let e = evs.last();
        assert(name_of(evs[evs.len() - 1].code).is_some());
        crate::mapper::lemma_name_round_trip(e.code);
        let name = name_of(e.code).unwrap();
        let enc = encode_keys(evs);
        assert(enc == encode_keys(rest).push((name, e.press, e.timestamp)));
        assert(enc.drop_last() =~= encode_keys(rest));
        assert(evs =~= rest.push(e));
    }
}


/// The later of two clock readings.
pub open spec fn later(a: u64, b: u64) -> u64 {
    if a < b {
        b
    } else {
        a
    }
}

fn later_of(a: u64, b: u64) -> (r: u64)
    ensures
        r == later(a, b),
{
    if a < b {
        b
    } else {
        a
    }
}

/// Adding an event stamped `t` to a timeline that ends by `clock <= t` gives a
/// timeline that ends by `t`.
proof fn lemma_timeline_push(times: Seq<u64>, clock: u64, t: u64)
    requires
        is_timeline(times, clock),
        clock <= t,
    ensures
        is_timeline(times.push(t), t),
{
    let s = times.push(t);
    assert forall|i: int, j: int| 0 <= i <= j < s.len() implies s[i] <= s[j] by {
        if j < times.len() {
            assert(s[i] == times[i] && s[j] == times[j]);
        }
    }
}

/// Records keyboard events of one session at a time. The capture source's
/// callbacks feed it (under a lock of the caller's) with the key and the
/// milliseconds since the session started; a reading earlier than one seen
/// before counts as that one, so that the events stay in time order.
pub struct KeyboardRecorder {
    recording: bool,
    stop_code: Option<Keycode>,
    clock: u64,
    ev_queue: Vec<KeyboardEv>,
}

impl KeyboardRecorder {
    /// Whether a session is running.
    pub closed spec fn recording(&self) -> bool {
        self.recording
    }

    /// The key that ends the running session.
    pub closed spec fn stop_code(&self) -> Option<Keycode> {
        self.stop_code
    }

    /// The latest time seen in this session.
    pub closed spec fn clock(&self) -> u64 {
        self.clock
    }

    /// The events recorded so far.
    pub closed spec fn events(&self) -> Seq<KeyboardEv> {
        self.ev_queue@
    }

    /// The events are in time order, none after the latest time seen.
    pub closed spec fn well_formed(&self) -> bool {
        is_timeline(key_times(self.ev_queue@), self.clock)
    }

    pub fn new() -> (r: KeyboardRecorder)
        ensures
            r.well_formed(),
            !r.recording(),
            r.stop_code() == None::<Keycode>,
            r.clock() == 0,
            r.events() == Seq::<KeyboardEv>::empty(),
    {
        let r = KeyboardRecorder { recording: false, stop_code: None, clock: 0, ev_queue: Vec::new() };
        assert(key_times(r.ev_queue@) =~= Seq::<u64>::empty());
        r
    }

    /// The events recorded so far.
    pub fn get_record(&self) -> (r: Vec<KeyboardEv>)
        ensures
            r@ == self.events(),
    {
        self.ev_queue.clone()
    }

    /// Whether a session is running.
    pub fn is_recording(&self) -> (r: bool)
        ensures
            r == self.recording(),
    {
        self.recording
    }

    /// Starts a session that `stop_code` ends: forgets the events of any
    /// earlier one and starts the clock at zero. Fails, changing nothing,
    /// while a session is running.
    pub fn start_record(&mut self, stop_code: Keycode) -> (r: Result<(), ()>)
        requires
            old(self).well_formed(),
        ensures
            final(self).well_formed(),
            old(self).recording() ==> r is Err && *final(self) == *old(self),
            !old(self).recording() ==> {
                &&& r is Ok
                &&& final(self).recording()
                &&& final(self).stop_code() == Some(stop_code)
                &&& final(self).clock() == 0
                &&& final(self).events() == Seq::<KeyboardEv>::empty()
            },
    {
        if self.recording {
            return Err(());
        }
        self.ev_queue = Vec::new();
        self.clock = 0;
        self.stop_code = Some(stop_code);
        self.recording = true;
        assert(key_times(self.ev_queue@) =~= Seq::<u64>::empty());
        Ok(())
    }

    fn record(&mut self, code: Keycode, press: bool, now: u64)
        requires
            old(self).well_formed(),
        ensures
            final(self).well_formed(),
            final(self).recording == old(self).recording,
            final(self).stop_code == old(self).stop_code,
            final(self).clock == later(old(self).clock, now),
            final(self).ev_queue@ == old(self).ev_queue@.push(
                KeyboardEv { code, press, timestamp: later(old(self).clock, now) },
            ),
    {
        let t = later_of(self.clock, now);
        let ev = KeyboardEv { code, press, timestamp: t };
        proof {
            lemma_timeline_push(key_times(self.ev_queue@), self.clock, t);
            assert(key_times(self.ev_queue@.push(ev)) =~= key_times(self.ev_queue@).push(t));
        }
        self.ev_queue.push(ev);
        self.clock = t;
    }

    /// A key went down `now` milliseconds into the session. The stop key ends
    /// the session and is not recorded; any other key is recorded as pressed.
    /// Outside a session nothing changes.
    pub fn on_key_down(&mut self, key: Keycode, now: u64)
        requires
            old(self).well_formed(),
        ensures
            final(self).well_formed(),
            !old(self).recording() ==> *final(self) == *old(self),
            old(self).recording() && old(self).stop_code() == Some(key) ==> {
                &&& !final(self).recording()
                &&& final(self).stop_code() == old(self).stop_code()
                &&& final(self).clock() == old(self).clock()
                &&& final(self).events() == old(self).events()
            },
            old(self).recording() && old(self).stop_code() != Some(key) ==> {
                &&& final(self).recording()
                &&& final(self).stop_code() == old(self).stop_code()
                &&& final(self).clock() == later(old(self).clock(), now)
                &&& final(self).events() == old(self).events().push(
                    KeyboardEv { code: key, press: true, timestamp: later(old(self).clock(), now) },
                )
            },
    {
        if !self.recording {
            return;
        }
        if self.stop_code == Some(key) {
            self.recording = false;
            return;
        }
        self.record(key, true, now);
    }

    /// A key went up `now` milliseconds into the session: it is recorded as
    /// released. Outside a session nothing changes.
    pub fn on_key_up(&mut self, key: Keycode, now: u64)
        requires
            old(self).well_formed(),
        ensures
            final(self).well_formed(),
            !old(self).recording() ==> *final(self) == *old(self),
            old(self).recording() ==> {
                &&& final(self).recording()
                &&& final(self).stop_code() == old(self).stop_code()
                &&& final(self).clock() == later(old(self).clock(), now)
                &&& final(self).events() == old(self).events().push(
                    KeyboardEv { code: key, press: false, timestamp: later(old(self).clock(), now) },
                )
            },
    {
        if !self.recording {
            return;
        }
        self.record(key, false, now);
    }

    /// Ends the session `now` milliseconds after it started and hands back
    /// what it recorded: the events in time order, and a duration no shorter
    /// than the time of any of them.
    pub fn finish_record(&mut self, now: u64) -> (r: KeyboardAction)
        requires
            old(self).well_formed(),
        ensures
            final(self).well_formed(),
            !final(self).recording(),
            final(self).stop_code() == old(self).stop_code(),
            final(self).clock() == later(old(self).clock(), now),
            final(self).events() == old(self).events(),
            r.evs@ == old(self).events(),
            r.till == later(old(self).clock(), now),
            r.well_formed(),
    {
        self.recording = false;
        self.clock = later_of(self.clock, now);
        KeyboardAction { evs: self.ev_queue.clone(), till: self.clock }
    }
}

// endregion

// region mouse events

/// The kind of a recorded mouse event.
#[derive(Clone, Copy, Debug, PartialEq, Eq, Structural)]
pub enum MouseEventName {
    LeftDown,
    LeftUp,
    RightDown,
    RightUp,
    MidDown,
    MidUp,
}

/// One mouse event: a button went down or up at `position`, `timestamp`
/// milliseconds after the recording started.
#[derive(Clone, Copy, Debug, PartialEq, Eq)]
pub struct MouseEv {
    pub ev_name: MouseEventName,
    pub position: (i32, i32),
    pub timestamp: u64,
}

/// A recorded mouse session: its events in order, and how long it lasted.
pub struct MouseAction {
    pub evs: Vec<MouseEv>,
    pub till: u64,
}

/// The timestamps of a list of mouse events.
pub open spec fn mouse_times(evs: Seq<MouseEv>) -> Seq<u64> {
    evs.map_values(|e: MouseEv| e.timestamp)
}

impl MouseAction {
    /// Events in time order, none after the end of the session.
    pub open spec fn well_formed(&self) -> bool {
        is_timeline(mouse_times(self.evs@), self.till)
    }
}

/// A mouse event with its kind written as a number: 1 left down, 2 left up,
/// 3 right down, 4 right up, 5 middle down, 6 middle up.
#[derive(Clone, Copy, Debug, PartialEq, Eq)]
pub struct MouseEvSerializable {
    pub ev_name: usize,
    pub position: [i32; 2],
    pub timestamp: u64,
}

/// A mouse session with its event kinds written as numbers.
pub struct MouseActionSerializable {
    pub evs: Vec<MouseEvSerializable>,
    pub till: u64,
}

/// The number that a mouse event kind is written as.
pub open spec fn kind_number(ev_name: MouseEventName) -> usize {
    match ev_name {
        MouseEventName::LeftDown => 1,
        MouseEventName::LeftUp => 2,
        MouseEventName::RightDown => 3,
        MouseEventName::RightUp => 4,
        MouseEventName::MidDown => 5,
        MouseEventName::MidUp => 6,
    }
}

/// The mouse event kind that a number stands for, if any.
pub open spec fn kind_of_number(n: usize) -> Option<MouseEventName> {
    if n == 1 {
        Some(MouseEventName::LeftDown)
    } else if n == 2 {
        Some(MouseEventName::LeftUp)
    } else if n == 3 {
        Some(MouseEventName::RightDown)
    } else if n == 4 {
        Some(MouseEventName::RightUp)
    } else if n == 5 {
        Some(MouseEventName::MidDown)
    } else if n == 6 {
        Some(MouseEventName::MidUp)
    } else {
        None
    }
}

impl View for MouseEvSerializable {
    type V = (usize, (i32, i32), u64);

    open spec fn view(&self) -> (usize, (i32, i32), u64) {
        (self.ev_name, (self.position@[0], self.position@[1]), self.timestamp)
    }
}

/// The views of a list of serializable mouse events.
pub open spec fn mouse_texts(evs: Seq<MouseEvSerializable>) -> Seq<(usize, (i32, i32), u64)> {
    evs.map_values(|e: MouseEvSerializable| e@)
}

/// Mouse events with each kind written as its number.
pub open spec fn encode_mice(evs: Seq<MouseEv>) -> Seq<(usize, (i32, i32), u64)> {
    evs.map_values(|e: MouseEv| (kind_number(e.ev_name), e.position, e.timestamp))
}

/// Numbered mouse events read back; events whose number stands for no kind
/// are left out.
pub open spec fn decode_mice(evs: Seq<(usize, (i32, i32), u64)>) -> Seq<MouseEv>
    decreases evs.len(),
{
    if evs.len() == 0 {
        seq![]
    } else {
        let rest = decode_mice(evs.drop_last());
        let (n, position, timestamp) = evs.last();
        match kind_of_number(n) {
            Some(ev_name) => rest.push(MouseEv { ev_name, position, timestamp }),
            None => rest,
        }
    }
}

impl MouseAction {
    /// The session with its event kinds written as numbers, ready to be written
    /// out as text.
    pub fn to_serializable(&self) -> (r: MouseActionSerializable)
        ensures
            r.till == self.till,
            mouse_texts(r.evs@) == encode_mice(self.evs@),
    {
        let mut evs: Vec<MouseEvSerializable> = Vec::new();
        let mut i: usize = 0;
        while i < self.evs.len()
            invariant
                i <= self.evs@.len(),
                evs@.len() == i,
                mouse_texts(evs@) == encode_mice(self.evs@.take(i as int)),
            decreases self.evs@.len() - i,
        {
            let ev = self.evs[i];
            let n: usize = match ev.ev_name {
                MouseEventName::LeftDown => 1,
                MouseEventName::LeftUp => 2,
                MouseEventName::RightDown => 3,
                MouseEventName::RightUp => 4,
                MouseEventName::MidDown => 5,
                MouseEventName::MidUp => 6,
            };
            let position: [i32; 2] = [ev.position.0, ev.position.1];
            let ghost before = evs@;
            evs.push(MouseEvSerializable { ev_name: n, position, timestamp: ev.timestamp });
            assert forall|j: int| 0 <= j < i + 1 implies #[trigger] mouse_texts(evs@)[j]
                == encode_mice(self.evs@.take(i + 1))[j] by {
                if j < i {
                    assert(evs@[j] == before[j]);
                    assert(mouse_texts(before)[j] == encode_mice(self.evs@.take(i as int))[j]);
                }
            }
            assert(mouse_texts(evs@) =~= encode_mice(self.evs@.take(i + 1)));
            i = i + 1;
        }
        assert(self.evs@.take(self.evs@.len() as int) =~= self.evs@);
        MouseActionSerializable { evs, till: self.till }
    }

    /// The session that a serializable form stands for. Events whose number
    /// stands for no kind are left out.
    pub fn from_serializable(source: &MouseActionSerializable) -> (r: MouseAction)
        ensures
            r.till == source.till,
            r.evs@ == decode_mice(mouse_texts(source.evs@)),
    {
        let mut evs: Vec<MouseEv> = Vec::new();
        let mut i: usize = 0;
        while i < source.evs.len()
            invariant
                i <= source.evs@.len(),
                evs@ == decode_mice(mouse_texts(source.evs@.take(i as int))),
            decreases source.evs@.len() - i,
        {
            let ev = source.evs[i];
            assert(mouse_texts(source.evs@.take(i + 1)).drop_last() =~= mouse_texts(
                source.evs@.take(i as int),
            ));
            let kind: Option<MouseEventName> = if ev.ev_name == 1 {
                Some(MouseEventName::LeftDown)
            } else if ev.ev_name == 2 {
                Some(MouseEventName::LeftUp)
            } else if ev.ev_name == 3 {
                Some(MouseEventName::RightDown)
            } else if ev.ev_name == 4 {
                Some(MouseEventName::RightUp)
            } else if ev.ev_name == 5 {
                Some(MouseEventName::MidDown)
            } else if ev.ev_name == 6 {
                Some(MouseEventName::MidUp)
            } else {
                None
            };
            match kind {
                Some(ev_name) => {
                    evs.push(
                        MouseEv {
                            ev_name,
                            position: (ev.position[0], ev.position[1]),
                            timestamp: ev.timestamp,
                        },
                    );
                },
                None => {},
            }
            assert(evs@ =~= decode_mice(mouse_texts(source.evs@.take(i + 1))));
            i = i + 1;
        }
        assert(source.evs@.take(source.evs@.len() as int) =~= source.evs@);
        MouseAction { evs, till: source.till }
    }
}

/// Writing mouse events with numbered kinds and reading them back gives the
/// same events, in the same order.
pub proof fn lemma_mouse_round_trip(evs: Seq<MouseEv>)
    ensures
        decode_mice(encode_mice(evs)) == evs,
    decreases evs.len(),
{
    if evs.len() > 0 {
        let rest = evs.drop_last();
        lemma_mouse_round_trip(rest);
        assert(encode_mice(evs).drop_last() =~= encode_mice(rest));
        assert(evs =~= rest.push(evs.last()));
    }
}

/// The kind of event that a capture-space button going down records, if any.
pub open spec fn down_kind(button: ButtonCode) -> Option<MouseEventName> {
    if button == 1 {
        Some(MouseEventName::LeftDown)
    } else if button == 2 {
        Some(MouseEventName::RightDown)
    } else if button == 3 {
        Some(MouseEventName::MidDown)
    } else {
        None
    }
}

/// The kind of event that a capture-space button going up records, if any.
pub open spec fn up_kind(button: ButtonCode) -> Option<MouseEventName> {
    if button == 1 {
        Some(MouseEventName::LeftUp)
    } else if button == 2 {
        Some(MouseEventName::RightUp)
    } else if button == 3 {
        Some(MouseEventName::MidUp)
    } else {
        None
    }
}

/// Records mouse button events of one session at a time, with the pointer
/// position at each. A key of the keyboard ends the session. Fed as
/// `KeyboardRecorder` is; other buttons than left, right and middle are not
/// recorded.
pub struct MouseRecorder {
    recording: bool,
    stop_code: Option<Keycode>,
    clock: u64,
    ev_queue: Vec<MouseEv>,
}

impl MouseRecorder {
    /// Whether a session is running.
    pub closed spec fn recording(&self) -> bool {
        self.recording
    }

    /// The key that ends the running session.
    pub closed spec fn stop_code(&self) -> Option<Keycode> {
        self.stop_code
    }

    /// The latest time seen in this session.
    pub closed spec fn clock(&self) -> u64 {
        self.clock
    }

    /// The events recorded so far.
    pub closed spec fn events(&self) -> Seq<MouseEv> {
        self.ev_queue@
    }

    /// The events are in time order, none after the latest time seen.
    pub closed spec fn well_formed(&self) -> bool {
        is_timeline(mouse_times(self.ev_queue@), self.clock)
    }

    pub fn new() -> (r: MouseRecorder)
        ensures
            r.well_formed(),
            !r.recording(),
            r.stop_code() == None::<Keycode>,
            r.clock() == 0,
            r.events() == Seq::<MouseEv>::empty(),
    {
        let r = MouseRecorder { recording: false, stop_code: None, clock: 0, ev_queue: Vec::new() };
        assert(mouse_times(r.ev_queue@) =~= Seq::<u64>::empty());
        r
    }

    /// The events recorded so far.
    pub fn get_record(&self) -> (r: Vec<MouseEv>)
        ensures
            r@ == self.events(),
    {
        self.ev_queue.clone()
    }

    /// Whether a session is running.
    pub fn is_recording(&self) -> (r: bool)
        ensures
            r == self.recording(),
    {
        self.recording
    }

    /// Starts a session that `stop_code` ends: forgets the events of any
    /// earlier one and starts the clock at zero. Fails, changing nothing,
    /// while a session is running.
    pub fn start_record(&mut self, stop_code: Keycode) -> (r: Result<(), ()>)
        requires
            old(self).well_formed(),
        ensures
            final(self).well_formed(),
            old(self).recording() ==> r is Err && *final(self) == *old(self),
            !old(self).recording() ==> {
                &&& r is Ok
                &&& final(self).recording()
                &&& final(self).stop_code() == Some(stop_code)
                &&& final(self).clock() == 0
                &&& final(self).events() == Seq::<MouseEv>::empty()
            },
    {
        if self.recording {
            return Err(());
        }
        self.ev_queue = Vec::new();
        self.clock = 0;
        self.stop_code = Some(stop_code);
        self.recording = true;
        assert(mouse_times(self.ev_queue@) =~= Seq::<u64>::empty());
        Ok(())
    }

    /// A key went down: the stop key ends the session. Nothing else changes.
    pub fn on_key_down(&mut self, key: Keycode)
        requires
            old(self).well_formed(),
        ensures
            final(self).well_formed(),
            final(self).recording() == (old(self).recording() && old(self).stop_code() != Some(key)),
            final(self).stop_code() == old(self).stop_code(),
            final(self).clock() == old(self).clock(),
            final(self).events() == old(self).events(),
    {
        if self.recording && self.stop_code == Some(key) {
            self.recording = false;
        }
    }

    fn record(&mut self, ev_name: MouseEventName, position: (i32, i32), now: u64)
        requires
            old(self).well_formed(),
        ensures
            final(self).well_formed(),
            final(self).recording == old(self).recording,
            final(self).stop_code == old(self).stop_code,
            final(self).clock == later(old(self).clock, now),
            final(self).ev_queue@ == old(self).ev_queue@.push(
                MouseEv { ev_name, position, timestamp: later(old(self).clock, now) },
            ),
    {
        let t = later_of(self.clock, now);
        let ev = MouseEv { ev_name, position, timestamp: t };
        proof {
            lemma_timeline_push(mouse_times(self.ev_queue@), self.clock, t);
            assert(mouse_times(self.ev_queue@.push(ev)) =~= mouse_times(self.ev_queue@).push(t));
        }
        self.ev_queue.push(ev);
        self.clock = t;
    }

    /// A button went down at `position`, `now` milliseconds into the session.
    /// The left, right and middle buttons are recorded; outside a session, or
    /// for another button, nothing changes.
    pub fn on_button_down(&mut self, button: ButtonCode, position: (i32, i32), now: u64)
        requires
            old(self).well_formed(),
        ensures
            final(self).well_formed(),
            !old(self).recording() || down_kind(button) is None ==> *final(self) == *old(self),
            old(self).recording() && down_kind(button) is Some ==> {
                &&& final(self).recording()
                &&& final(self).stop_code() == old(self).stop_code()
                &&& final(self).clock() == later(old(self).clock(), now)
                &&& final(self).events() == old(self).events().push(
                    MouseEv {
                        ev_name: down_kind(button).unwrap(),
                        position,
                        timestamp: later(old(self).clock(), now),
                    },
                )
            },
    {
        if !self.recording {
            return;
        }
        if button == 1 {
            self.record(MouseEventName::LeftDown, position, now);
        } else if button == 2 {
            self.record(MouseEventName::RightDown, position, now);
        } else if button == 3 {
            self.record(MouseEventName::MidDown, position, now);
        }
    }

    /// A button went up at `position`, `now` milliseconds into the session.
    /// The left, right and middle buttons are recorded; outside a session, or
    /// for another button, nothing changes.
    pub fn on_button_up(&mut self, button: ButtonCode, position: (i32, i32), now: u64)
        requires
            old(self).well_formed(),
        ensures
            final(self).well_formed(),
            !old(self).recording() || up_kind(button) is None ==> *final(self) == *old(self),
            old(self).recording() && up_kind(button) is Some ==> {
                &&& final(self).recording()
                &&& final(self).stop_code() == old(self).stop_code()
                &&& final(self).clock() == later(old(self).clock(), now)
                &&& final(self).events() == old(self).events().push(
                    MouseEv {
                        ev_name: up_kind(button).unwrap(),
                        position,
                        timestamp: later(old(self).clock(), now),
                    },
                )
            },
    {
        if !self.recording {
            return;
        }
        if button == 1 {
            self.record(MouseEventName::LeftUp, position, now);
        } else if button == 2 {
            self.record(MouseEventName::RightUp, position, now);
        } else if button == 3 {
            self.record(MouseEventName::MidUp, position, now);
        }
    }

    /// Ends the session `now` milliseconds after it started and hands back
    /// what it recorded: the events in time order, and a duration no shorter
    /// than the time of any of them.
    pub fn finish_record(&mut self, now: u64) -> (r: MouseAction)
        requires
            old(self).well_formed(),
        ensures
            final(self).well_formed(),
            !final(self).recording(),
            final(self).stop_code() == old(self).stop_code(),
            final(self).clock() == later(old(self).clock(), now),
            final(self).events() == old(self).events(),
            r.evs@ == old(self).events(),
            r.till == later(old(self).clock(), now),
            r.well_formed(),
    {
        self.recording = false;
        self.clock = later_of(self.clock, now);
        MouseAction { evs: self.ev_queue.clone(), till: self.clock }
    }
}

// endregion

} // verus!
