use vstd::prelude::*;
use crate::keys::{Key, MouseButton};
use crate::mapper::{button_action, injection_of, KeyboardMapper, MouseMapper};
use crate::record::{key_times, mouse_times, KeyboardAction, KeyboardEv, MouseAction, MouseEv};

verus! {

/// How long a replay waits before the event at `i`: the time from the event
/// before it (from zero for the first), or no wait where time did not advance.
pub open spec fn delay_at(times: Seq<u64>, i: int) -> u64 {
    let last: u64 = if i == 0 {
        0
    } else {
        times[i - 1]
    };
    if times[i] > last {
        (times[i] - last) as u64
    } else {
        0
    }
}

fn delay_before(last: u64, timestamp: u64) -> (r: u64)
    ensures
        r == (if timestamp > last {
            (timestamp - last) as u64
        } else {
            0
        }),
{
    if timestamp > last {
        timestamp - last
    } else {
        0
    }
}

// region keyboard player

/// One step of a keyboard replay: wait `delay` milliseconds, then press
/// (`press`) or release `key`. A step whose `key` is `None` injects nothing:
/// its key has no injection-space key.
#[derive(Clone, Copy, Debug, PartialEq, Eq, Structural)]
pub struct KeyboardStep {
    pub delay: u64,
    pub key: Option<Key>,
    pub press: bool,
}

/// The step that replays the keyboard event at `i`.
pub open spec fn key_step(evs: Seq<KeyboardEv>, i: int) -> KeyboardStep {
    KeyboardStep {
        delay: delay_at(key_times(evs), i),
        key: injection_of(evs[i].code),
        press: evs[i].press,
    }
}

/// The steps of a keyboard replay, one per event in stored order; none when
/// the recording lasted no time.
pub open spec fn key_schedule(evs: Seq<KeyboardEv>, duration: u64) -> Seq<KeyboardStep> {
    if duration == 0 {
        Seq::empty()
    } else {
        Seq::new(evs.len(), |i: int| key_step(evs, i))
    }
}

/// How many of the steps inject a key.
pub open spec fn injected_count(steps: Seq<KeyboardStep>) -> nat
    decreases steps.len(),
{
    if steps.len() == 0 {
        0
    } else {
        injected_count(steps.drop_last()) + if steps.last().key is Some {
            1nat
        } else {
            0nat
        }
    }
}

/// How many of the events have a key with no injection-space key.
pub open spec fn unmapped_count(evs: Seq<KeyboardEv>) -> nat
    decreases evs.len(),
{
    if evs.len() == 0 {
        0
    } else {
        unmapped_count(evs.drop_last()) + if injection_of(evs.last().code) is None {
            1nat
        } else {
            0nat
        }
    }
}

/// Replays a loaded keyboard recording, one step at a time: `start_play`
/// begins, and each `next_step` hands out the next step, which the caller
/// waits for and injects. While a replay runs, loading and starting again are
/// refused.
pub struct KeyboardPlayer {
    playing: bool,
    duration: u64,
    ev_queue: Vec<KeyboardEv>,
    cursor: usize,
}

impl KeyboardPlayer {
    /// Whether a replay is running.
    pub closed spec fn playing(&self) -> bool {
        self.playing
    }

    /// How long the loaded recording lasted.
    pub closed spec fn duration(&self) -> u64 {
        self.duration
    }

    /// The loaded events.
    pub closed spec fn queue(&self) -> Seq<KeyboardEv> {
        self.ev_queue@
    }

    /// How many steps of the running replay were handed out.
    pub closed spec fn done(&self) -> nat {
        self.cursor as nat
    }

    /// The steps of a replay of what is loaded.
    pub open spec fn schedule(&self) -> Seq<KeyboardStep> {
        key_schedule(self.queue(), self.duration())
    }

    /// The replay position lies within the loaded events, and is zero when no
    /// replay runs.
    pub closed spec fn well_formed(&self) -> bool {
        &&& self.cursor <= self.ev_queue@.len()
        &&& !self.playing ==> self.cursor == 0
    }

    /// What a call of `load` with the events `evs` lasting `till` does, from
    /// `before`, returning `r` and leaving `after`: while a replay runs it
    /// fails and changes nothing; otherwise it puts the recording in place of
    /// the one loaded before.
    pub open spec fn load_done(
        before: Self,
        evs: Seq<KeyboardEv>,
        till: u64,
        r: Result<(), ()>,
        after: Self,
    ) -> bool {
        &&& after.well_formed()
        &&& before.playing() ==> r is Err && after == before
        &&& !before.playing() ==> {
            &&& r is Ok
            &&& !after.playing()
            &&& after.queue() == evs
            &&& after.duration() == till
        }
    }

    /// What a call of `start_play` does, from `before`, returning `r` and
    /// leaving `after`: while a replay runs it fails and changes nothing;
    /// otherwise a replay of what is loaded begins at its first step.
    pub open spec fn start_done(before: Self, r: Result<(), ()>, after: Self) -> bool {
        &&& after.well_formed()
        &&& before.playing() ==> r is Err && after == before
        &&& !before.playing() ==> {
            &&& r is Ok
            &&& after.playing()
            &&& after.done() == 0
            &&& after.queue() == before.queue()
            &&& after.duration() == before.duration()
        }
    }

    pub fn new() -> (r: KeyboardPlayer)
        ensures
            r.well_formed(),
            !r.playing(),
            r.duration() == 0,
            r.queue() == Seq::<KeyboardEv>::empty(),
    {
        KeyboardPlayer { playing: false, duration: 0, ev_queue: Vec::new(), cursor: 0 }
    }

    /// Loads a recording to replay later, in place of the one loaded before.
    /// Fails, changing nothing, while a replay runs.
    pub fn load(&mut self, action: KeyboardAction) -> (r: Result<(), ()>)
        requires
            old(self).well_formed(),
        ensures
            Self::load_done(*old(self), action.evs@, action.till, r, *final(self)),
    {
        if self.playing {
            return Err(());
        }
        self.ev_queue = action.evs;
        self.duration = action.till;
        Ok(())
    }

    /// Whether a replay is running.
    pub fn is_playing(&self) -> (r: bool)
        ensures
            r == self.playing(),
    {
        self.playing
    }

    /// The loaded events.
    pub fn get_record(&self) -> (r: Vec<KeyboardEv>)
        ensures
            r@ == self.queue(),
    {
        self.ev_queue.clone()
    }

    /// How long the loaded recording lasted.
    pub fn get_duration(&self) -> (r: u64)
        ensures
            r == self.duration(),
    {
        self.duration
    }

    /// Begins a replay of what is loaded. Fails, changing nothing and so
    /// injecting nothing, while a replay runs.
    pub fn start_play(&mut self) -> (r: Result<(), ()>)
        requires
            old(self).well_formed(),
        ensures
            Self::start_done(*old(self), r, *final(self)),
    {
        if self.playing {
            return Err(());
        }
        self.playing = true;
        self.cursor = 0;
        Ok(())
    }

    /// The next step of the running replay. Once all steps were handed out the
    /// replay ends and `None` comes back; outside a replay nothing changes.
    pub fn next_step(&mut self) -> (r: Option<KeyboardStep>)
        requires
            old(self).well_formed(),
        ensures
            final(self).well_formed(),
            final(self).queue() == old(self).queue(),
            final(self).duration() == old(self).duration(),
            !old(self).playing() ==> r is None && *final(self) == *old(self),
            old(self).playing() && old(self).done() < old(self).schedule().len() ==> {
                &&& r == Some(old(self).schedule()[old(self).done() as int])
                &&& final(self).playing()
                &&& final(self).done() == old(self).done() + 1
            },
            old(self).playing() && old(self).done() >= old(self).schedule().len() ==> {
                &&& r is None
                &&& !final(self).playing()
            },
    {
        if !self.playing {
            return None;
        }
        if self.duration == 0 || self.cursor >= self.ev_queue.len() {
            self.playing = false;
            self.cursor = 0;
            return None;
        }
        let i = self.cursor;
        let ev = self.ev_queue[i];
        let last: u64 = if i == 0 {
            0
        } else {
            self.ev_queue[i - 1].timestamp
        };
        let step = KeyboardStep {
            delay: delay_before(last, ev.timestamp),
            key: KeyboardMapper::dq_to_enigo(ev.code),
            press: ev.press,
        };
        self.cursor = i + 1;
        Some(step)
    }
}

/// Loading twice with no replay between: both loads succeed, and the second
/// replaces the events and the duration that the first loaded.
pub proof fn lemma_load_twice(
    p0: KeyboardPlayer,
    evs1: Seq<KeyboardEv>,
    till1: u64,
    r1: Result<(), ()>,
    p1: KeyboardPlayer,
    evs2: Seq<KeyboardEv>,
    till2: u64,
    r2: Result<(), ()>,
    p2: KeyboardPlayer,
)
    requires
        !p0.playing(),
        KeyboardPlayer::load_done(p0, evs1, till1, r1, p1),
        KeyboardPlayer::load_done(p1, evs2, till2, r2, p2),
    ensures
        r1 is Ok,
        r2 is Ok,
        p2.queue() == evs2,
        p2.duration() == till2,
{
}

/// Once a replay has begun, starting another one fails and changes nothing,
/// so nothing more is injected; so does loading. (`next_step` keeps the
/// replay running until its last step was handed out.)
pub proof fn lemma_one_replay_at_a_time(
    p0: KeyboardPlayer,
    r1: Result<(), ()>,
    p1: KeyboardPlayer,
    r2: Result<(), ()>,
    p2: KeyboardPlayer,
    evs: Seq<KeyboardEv>,
    till: u64,
    r3: Result<(), ()>,
    p3: KeyboardPlayer,
)
    requires
        !p0.playing(),
        KeyboardPlayer::start_done(p0, r1, p1),
        KeyboardPlayer::start_done(p1, r2, p2),
        KeyboardPlayer::load_done(p1, evs, till, r3, p3),
    ensures
        r1 is Ok,
        r2 is Err,
        p2 == p1,
        r3 is Err,
        p3 == p1,
{
}

/// Keys with no injection-space key are skipped, and nothing else changes
/// for it: every event has its step, which waits the delay that the
/// timestamps alone give, and the steps that inject are as many as the events
/// less those skipped.
pub proof fn lemma_unmapped_keys_skipped(evs: Seq<KeyboardEv>, duration: u64)
    requires
        duration > 0,
    ensures
        key_schedule(evs, duration).len() == evs.len(),
        forall|i: int|
            0 <= i < evs.len() ==> (#[trigger] key_schedule(evs, duration)[i]).delay == delay_at(
                key_times(evs),
                i,
            ),
        injected_count(key_schedule(evs, duration)) + unmapped_count(evs) == evs.len(),
    decreases evs.len(),
{
    if evs.len() > 0 {
        let rest = evs.drop_last();
        lemma_unmapped_keys_skipped(rest, duration);
        let s = key_schedule(evs, duration);
        assert forall|i: int| 0 <= i < rest.len() implies #[trigger] key_step(evs, i) == key_step(
            rest,
            i,
        ) by {
            assert(key_times(evs)[i] == key_times(rest)[i]);
            if i > 0 {
                assert(key_times(evs)[i - 1] == key_times(rest)[i - 1]);
            }
        }
        assert(s.drop_last() =~= key_schedule(rest, duration));
    }
}

// endregion

// region mouse player

/// One step of a mouse replay: wait `delay` milliseconds, move the pointer to
/// `position`, then press (`press`) or release `button`.
#[derive(Clone, Copy, Debug, PartialEq, Eq)]
pub struct MouseStep {
    pub delay: u64,
    pub position: (i32, i32),
    pub button: MouseButton,
    pub press: bool,
}

/// The step that replays the mouse event at `i`.
pub open spec fn mouse_step(evs: Seq<MouseEv>, i: int) -> MouseStep {
    MouseStep {
        delay: delay_at(mouse_times(evs), i),
        position: evs[i].position,
        button: button_action(evs[i].ev_name).0,
        press: button_action(evs[i].ev_name).1,
    }
}

/// The steps of a mouse replay, one per event in stored order; none when the
/// recording lasted no time.
pub open spec fn mouse_schedule(evs: Seq<MouseEv>, duration: u64) -> Seq<MouseStep> {
    if duration == 0 {
        Seq::empty()
    } else {
        Seq::new(evs.len(), |i: int| mouse_step(evs, i))
    }
}

/// Replays a loaded mouse recording, one step at a time, as `KeyboardPlayer`
/// does keyboard ones.
pub struct MousePlayer {
    playing: bool,
    duration: u64,
    ev_queue: Vec<MouseEv>,
    cursor: usize,
}

impl MousePlayer {
    /// Whether a replay is running.
    pub closed spec fn playing(&self) -> bool {
        self.playing
    }

    /// How long the loaded recording lasted.
    pub closed spec fn duration(&self) -> u64 {
        self.duration
    }

    /// The loaded events.
    pub closed spec fn queue(&self) -> Seq<MouseEv> {
        self.ev_queue@
    }

    /// How many steps of the running replay were handed out.
    pub closed spec fn done(&self) -> nat {
        self.cursor as nat
    }

    /// The steps of a replay of what is loaded.
    pub open spec fn schedule(&self) -> Seq<MouseStep> {
        mouse_schedule(self.queue(), self.duration())
    }

    /// The replay position lies within the loaded events, and is zero when no
    /// replay runs.
    pub closed spec fn well_formed(&self) -> bool {
        &&& self.cursor <= self.ev_queue@.len()
        &&& !self.playing ==> self.cursor == 0
    }

    /// What a call of `load` with the events `evs` lasting `till` does, from
    /// `before`, returning `r` and leaving `after`: while a replay runs it
    /// fails and changes nothing; otherwise it puts the recording in place of
    /// the one loaded before.
    pub open spec fn load_done(
        before: Self,
        evs: Seq<MouseEv>,
        till: u64,
        r: Result<(), ()>,
        after: Self,
    ) -> bool {
        &&& after.well_formed()
        &&& before.playing() ==> r is Err && after == before
        &&& !before.playing() ==> {
            &&& r is Ok
            &&& !after.playing()
            &&& after.queue() == evs
            &&& after.duration() == till
        }
    }

    /// What a call of `start_play` does, from `before`, returning `r` and
    /// leaving `after`: while a replay runs it fails and changes nothing;
    /// otherwise a replay of what is loaded begins at its first step.
    pub open spec fn start_done(before: Self, r: Result<(), ()>, after: Self) -> bool {
        &&& after.well_formed()
        &&& before.playing() ==> r is Err && after == before
        &&& !before.playing() ==> {
            &&& r is Ok
            &&& after.playing()
            &&& after.done() == 0
            &&& after.queue() == before.queue()
            &&& after.duration() == before.duration()
        }
    }

    pub fn new() -> (r: MousePlayer)
        ensures
            r.well_formed(),
            !r.playing(),
            r.duration() == 0,
            r.queue() == Seq::<MouseEv>::empty(),
    {
        MousePlayer { playing: false, duration: 0, ev_queue: Vec::new(), cursor: 0 }
    }

    /// Loads a recording to replay later, in place of the one loaded before.
    /// Fails, changing nothing, while a replay runs.
    pub fn load(&mut self, action: MouseAction) -> (r: Result<(), ()>)
        requires
            old(self).well_formed(),
        ensures
            Self::load_done(*old(self), action.evs@, action.till, r, *final(self)),
    {
        if self.playing {
            return Err(());
        }
        self.ev_queue = action.evs;
        self.duration = action.till;
        Ok(())
    }

    /// Whether a replay is running.
    pub fn is_playing(&self) -> (r: bool)
        ensures
            r == self.playing(),
    {
        self.playing
    }

    /// The loaded events.
    pub fn get_record(&self) -> (r: Vec<MouseEv>)
        ensures
            r@ == self.queue(),
    {
        self.ev_queue.clone()
    }

    /// How long the loaded recording lasted.
    pub fn get_duration(&self) -> (r: u64)
        ensures
            r == self.duration(),
    {
        self.duration
    }

    /// Begins a replay of what is loaded. Fails, changing nothing and so
    /// injecting nothing, while a replay runs.
    pub fn start_play(&mut self) -> (r: Result<(), ()>)
        requires
            old(self).well_formed(),
        ensures
            Self::start_done(*old(self), r, *final(self)),
    {
        if self.playing {
            return Err(());
        }
        self.playing = true;
        self.cursor = 0;
        Ok(())
    }

    /// The next step of the running replay. Once all steps were handed out the
    /// replay ends and `None` comes back; outside a replay nothing changes.
    pub fn next_step(&mut self) -> (r: Option<MouseStep>)
        requires
            old(self).well_formed(),
        ensures
            final(self).well_formed(),
            final(self).queue() == old(self).queue(),
            final(self).duration() == old(self).duration(),
            !old(self).playing() ==> r is None && *final(self) == *old(self),
            old(self).playing() && old(self).done() < old(self).schedule().len() ==> {
                &&& r == Some(old(self).schedule()[old(self).done() as int])
                &&& final(self).playing()
                &&& final(self).done() == old(self).done() + 1
            },
            old(self).playing() && old(self).done() >= old(self).schedule().len() ==> {
                &&& r is None
                &&& !final(self).playing()
            },
    {
        if !self.playing {
            return None;
        }
        if self.duration == 0 || self.cursor >= self.ev_queue.len() {
            self.playing = false;
            self.cursor = 0;
            return None;
        }
        let i = self.cursor;
        let ev = self.ev_queue[i];
        let last: u64 = if i == 0 {
            0
        } else {
            self.ev_queue[i - 1].timestamp
        };
        let (button, press) = MouseMapper::parse_ev_name(ev.ev_name);
        let step = MouseStep {
            delay: delay_before(last, ev.timestamp),
            position: ev.position,
            button,
            press,
        };
        self.cursor = i + 1;
        Some(step)
    }
}

// endregion

} // verus!
