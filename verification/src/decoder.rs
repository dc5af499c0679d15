//! The frame decoder: a state machine that turns a raw, interleaved
//! stream of axis updates, key transitions and frame-sync markers into
//! discrete pointer events.
//!
//! The decoder keeps the last known value of every tracked axis across
//! frames (sparse updates: a frame that touches only one axis leaves
//! the others as they were) together with two booleans. `touching` is
//! true exactly between a recognised contact-begin signal and its
//! matching contact-end signal; `pending_down` is true only between a
//! key-based contact-begin signal and the next frame boundary.
//!
//! End of contact is signalled two independent ways — a multi-touch
//! tracking id of -1, or a contact-button release — and either emits
//! `Up` at once, without waiting for a frame boundary. `Down` and
//! `Move` are emitted only at a frame-sync marker.

use vstd::prelude::*;

use crate::events::{
    RawInputEvent, StylusEvent, PointerKind, EV_SYN, EV_KEY, EV_ABS, ABS_X, ABS_Y, ABS_PRESSURE,
    ABS_TILT_X, ABS_TILT_Y, ABS_MT_TOUCH_MAJOR, ABS_MT_POSITION_X, ABS_MT_POSITION_Y,
    ABS_MT_TRACKING_ID, BTN_TOUCH,
};

verus! {

/// The most pointer events one decoded read session may return.
pub const MAX_POINTER_EVENTS: usize = 100;

/// The most raw events one passthrough read session may return.
pub const MAX_RAW_EVENTS: usize = 50;

/// Per-session decoder state: the last known value of every tracked
/// axis, plus the two contact-tracking booleans.
#[derive(Clone, Copy, Debug, PartialEq, Eq, Structural)]
pub struct DecoderState {
    pub x: i32,
    pub y: i32,
    pub pressure: i32,
    pub tilt_x: i32,
    pub tilt_y: i32,
    pub touch_major: i32,
    pub touching: bool,
    pub pending_down: bool,
}

/// The state a fresh read session starts from: every axis 0, no
/// contact signalled.
pub open spec fn init_state() -> DecoderState {
    DecoderState {
        x: 0,
        y: 0,
        pressure: 0,
        tilt_x: 0,
        tilt_y: 0,
        touch_major: 0,
        touching: false,
        pending_down: false,
    }
}

/// True of an event that overwrites the X accumulator (single-point or
/// multi-touch positional axis).
pub open spec fn writes_x(ev: RawInputEvent) -> bool {
    ev.event_type == EV_ABS && (ev.code == ABS_X || ev.code == ABS_MT_POSITION_X)
}

/// True of an event that overwrites the Y accumulator.
pub open spec fn writes_y(ev: RawInputEvent) -> bool {
    ev.event_type == EV_ABS && (ev.code == ABS_Y || ev.code == ABS_MT_POSITION_Y)
}

/// True of an event that overwrites the pressure accumulator.
pub open spec fn writes_pressure(ev: RawInputEvent) -> bool {
    ev.event_type == EV_ABS && ev.code == ABS_PRESSURE
}

/// True of an event that overwrites the X-tilt accumulator.
pub open spec fn writes_tilt_x(ev: RawInputEvent) -> bool {
    ev.event_type == EV_ABS && ev.code == ABS_TILT_X
}

/// True of an event that overwrites the Y-tilt accumulator.
pub open spec fn writes_tilt_y(ev: RawInputEvent) -> bool {
    ev.event_type == EV_ABS && ev.code == ABS_TILT_Y
}

/// True of an event that overwrites the touch-major accumulator.
pub open spec fn writes_touch_major(ev: RawInputEvent) -> bool {
    ev.event_type == EV_ABS && ev.code == ABS_MT_TOUCH_MAJOR
}

/// True of a multi-touch slot release: tracking id set to -1.
pub open spec fn is_slot_release(ev: RawInputEvent) -> bool {
    ev.event_type == EV_ABS && ev.code == ABS_MT_TRACKING_ID && ev.value == -1
}

/// True of a contact-button press.
pub open spec fn is_contact_press(ev: RawInputEvent) -> bool {
    ev.event_type == EV_KEY && ev.code == BTN_TOUCH && ev.value == 1
}

/// True of a contact-button release: any contact-button transition
/// other than a press ends the contact.
pub open spec fn is_contact_release(ev: RawInputEvent) -> bool {
    ev.event_type == EV_KEY && ev.code == BTN_TOUCH && ev.value != 1
}

/// True of a frame-sync marker (any code of the sync event type).
pub open spec fn is_sync(ev: RawInputEvent) -> bool {
    ev.event_type == EV_SYN
}

/// The pointer event carrying the axis values of `s` with kind `k`.
pub open spec fn snapshot(s: DecoderState, k: PointerKind) -> StylusEvent {
    StylusEvent {
        x: s.x,
        y: s.y,
        pressure: s.pressure,
        tilt_x: s.tilt_x,
        tilt_y: s.tilt_y,
        touch_major: s.touch_major,
        kind: k,
    }
}

/// The decoder state after consuming one raw event in state `s`.
pub open spec fn step_state(s: DecoderState, ev: RawInputEvent) -> DecoderState {
    if writes_x(ev) {
        DecoderState { x: ev.value, ..s }
    } else if writes_y(ev) {
        DecoderState { y: ev.value, ..s }
    } else if writes_pressure(ev) {
        DecoderState { pressure: ev.value, ..s }
    } else if writes_tilt_x(ev) {
        DecoderState { tilt_x: ev.value, ..s }
    } else if writes_tilt_y(ev) {
        DecoderState { tilt_y: ev.value, ..s }
    } else if writes_touch_major(ev) {
        DecoderState { touch_major: ev.value, ..s }
    } else if is_slot_release(ev) {
        DecoderState { touching: false, ..s }
    } else if is_contact_press(ev) {
        DecoderState { touching: true, pending_down: true, ..s }
    } else if is_contact_release(ev) {
        DecoderState { touching: false, ..s }
    } else if is_sync(ev) {
        DecoderState { pending_down: false, ..s }
    } else {
        s
    }
}

/// The pointer event, if any, that consuming one raw event in state
/// `s` emits. At most one event is emitted per raw event: `Up` at once
/// on either end-of-contact signal, `Down`/`Move` only at a frame-sync
/// marker, nothing otherwise.
pub open spec fn step_emit(s: DecoderState, ev: RawInputEvent) -> Option<StylusEvent> {
    if is_slot_release(ev) || is_contact_release(ev) {
        Some(snapshot(s, PointerKind::Up))
    } else if is_sync(ev) {
        if s.pending_down {
            Some(snapshot(s, PointerKind::Down))
        } else if s.touching && (s.x > 0 || s.y > 0) {
            Some(snapshot(s, PointerKind::Move))
        } else {
            None
        }
    } else {
        None
    }
}

/// The state and the emitted pointer events after running the decoder
/// from state `s` over the events of `evs` in wire order, stopping as
/// soon as `room` events have been emitted. With `room` no smaller
/// than `evs.len()` the cap never binds and this is the plain decoding
/// of the whole stream.
pub open spec fn decode_run(s: DecoderState, evs: Seq<RawInputEvent>, room: nat) -> (
    DecoderState,
    Seq<StylusEvent>,
)
    decreases evs.len(),
{
    if evs.len() == 0 || room == 0 {
        (s, Seq::empty())
    } else {
        let s1 = step_state(s, evs[0]);
        match step_emit(s, evs[0]) {
            Some(e) => {
                let rest = decode_run(s1, evs.drop_first(), (room - 1) as nat);
                (rest.0, seq![e] + rest.1)
            },
            None => decode_run(s1, evs.drop_first(), room),
        }
    }
}

/// True of an event that only overwrites an axis accumulator (and so
/// neither emits nor touches the contact-tracking booleans).
pub open spec fn is_axis_update(ev: RawInputEvent) -> bool {
    writes_x(ev) || writes_y(ev) || writes_pressure(ev) || writes_tilt_x(ev) || writes_tilt_y(ev)
        || writes_touch_major(ev)
}

/// The decoder state after consuming all of `evs` in order from `s`.
pub open spec fn run_state(s: DecoderState, evs: Seq<RawInputEvent>) -> DecoderState
    decreases evs.len(),
{
    if evs.len() == 0 {
        s
    } else {
        run_state(step_state(s, evs[0]), evs.drop_first())
    }
}

/// Sparse updates never implicitly reset unrelated axes: one decoder
/// step changes an axis accumulator only when the consumed event is an
/// explicit overwrite of that very axis; every other axis keeps its
/// last known value, whatever the event.
pub proof fn lemma_axis_fields_persist(s: DecoderState, ev: RawInputEvent)
    ensures
        !writes_x(ev) ==> step_state(s, ev).x == s.x,
        !writes_y(ev) ==> step_state(s, ev).y == s.y,
        !writes_pressure(ev) ==> step_state(s, ev).pressure == s.pressure,
        !writes_tilt_x(ev) ==> step_state(s, ev).tilt_x == s.tilt_x,
        !writes_tilt_y(ev) ==> step_state(s, ev).tilt_y == s.tilt_y,
        !writes_touch_major(ev) ==> step_state(s, ev).touch_major == s.touch_major,
{
}

/// The frame condition of whole input sequences: over any run of raw
/// events, an axis accumulator still holds its starting value unless
/// some event of the run explicitly overwrote that very axis.
pub proof fn lemma_axis_fields_persist_over_run(s: DecoderState, evs: Seq<RawInputEvent>)
    ensures
        (forall|j: int| 0 <= j < evs.len() ==> !writes_x(#[trigger] evs[j])) ==> run_state(
            s,
            evs,
        ).x == s.x,
        (forall|j: int| 0 <= j < evs.len() ==> !writes_y(#[trigger] evs[j])) ==> run_state(
            s,
            evs,
        ).y == s.y,
        (forall|j: int| 0 <= j < evs.len() ==> !writes_pressure(#[trigger] evs[j])) ==> run_state(
            s,
            evs,
        ).pressure == s.pressure,
        (forall|j: int| 0 <= j < evs.len() ==> !writes_tilt_x(#[trigger] evs[j])) ==> run_state(
            s,
            evs,
        ).tilt_x == s.tilt_x,
        (forall|j: int| 0 <= j < evs.len() ==> !writes_tilt_y(#[trigger] evs[j])) ==> run_state(
            s,
            evs,
        ).tilt_y == s.tilt_y,
        (forall|j: int| 0 <= j < evs.len() ==> !writes_touch_major(#[trigger] evs[j]))
            ==> run_state(s, evs).touch_major == s.touch_major,
    decreases evs.len(),
{
    if evs.len() > 0 {
        let s1 = step_state(s, evs[0]);
        lemma_axis_fields_persist(s, evs[0]);
        lemma_axis_fields_persist_over_run(s1, evs.drop_first());
        assert(forall|j: int|
            0 <= j < evs.drop_first().len() ==> #[trigger] evs.drop_first()[j] == evs[j + 1]);
    }
}

/// Either end-of-contact signal — a tracking id of -1 or a
/// contact-button release — yields exactly one `Up` event, carrying
/// the current accumulator values, on the very step that consumes it:
/// no later frame-sync marker is waited for, and the contact flag is
/// cleared at once.
pub proof fn lemma_end_of_contact_emits_up(s: DecoderState, ev: RawInputEvent)
    requires
        is_slot_release(ev) || is_contact_release(ev),
    ensures
        step_emit(s, ev) == Some(snapshot(s, PointerKind::Up)),
        !step_state(s, ev).touching,
{
}

/// A frame-sync marker observed while `touching` is false and
/// `pendingDown` is false emits nothing: neither `Down` nor `Move`
/// comes out of a frame that carried no actionable state.
pub proof fn lemma_idle_sync_emits_nothing(s: DecoderState, ev: RawInputEvent)
    requires
        is_sync(ev),
        !s.touching,
        !s.pending_down,
    ensures
        step_emit(s, ev) is None,
{
}

/// From any state with a down pending, a run of pure axis updates
/// closed by a frame-sync marker emits exactly one event: a `Down`
/// carrying the axis values accumulated over those updates.
proof fn lemma_pending_down_run(
    s: DecoderState,
    mid: Seq<RawInputEvent>,
    syn: RawInputEvent,
    room: nat,
)
    requires
        s.pending_down,
        is_sync(syn),
        forall|j: int| 0 <= j < mid.len() ==> is_axis_update(#[trigger] mid[j]),
        room >= 1,
    ensures
        decode_run(s, mid + seq![syn], room).1 == seq![
            snapshot(run_state(s, mid), PointerKind::Down),
        ],
    decreases mid.len(),
{
    if mid.len() == 0 {
        let e = snapshot(s, PointerKind::Down);
        assert(mid + seq![syn] =~= seq![syn]);
        assert(seq![syn].drop_first() =~= Seq::<RawInputEvent>::empty());
        assert(step_emit(s, syn) == Some(e));
        assert(decode_run(step_state(s, syn), seq![syn].drop_first(), (room - 1) as nat).1
            =~= Seq::<StylusEvent>::empty());
        assert(decode_run(s, seq![syn], room).1 =~= seq![e] + Seq::<StylusEvent>::empty());
        assert(seq![e] + Seq::<StylusEvent>::empty() =~= seq![e]);
    } else {
        let ev = mid[0];
        let s1 = step_state(s, ev);
        assert(is_axis_update(ev));
        assert(step_emit(s, ev) is None);
        assert(s1.pending_down);
        assert((mid + seq![syn])[0] == ev);
        assert((mid + seq![syn]).drop_first() =~= mid.drop_first() + seq![syn]);
        lemma_pending_down_run(s1, mid.drop_first(), syn, room);
    }
}

/// A contact-button press, followed by any run of axis updates and
/// then a frame-sync marker, yields exactly one `Down` event, and that
/// event carries the axis values accumulated since the press.
pub proof fn lemma_press_then_sync_yields_one_down(
    s: DecoderState,
    press: RawInputEvent,
    mid: Seq<RawInputEvent>,
    syn: RawInputEvent,
    room: nat,
)
    requires
        is_contact_press(press),
        is_sync(syn),
        forall|j: int| 0 <= j < mid.len() ==> is_axis_update(#[trigger] mid[j]),
        room >= 1,
    ensures
        decode_run(s, seq![press] + mid + seq![syn], room).1 == seq![
            snapshot(run_state(step_state(s, press), mid), PointerKind::Down),
        ],
{
    let s1 = step_state(s, press);
    assert(step_emit(s, press) is None);
    assert(s1.pending_down);
    assert((seq![press] + mid + seq![syn])[0] == press);
    assert((seq![press] + mid + seq![syn]).drop_first() =~= mid + seq![syn]);
    lemma_pending_down_run(s1, mid, syn, room);
}

/// For every input sequence and every budget, the decoder emits at
/// most its budget of pointer events: a decoded read session never
/// returns more events than its cap.
pub proof fn lemma_decode_output_capped(s: DecoderState, evs: Seq<RawInputEvent>, room: nat)
    ensures
        decode_run(s, evs, room).1.len() <= room,
    decreases evs.len(),
{
    if evs.len() > 0 && room > 0 {
        let s1 = step_state(s, evs[0]);
        match step_emit(s, evs[0]) {
            Some(_) => {
                lemma_decode_output_capped(s1, evs.drop_first(), (room - 1) as nat);
            },
            None => {
                lemma_decode_output_capped(s1, evs.drop_first(), room);
            },
        }
    }
}

/// The prefix of `batch` that still fits in `room` remaining slots:
/// all of it when it fits, else its first `room` events.
pub open spec fn capped_prefix(batch: Seq<RawInputEvent>, room: nat) -> Seq<RawInputEvent> {
    if batch.len() <= room {
        batch
    } else {
        batch.take(room as int)
    }
}

/// Raw passthrough: append one fetched batch to `out` unmodified, in
/// wire order, and stop as soon as `out` holds `max` events. The
/// diagnostic polling loop calls this once per fetch with the same
/// accumulating `out`, so the cap holds over the whole session.
pub fn append_raw(out: &mut Vec<RawInputEvent>, batch: &Vec<RawInputEvent>, max: usize)
    requires
        old(out).len() <= max,
    ensures
        final(out)@ == old(out)@ + capped_prefix(batch@, (max - old(out).len()) as nat),
        final(out).len() <= max,
{
    let ghost out0 = out@;
    let mut i: usize = 0;
    while i < batch.len() && out.len() < max
        invariant
            i <= batch.len(),
            out@.len() <= max,
            out@.len() == out0.len() + i,
            i <= max - out0.len(),
            out@ == out0 + batch@.take(i as int),
        decreases batch.len() - i,
    {
        proof {
            assert((out0 + batch@.take(i as int)).push(batch@[i as int]) =~= out0 + batch@.take(
                i as int + 1,
            ));
        }
        out.push(batch[i]);
        i = i + 1;
    }
    proof {
        assert(batch@.take(batch@.len() as int) =~= batch@);
    }
}

impl DecoderState {
    /// A fresh decoder for a new read session.
    pub fn new() -> (s: DecoderState)
        ensures
            s == init_state(),
    {
        DecoderState {
            x: 0,
            y: 0,
            pressure: 0,
            tilt_x: 0,
            tilt_y: 0,
            touch_major: 0,
            touching: false,
            pending_down: false,
        }
    }

    /// Consume one raw wire event: update the accumulator and return
    /// the pointer event emitted for it, if any.
    pub fn step(&mut self, ev: RawInputEvent) -> (r: Option<StylusEvent>)
        ensures
            *final(self) == step_state(*old(self), ev),
            r == step_emit(*old(self), ev),
    {
        if ev.event_type == EV_ABS {
            if ev.code == ABS_X || ev.code == ABS_MT_POSITION_X {
                self.x = ev.value;
                None
            } else if ev.code == ABS_Y || ev.code == ABS_MT_POSITION_Y {
                self.y = ev.value;
                None
            } else if ev.code == ABS_PRESSURE {
                self.pressure = ev.value;
                None
            } else if ev.code == ABS_TILT_X {
                self.tilt_x = ev.value;
                None
            } else if ev.code == ABS_TILT_Y {
                self.tilt_y = ev.value;
                None
            } else if ev.code == ABS_MT_TOUCH_MAJOR {
                self.touch_major = ev.value;
                None
            } else if ev.code == ABS_MT_TRACKING_ID && ev.value == -1 {
                let up = self.emit(PointerKind::Up);
                self.touching = false;
                Some(up)
            } else {
                None
            }
        } else if ev.event_type == EV_KEY && ev.code == BTN_TOUCH {
            if ev.value == 1 {
                self.touching = true;
                self.pending_down = true;
                None
            } else {
                let up = self.emit(PointerKind::Up);
                self.touching = false;
                Some(up)
            }
        } else if ev.event_type == EV_SYN {
            if self.pending_down {
                self.pending_down = false;
                Some(self.emit(PointerKind::Down))
            } else if self.touching && (self.x > 0 || self.y > 0) {
                Some(self.emit(PointerKind::Move))
            } else {
                None
            }
        } else {
            None
        }
    }

    /// Consume one fetched batch of raw events in wire order, pushing
    /// each emitted pointer event onto `out`, and stop as soon as
    /// `out` holds `max` events. The session's polling loop calls this
    /// once per fetch with the same accumulating `out`, so the cap
    /// holds over the whole session.
    pub fn decode_batch(
        &mut self,
        events: &Vec<RawInputEvent>,
        out: &mut Vec<StylusEvent>,
        max: usize,
    )
        requires
            old(out).len() <= max,
        ensures
            *final(self) == decode_run(*old(self), events@, (max - old(out).len()) as nat).0,
            final(out)@ == old(out)@ + decode_run(
                *old(self),
                events@,
                (max - old(out).len()) as nat,
            ).1,
            final(out).len() <= max,
    {
        let ghost s0 = *self;
        let ghost out0 = out@;
        let ghost room0 = (max - out.len()) as nat;
        let mut i: usize = 0;
        proof {
            assert(events@.skip(0) =~= events@);
            assert(out@.skip(out0.len() as int) =~= Seq::<StylusEvent>::empty());
        }
        while i < events.len() && out.len() < max
            invariant
                i <= events.len(),
                out@.len() <= max,
                out0.len() <= out@.len(),
                out0.is_prefix_of(out@),
                decode_run(s0, events@, room0).0 == decode_run(
                    *self,
                    events@.skip(i as int),
                    (max - out@.len()) as nat,
                ).0,
                decode_run(s0, events@, room0).1 == out@.skip(out0.len() as int) + decode_run(
                    *self,
                    events@.skip(i as int),
                    (max - out@.len()) as nat,
                ).1,
            decreases events.len() - i,
        {
            let ev = events[i];
            proof {
                assert(events@.skip(i as int)[0] == events@[i as int]);
                assert(events@.skip(i as int).drop_first() =~= events@.skip(i as int + 1));
            }
            let ghost emitted_before = out@.skip(out0.len() as int);
            match self.step(ev) {
                Some(e) => {
                    out.push(e);
                    proof {
                        assert(out@.skip(out0.len() as int) =~= emitted_before + seq![e]);
                        assert(emitted_before + (seq![e] + decode_run(
                            *self,
                            events@.skip(i as int + 1),
                            (max - out@.len()) as nat,
                        ).1) =~= (emitted_before + seq![e]) + decode_run(
                            *self,
                            events@.skip(i as int + 1),
                            (max - out@.len()) as nat,
                        ).1);
                    }
                },
                None => {},
            }
            i = i + 1;
        }
        proof {
            if i == events.len() {
                assert(events@.skip(i as int) =~= Seq::<RawInputEvent>::empty());
            }
            assert(out@ =~= out0 + out@.skip(out0.len() as int));
        }
    }

    /// The pointer event carrying the current axis values with kind `k`.
    fn emit(&self, k: PointerKind) -> (r: StylusEvent)
        ensures
            r == snapshot(*self, k),
    {
        StylusEvent {
            x: self.x,
            y: self.y,
            pressure: self.pressure,
            tilt_x: self.tilt_x,
            tilt_y: self.tilt_y,
            touch_major: self.touch_major,
            kind: k,
        }
    }
}

} // verus!
