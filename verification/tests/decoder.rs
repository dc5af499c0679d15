use open_legato::decoder::{DecoderState, MAX_POINTER_EVENTS, MAX_RAW_EVENTS, append_raw};
use open_legato::events::{
    ABS_MT_TRACKING_ID, ABS_PRESSURE, ABS_X, ABS_Y, BTN_TOUCH, EV_ABS, EV_KEY, EV_SYN, PointerKind,
    RawInputEvent, StylusEvent,
};

fn ev(event_type: u16, code: u16, value: i32) -> RawInputEvent {
    RawInputEvent { event_type, code, value }
}

fn decode_all(state: &mut DecoderState, events: &[RawInputEvent]) -> Vec<StylusEvent> {
    let mut out = Vec::new();
    state.decode_batch(&events.to_vec(), &mut out, MAX_POINTER_EVENTS);
    out
}

#[test]
fn press_then_frame_emits_one_down() {
    let mut state = DecoderState::new();
    let events = [
        ev(EV_KEY, BTN_TOUCH, 1),
        ev(EV_ABS, ABS_X, 10),
        ev(EV_ABS, ABS_Y, 20),
        ev(EV_SYN, 0, 0),
    ];
    let out = decode_all(&mut state, &events);
    assert_eq!(out.len(), 1);
    assert_eq!(out[0].kind, PointerKind::Down);
    assert_eq!(out[0].x, 10);
    assert_eq!(out[0].y, 20);
    assert_eq!(out[0].pressure, 0);
    assert_eq!(out[0].tilt_x, 0);
    assert_eq!(out[0].tilt_y, 0);
    assert_eq!(out[0].touch_major, 0);
}

#[test]
fn following_frame_emits_move_with_retained_axes() {
    let mut state = DecoderState::new();
    decode_all(
        &mut state,
        &[
            ev(EV_KEY, BTN_TOUCH, 1),
            ev(EV_ABS, ABS_X, 10),
            ev(EV_ABS, ABS_Y, 20),
            ev(EV_ABS, ABS_PRESSURE, 512),
            ev(EV_SYN, 0, 0),
        ],
    );
    let out = decode_all(
        &mut state,
        &[ev(EV_ABS, ABS_X, 15), ev(EV_ABS, ABS_Y, 25), ev(EV_SYN, 0, 0)],
    );
    assert_eq!(out.len(), 1);
    assert_eq!(out[0].kind, PointerKind::Move);
    assert_eq!(out[0].x, 15);
    assert_eq!(out[0].y, 25);
    // Pressure carried over from the earlier frame: sparse updates
    // never reset unrelated axes.
    assert_eq!(out[0].pressure, 512);
}

#[test]
fn tracking_id_release_alone_emits_up_at_once() {
    let mut state = DecoderState::new();
    decode_all(
        &mut state,
        &[
            ev(EV_KEY, BTN_TOUCH, 1),
            ev(EV_ABS, ABS_X, 10),
            ev(EV_ABS, ABS_Y, 20),
            ev(EV_SYN, 0, 0),
        ],
    );
    // No sync marker follows the release; the Up must come anyway.
    let out = decode_all(&mut state, &[ev(EV_ABS, ABS_MT_TRACKING_ID, -1)]);
    assert_eq!(out.len(), 1);
    assert_eq!(out[0].kind, PointerKind::Up);
    assert_eq!(out[0].x, 10);
    assert_eq!(out[0].y, 20);
    assert!(!state.touching);
}

#[test]
fn button_release_emits_up_without_waiting_for_sync() {
    let mut state = DecoderState::new();
    decode_all(
        &mut state,
        &[ev(EV_KEY, BTN_TOUCH, 1), ev(EV_ABS, ABS_X, 7), ev(EV_SYN, 0, 0)],
    );
    let out = decode_all(&mut state, &[ev(EV_KEY, BTN_TOUCH, 0)]);
    assert_eq!(out.len(), 1);
    assert_eq!(out[0].kind, PointerKind::Up);
    assert_eq!(out[0].x, 7);
    assert!(!state.touching);
}

#[test]
fn first_frame_without_contact_emits_nothing() {
    let mut state = DecoderState::new();
    let out = decode_all(&mut state, &[ev(EV_ABS, ABS_X, 5), ev(EV_SYN, 0, 0)]);
    assert!(out.is_empty());
    assert!(!state.touching);
    assert!(!state.pending_down);
}

#[test]
fn no_move_while_position_is_at_origin() {
    let mut state = DecoderState::new();
    // Contact begins but no position ever arrives: the Down still
    // fires at the frame boundary, yet later frames emit no Move while
    // both coordinates sit at 0.
    let out = decode_all(&mut state, &[ev(EV_KEY, BTN_TOUCH, 1), ev(EV_SYN, 0, 0)]);
    assert_eq!(out.len(), 1);
    assert_eq!(out[0].kind, PointerKind::Down);
    let out = decode_all(&mut state, &[ev(EV_SYN, 0, 0), ev(EV_SYN, 0, 0)]);
    assert!(out.is_empty());
}

#[test]
fn no_move_after_contact_ended() {
    let mut state = DecoderState::new();
    decode_all(
        &mut state,
        &[
            ev(EV_KEY, BTN_TOUCH, 1),
            ev(EV_ABS, ABS_X, 10),
            ev(EV_SYN, 0, 0),
            ev(EV_KEY, BTN_TOUCH, 0),
        ],
    );
    // Contact is over: frames with stale positive coordinates emit
    // nothing until a new contact begins.
    let out = decode_all(&mut state, &[ev(EV_SYN, 0, 0)]);
    assert!(out.is_empty());
}

#[test]
fn unrecognized_events_are_ignored() {
    let mut state = DecoderState::new();
    let out = decode_all(
        &mut state,
        &[ev(2, 0, 5), ev(EV_KEY, 272, 1), ev(EV_ABS, 40, 3)],
    );
    assert!(out.is_empty());
    assert_eq!(state, DecoderState::new());
}

#[test]
fn pointer_output_is_capped() {
    let mut state = DecoderState::new();
    // A press, a position, then a long run of sync markers: every sync
    // while touching emits, so far more than the cap is offered.
    let mut events = vec![ev(EV_KEY, BTN_TOUCH, 1), ev(EV_ABS, ABS_X, 3)];
    for _ in 0..300 {
        events.push(ev(EV_SYN, 0, 0));
    }
    let mut out = Vec::new();
    state.decode_batch(&events, &mut out, MAX_POINTER_EVENTS);
    assert_eq!(out.len(), MAX_POINTER_EVENTS);
    assert_eq!(out[0].kind, PointerKind::Down);
    assert!(out[1..].iter().all(|e| e.kind == PointerKind::Move));
}

#[test]
fn empty_input_decodes_to_empty_output() {
    let mut state = DecoderState::new();
    let out = decode_all(&mut state, &[]);
    assert!(out.is_empty());
    assert_eq!(state, DecoderState::new());
}

#[test]
fn raw_passthrough_keeps_wire_order() {
    let batch: Vec<RawInputEvent> = (0..10).map(|i| ev(EV_ABS, ABS_X, i)).collect();
    let mut out = Vec::new();
    append_raw(&mut out, &batch, MAX_RAW_EVENTS);
    assert_eq!(out, batch);
}

#[test]
fn raw_passthrough_is_capped() {
    let batch: Vec<RawInputEvent> = (0..80).map(|i| ev(EV_ABS, ABS_X, i)).collect();
    let mut out = Vec::new();
    append_raw(&mut out, &batch, MAX_RAW_EVENTS);
    assert_eq!(out.len(), MAX_RAW_EVENTS);
    assert_eq!(out, batch[..MAX_RAW_EVENTS].to_vec());
    // A later poll with a full output adds nothing.
    append_raw(&mut out, &batch, MAX_RAW_EVENTS);
    assert_eq!(out.len(), MAX_RAW_EVENTS);
}

#[test]
fn empty_raw_batch_appends_nothing() {
    let mut out = Vec::new();
    append_raw(&mut out, &Vec::new(), MAX_RAW_EVENTS);
    assert!(out.is_empty());
}
