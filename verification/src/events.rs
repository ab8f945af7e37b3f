//! Raw platform events, the published window identity, and the
//! classification of raw events into the semantic tagged union consumed by
//! the dispatch loop.

use vstd::prelude::*;

use crate::gui_state::MouseEvent;

verus! {

/// Protocol code of an expose (redraw) event.
pub const EXPOSE_CODE: u8 = 12;

/// Protocol code of a pointer-button press event.
pub const BUTTON_PRESS_CODE: u8 = 4;

/// Protocol code of a client message event.
pub const CLIENT_MESSAGE_CODE: u8 = 33;

/// Data format (in bits per element) that a termination client message
/// carries; only messages in this format are checked against the published
/// identity.
pub const CLIENT_MESSAGE_WORD_FORMAT: u8 = 32;

/// Mask that strips the synthetic-origin bit from an event's response type:
/// an event injected by a client arrives with the high bit set, and the
/// dispatch loop classifies it exactly as it would the natural event.
pub const RESPONSE_TYPE_MASK: u8 = 0x7f;

/// The masked event kind in arithmetic terms: stripping the
/// synthetic-origin bit from a response type is reduction modulo 128. Lets
/// a caller compute the classification of a concrete event.
pub broadcast proof fn lemma_event_kind_mask(rt: u8)
    ensures
        #[trigger] (rt & RESPONSE_TYPE_MASK) == rt % 128,
{
    assert(rt & 0x7f == rt % 128) by (bit_vector);
}

/// The identity of one native window, published exactly once by the
/// background thread before its dispatch loop begins: the window handle and
/// the two protocol identifiers (the protocols property atom and the
/// delete-window atom) used to request and recognize a close notification.
#[derive(Clone, Copy, Debug, PartialEq, Eq, Structural)]
pub struct WindowIdentity {
    /// The native window handle.
    pub window_id: u32,
    /// The atom naming the protocols property; a termination client message
    /// carries it as its message type.
    pub protocols_atom: u32,
    /// The atom naming the delete-window protocol; a termination client
    /// message carries it as its first data word.
    pub delete_window_atom: u32,
}

/// One raw platform event, reduced to the plain values the dispatch loop
/// reads. A raw event is a union over event kinds: `detail`, `event_x` and
/// `event_y` are meaningful for button presses, and `window`,
/// `message_type`, `message_format` and `message_data0` for client
/// messages; the remaining fields of a given kind are conventionally zero.
#[derive(Clone, Copy, Debug, PartialEq, Eq, Structural)]
pub struct RawEvent {
    /// The event kind, with the synthetic-origin bit possibly set.
    pub response_type: u8,
    /// For a button press: the raw button or wheel code.
    pub detail: u8,
    /// For a button press: the event-local x coordinate.
    pub event_x: i16,
    /// For a button press: the event-local y coordinate.
    pub event_y: i16,
    /// For a client message: the destination window.
    pub window: u32,
    /// For a client message: the atom naming the message's protocol.
    pub message_type: u32,
    /// For a client message: the data format in bits per element.
    pub message_format: u8,
    /// For a client message: the first data word.
    pub message_data0: u32,
}

/// The semantic classification of one raw event. Produced by the dispatch
/// loop and consumed immediately; never persisted.
#[derive(Clone, Copy, Debug, PartialEq, Eq, Structural)]
pub enum ClassifiedEvent {
    /// A redraw request: the frame must be rendered and presented.
    Draw,
    /// A recognized pointer-button press at event-local coordinates.
    PointerDown(MouseEvent, i32, i32),
    /// A client message whose protocol atom, format and payload exactly
    /// match the published identity's close notification.
    TerminationRequested,
    /// Anything else, carrying the code that failed classification: an
    /// unknown button code, a client message that is not the close
    /// notification, or an event class the loop does not dispatch. Logged
    /// and dropped; never an error.
    Unrecognized(u8),
}

/// The fixed classification table from raw button codes to semantic
/// pointer-input kinds: codes 1 through 9 map to the nine kinds in order,
/// and every other code maps to nothing.
pub open spec fn spec_button_event(code: u8) -> Option<MouseEvent> {
    if code == 1 {
        Some(MouseEvent::LeftMouseButtonDown)
    } else if code == 2 {
        Some(MouseEvent::MiddleMouseButtonDown)
    } else if code == 3 {
        Some(MouseEvent::RightMouseButtonDown)
    } else if code == 4 {
        Some(MouseEvent::ScrollUp)
    } else if code == 5 {
        Some(MouseEvent::ScrollDown)
    } else if code == 6 {
        Some(MouseEvent::ScrollLeft)
    } else if code == 7 {
        Some(MouseEvent::ScrollRight)
    } else if code == 8 {
        Some(MouseEvent::BackMouseButtonDown)
    } else if code == 9 {
        Some(MouseEvent::ForwardMouseButtonDown)
    } else {
        None
    }
}

/// Maps a raw button code to its semantic pointer-input kind, or to `None`
/// for a code outside the table. Total and deterministic.
pub fn button_event_for_code(code: u8) -> (r: Option<MouseEvent>)
    ensures
        r == spec_button_event(code),
{
    if code == 1 {
        Some(MouseEvent::LeftMouseButtonDown)
    } else if code == 2 {
        Some(MouseEvent::MiddleMouseButtonDown)
    } else if code == 3 {
        Some(MouseEvent::RightMouseButtonDown)
    } else if code == 4 {
        Some(MouseEvent::ScrollUp)
    } else if code == 5 {
        Some(MouseEvent::ScrollDown)
    } else if code == 6 {
        Some(MouseEvent::ScrollLeft)
    } else if code == 7 {
        Some(MouseEvent::ScrollRight)
    } else if code == 8 {
        Some(MouseEvent::BackMouseButtonDown)
    } else if code == 9 {
        Some(MouseEvent::ForwardMouseButtonDown)
    } else {
        None
    }
}

/// Law: the button-code table is total — every code classifies, and it
/// yields a pointer-input kind exactly for the codes 1 through 9.
pub proof fn lemma_button_mapping_total(code: u8)
    ensures
        spec_button_event(code) is Some <==> 1 <= code <= 9,
{
}

/// What one raw event means to the dispatch loop, given the published
/// identity: the synthetic-origin bit is stripped from the event kind; an
/// expose event is a redraw request; a button press with a code in the
/// fixed table is a pointer-input event at the event's own coordinates; a
/// client message is a termination request exactly when its protocol atom,
/// format and first data word all match the identity's close notification;
/// everything else is unrecognized.
pub open spec fn spec_classify(ev: RawEvent, id: WindowIdentity) -> ClassifiedEvent {
    let kind = ev.response_type & RESPONSE_TYPE_MASK;
    if kind == EXPOSE_CODE {
        ClassifiedEvent::Draw
    } else if kind == BUTTON_PRESS_CODE {
        match spec_button_event(ev.detail) {
            Some(m) => ClassifiedEvent::PointerDown(m, ev.event_x as i32, ev.event_y as i32),
            None => ClassifiedEvent::Unrecognized(ev.detail),
        }
    } else if kind == CLIENT_MESSAGE_CODE {
        if ev.message_type == id.protocols_atom && ev.message_format == CLIENT_MESSAGE_WORD_FORMAT
            && ev.message_data0 == id.delete_window_atom {
            ClassifiedEvent::TerminationRequested
        } else {
            ClassifiedEvent::Unrecognized(kind)
        }
    } else {
        ClassifiedEvent::Unrecognized(kind)
    }
}

/// Classifies one raw event against the published identity.
///
/// A client message terminates the loop only on an exact match of protocol
/// atom, format and payload (the strict interpretation): any other message
/// of the protocol class is unrecognized and the loop continues.
pub fn classify(ev: &RawEvent, id: &WindowIdentity) -> (c: ClassifiedEvent)
    ensures
        c == spec_classify(*ev, *id),
{
    let kind = ev.response_type & RESPONSE_TYPE_MASK;
    if kind == EXPOSE_CODE {
        ClassifiedEvent::Draw
    } else if kind == BUTTON_PRESS_CODE {
        match button_event_for_code(ev.detail) {
            Some(m) => ClassifiedEvent::PointerDown(m, ev.event_x as i32, ev.event_y as i32),
            None => ClassifiedEvent::Unrecognized(ev.detail),
        }
    } else if kind == CLIENT_MESSAGE_CODE {
        if ev.message_type == id.protocols_atom && ev.message_format == CLIENT_MESSAGE_WORD_FORMAT
            && ev.message_data0 == id.delete_window_atom {
            ClassifiedEvent::TerminationRequested
        } else {
            ClassifiedEvent::Unrecognized(kind)
        }
    } else {
        ClassifiedEvent::Unrecognized(kind)
    }
}

/// The synthetic close notification addressed to a published identity: a
/// client message to the window, carrying the protocols atom as its type
/// and the delete-window atom as its first data word, in 32-bit format.
pub open spec fn spec_termination_message(id: WindowIdentity) -> RawEvent {
    RawEvent {
        response_type: CLIENT_MESSAGE_CODE,
        detail: 0,
        event_x: 0,
        event_y: 0,
        window: id.window_id,
        message_type: id.protocols_atom,
        message_format: CLIENT_MESSAGE_WORD_FORMAT,
        message_data0: id.delete_window_atom,
    }
}

/// Builds the synthetic close notification for a published identity. The
/// owner thread submits it through the platform's event-injection call and
/// flushes the connection; it is the only mechanism that unblocks the
/// background thread's blocking event wait during teardown.
pub fn termination_message(id: &WindowIdentity) -> (ev: RawEvent)
    ensures
        ev == spec_termination_message(*id),
{
    RawEvent {
        response_type: CLIENT_MESSAGE_CODE,
        detail: 0,
        event_x: 0,
        event_y: 0,
        window: id.window_id,
        message_type: id.protocols_atom,
        message_format: CLIENT_MESSAGE_WORD_FORMAT,
        message_data0: id.delete_window_atom,
    }
}

/// Law: the synthetic close notification is recognized. For every identity,
/// the termination message addressed to it classifies as a termination
/// request — whether it arrives with the synthetic-origin bit set or not —
/// so injecting it reliably ends the dispatch loop it addresses.
pub proof fn lemma_termination_message_recognized(id: WindowIdentity)
    ensures
        spec_classify(spec_termination_message(id), id) == ClassifiedEvent::TerminationRequested,
        spec_classify(
            RawEvent { response_type: CLIENT_MESSAGE_CODE | 0x80, ..spec_termination_message(id) },
            id,
        ) == ClassifiedEvent::TerminationRequested,
{
    lemma_event_kind_mask(CLIENT_MESSAGE_CODE);
    lemma_event_kind_mask(CLIENT_MESSAGE_CODE | 0x80);
    assert(CLIENT_MESSAGE_CODE | 0x80 == 161) by (bit_vector);
}

} // verus!
