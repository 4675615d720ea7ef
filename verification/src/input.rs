//! The input forwarder.
//!
//! UI events aimed at the terminal display are translated here into what
//! the bridge must do: which bytes to write to the PTY's write endpoint,
//! whether to ask the clipboard for a paste, and whether the event counts
//! as consumed. The embedding program performs the write or the clipboard
//! request; every decision is made here.

use vstd::prelude::*;

verus! {

/// History-previous control byte (DLE), written for the up arrow.
pub const HISTORY_PREV: u8 = 0x10;

/// History-next control byte (SO), written for the down arrow.
pub const HISTORY_NEXT: u8 = 0x0E;

/// The keys the forwarder distinguishes.
pub enum KeyPress {
    ArrowUp,
    ArrowDown,
    /// A key carrying a character, as reported by the event system.
    Character(char),
    /// Any other key.
    OtherKey,
}

/// An input event delivered to the terminal display. Event text arrives
/// already encoded as the bytes the event system would hand over.
pub enum InputEvent {
    /// The display gains input focus.
    FocusIn,
    /// A key went down; `ctrl` says whether the control modifier alone
    /// was held, `text` is the event's literal text.
    KeyDown { key: KeyPress, ctrl: bool, text: Vec<u8> },
    /// A key was released.
    KeyUp { key: KeyPress },
    /// The clipboard delivered pasted text.
    PasteDelivered { text: Vec<u8> },
    /// Any other event kind.
    OtherEvent,
}

/// What the bridge must do in reaction to an event.
pub enum ForwardAction {
    /// Write exactly these bytes to the PTY write endpoint.
    WriteBytes(Vec<u8>),
    /// Ask the display's clipboard collaborator to paste.
    RequestPaste,
    /// Nothing to do.
    NoForward,
}

/// A decided event: whether it was consumed, and the action it demands.
pub struct EventDecision {
    pub handled: bool,
    pub action: ForwardAction,
}

/// Decide an input event.
///
/// Focus is always accepted. On key-down the up arrow writes exactly the
/// history-previous byte, the down arrow exactly the history-next byte,
/// control-v asks for a paste, and any other key writes the event's own
/// text; key-down is always consumed. On key-up only the up arrow is
/// consumed. Delivered paste text is written unchanged and consumed.
/// Everything else passes through unhandled.
pub fn decide_event(ev: InputEvent) -> (r: EventDecision)
    ensures
        (ev is FocusIn ==> r.handled && r.action is NoForward),
        (ev matches InputEvent::KeyDown { key, ctrl, text } ==> {
            &&& r.handled
            &&& (key is ArrowUp ==> (r.action matches ForwardAction::WriteBytes(b) && b@ == seq![
                HISTORY_PREV,
            ]))
            &&& (key is ArrowDown ==> (r.action matches ForwardAction::WriteBytes(b) && b@ == seq![
                HISTORY_NEXT,
            ]))
            &&& ((key matches KeyPress::Character(c) && c == 'v' && ctrl)
                ==> r.action is RequestPaste)
            &&& (paste_shortcut_free(key, ctrl) ==> (r.action
                matches ForwardAction::WriteBytes(b) && b@ == text@))
        }),
        (ev matches InputEvent::KeyUp { key } ==> {
            &&& r.handled == key is ArrowUp
            &&& r.action is NoForward
        }),
        (ev matches InputEvent::PasteDelivered { text } ==> (r.handled
            && (r.action matches ForwardAction::WriteBytes(b) && b@ == text@))),
        (ev is OtherEvent ==> !r.handled && r.action is NoForward),
{
    match ev {
        InputEvent::FocusIn => EventDecision { handled: true, action: ForwardAction::NoForward },
        InputEvent::KeyDown { key, ctrl, text } => {
            match key {
                KeyPress::ArrowUp => EventDecision {
                    handled: true,
                    action: ForwardAction::WriteBytes(control_byte(HISTORY_PREV)),
                },
                KeyPress::ArrowDown => EventDecision {
                    handled: true,
                    action: ForwardAction::WriteBytes(control_byte(HISTORY_NEXT)),
                },
                KeyPress::Character(c) => {
                    if c == 'v' && ctrl {
                        EventDecision { handled: true, action: ForwardAction::RequestPaste }
                    } else {
                        EventDecision { handled: true, action: ForwardAction::WriteBytes(text) }
                    }
                },
                KeyPress::OtherKey => EventDecision {
                    handled: true,
                    action: ForwardAction::WriteBytes(text),
                },
            }
        },
        InputEvent::KeyUp { key } => {
            match key {
                KeyPress::ArrowUp => EventDecision {
                    handled: true,
                    action: ForwardAction::NoForward,
                },
                _ => EventDecision { handled: false, action: ForwardAction::NoForward },
            }
        },
        InputEvent::PasteDelivered { text } => EventDecision {
            handled: true,
            action: ForwardAction::WriteBytes(text),
        },
        InputEvent::OtherEvent => EventDecision {
            handled: false,
            action: ForwardAction::NoForward,
        },
    }
}

/// A key-down that is neither an arrow key nor the paste shortcut: its
/// own text is forwarded.
pub open spec fn paste_shortcut_free(key: KeyPress, ctrl: bool) -> bool {
    match key {
        KeyPress::ArrowUp => false,
        KeyPress::ArrowDown => false,
        KeyPress::Character(c) => !(c == 'v' && ctrl),
        KeyPress::OtherKey => true,
    }
}

/// A one-byte vector holding `b`.
fn control_byte(b: u8) -> (r: Vec<u8>)
    ensures
        r@ == seq![b],
{
    let mut r: Vec<u8> = Vec::new();
    r.push(b);
    proof {
        assert(r@ =~= seq![b]);
    }
    r
}

} // verus!
