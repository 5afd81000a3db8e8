//! Window event dispatch and fixed-step frame pacing.
//!
//! The window, its GPU context and the event queue live in the embedding;
//! the decisions — what each event does to the input listeners, whether the
//! window should close, and how many 60 Hz update steps a frame owes — live
//! here.

use vstd::prelude::*;

use crate::game::key_listener::spec_handle_key;
use crate::game::key_listener::KeyAction;
use crate::game::key_listener::KeyListener;
use crate::game::key_listener::KEY_COUNT;
use crate::game::mouse_listener::MouseListener;
use crate::fixed::Vec2Fx;

verus! {

/// The physical key code of the escape key.
pub const KEY_ESCAPE: usize = 256;

/// The fixed update rate, in steps per second.
pub const UPDATES_PER_SECOND: u64 = 60;

/// A window event, as the embedding reports it: a key event, a cursor
/// position sample in fixed-point window pixels, or anything else.
#[derive(Clone, Copy, PartialEq, Eq, Structural, Debug)]
pub enum WindowEventKind {
    Key { key: usize, action: KeyAction },
    CursorPos { x: i64, y: i64 },
    Other,
}

/// What one window event does: pressing escape asks the window to close;
/// any other key event is recorded in the key table; a cursor sample is
/// recorded in the mouse listener; anything else is ignored.
pub open spec fn spec_handle_window_event(
    event: WindowEventKind,
    keys: Seq<bool>,
    mouse: MouseListener,
) -> (bool, Seq<bool>, MouseListener) {
    match event {
        WindowEventKind::Key { key, action } => {
            if key == KEY_ESCAPE && action is Press {
                (true, keys, mouse)
            } else {
                (false, spec_handle_key(keys, key as int, action), mouse)
            }
        },
        WindowEventKind::CursorPos { x, y } => {
            (
                false,
                keys,
                MouseListener { mouse_position: Vec2Fx { x, y }, prev_mouse_position: mouse.mouse_position },
            )
        },
        WindowEventKind::Other => (false, keys, mouse),
    }
}

/// Dispatch one window event to the input listeners. Returns whether the
/// window should close.
pub fn handle_window_event(
    event: WindowEventKind,
    key_listener: &mut KeyListener,
    mouse_listener: &mut MouseListener,
) -> (should_close: bool)
    requires
        old(key_listener).wf(),
        event matches WindowEventKind::Key { key, .. } ==> key < KEY_COUNT,
    ensures
        final(key_listener).wf(),
        ({
            let (close, keys, mouse) = spec_handle_window_event(
                event,
                old(key_listener)@,
                *old(mouse_listener),
            );
            &&& should_close == close
            &&& final(key_listener)@ == keys
            &&& *final(mouse_listener) == mouse
        }),
{
    match event {
        WindowEventKind::Key { key, action } => {
            if key == KEY_ESCAPE && matches!(action, KeyAction::Press) {
                true
            } else {
                key_listener.handle_key_callback(key, action);
                false
            }
        },
        WindowEventKind::CursorPos { x, y } => {
            mouse_listener.mouse_pos_callback(x, y);
            false
        },
        WindowEventKind::Other => false,
    }
}

/// How many whole 60 Hz update steps fit in a frame's elapsed wall-clock
/// time; the fractional remainder is discarded, frame by frame.
pub fn fixed_update_count(delta_time_micros: u64) -> (r: u64)
    requires
        delta_time_micros <= u64::MAX / UPDATES_PER_SECOND,
    ensures
        r == delta_time_micros * UPDATES_PER_SECOND / 1_000_000,
{
    delta_time_micros * UPDATES_PER_SECOND / 1_000_000
}

} // verus!
