use vstd::prelude::*;

verus! {

/// The keys that the harness gives a meaning of its own.
#[derive(Clone, Copy, Debug, PartialEq, Eq, Structural)]
pub enum KeyCode {
    Escape,
    F11,
    Other,
}

/// Whether a key went down or came up.
#[derive(Clone, Copy, Debug, PartialEq, Eq, Structural)]
pub enum KeyState {
    Pressed,
    Released,
}

/// What the presentation loop reads of a native window event.
#[derive(Clone, Copy, Debug, PartialEq, Eq, Structural)]
pub enum NativeEvent {
    /// The user asked to close the window.
    CloseRequested,
    /// A keyboard key changed state; `key` is `None` when the platform
    /// reported no virtual key code.
    Keyboard { key: Option<KeyCode>, state: KeyState },
    /// Anything else (pointer motion, resize, focus, device noise).
    Other,
}

/// The side classification of one native event.
#[derive(Clone, Copy, Debug, PartialEq, Eq, Structural)]
pub struct Classification {
    /// The presentation loop must stop after this iteration.
    pub terminate: bool,
    /// The window must switch between windowed and fullscreen mode.
    pub toggle_fullscreen: bool,
}

/// Closing the window, or pressing Escape, ends the session.
pub open spec fn terminates(ev: NativeEvent) -> bool {
    match ev {
        NativeEvent::CloseRequested => true,
        NativeEvent::Keyboard { key, state } => key == Some(KeyCode::Escape) && state
            == KeyState::Pressed,
        NativeEvent::Other => false,
    }
}

/// Pressing F11 (not releasing it) toggles fullscreen mode.
pub open spec fn toggles_fullscreen(ev: NativeEvent) -> bool {
    match ev {
        NativeEvent::Keyboard { key, state } => key == Some(KeyCode::F11) && state
            == KeyState::Pressed,
        _ => false,
    }
}

/// Classifies a native event by the fixed key bindings of the harness.
pub fn classify(ev: &NativeEvent) -> (r: Classification)
    ensures
        r.terminate == terminates(*ev),
        r.toggle_fullscreen == toggles_fullscreen(*ev),
{
    match ev {
        NativeEvent::CloseRequested => Classification { terminate: true, toggle_fullscreen: false },
        NativeEvent::Keyboard { key, state } => {
            let pressed = match state {
                KeyState::Pressed => true,
                KeyState::Released => false,
            };
            match key {
                Some(KeyCode::Escape) => Classification {
                    terminate: pressed,
                    toggle_fullscreen: false,
                },
                Some(KeyCode::F11) => Classification { terminate: false, toggle_fullscreen: pressed },
                _ => Classification { terminate: false, toggle_fullscreen: false },
            }
        },
        NativeEvent::Other => Classification { terminate: false, toggle_fullscreen: false },
    }
}

} // verus!
