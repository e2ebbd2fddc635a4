//! Opening and closing the overlay in response to key bindings, and finding
//! the local user among the members.

use vstd::prelude::*;
use crate::keys::KeyEvent;
use crate::websocket::{find_user, index_of_id, users_view, AppState};

verus! {

/// What the caller has to do after a key event.
#[derive(Debug, Clone, Copy, PartialEq, Eq, Structural)]
pub enum KeyAction {
    Nothing,
    OpenConfigurator,
    Quit,
}

/// Whether the overlay is open after a key event.
pub open spec fn open_after(is_open: bool, event: KeyEvent) -> bool {
    match event {
        KeyEvent::ToggleOverlay => !is_open,
        KeyEvent::CloseOverlay => false,
        KeyEvent::OpenConfigurator => false,
        KeyEvent::Quit => is_open,
    }
}

/// What a key event asks of the caller.
pub open spec fn action_of(is_open: bool, event: KeyEvent) -> KeyAction {
    match event {
        KeyEvent::OpenConfigurator => if is_open {
            KeyAction::OpenConfigurator
        } else {
            KeyAction::Nothing
        },
        KeyEvent::Quit => KeyAction::Quit,
        _ => KeyAction::Nothing,
    }
}

/// Applies a key event: the toggle flips the overlay, Escape closes it, the
/// configurator opens (and the overlay closes) only from an open overlay,
/// and quitting is left to the caller.
pub fn handle_key_event(state: &mut AppState, event: KeyEvent) -> (r: KeyAction)
    ensures
        final(state).is_open == open_after(old(state).is_open, event),
        r == action_of(old(state).is_open, event),
        final(state).voice_users == old(state).voice_users,
        final(state).current_channel == old(state).current_channel,
        final(state).user_id == old(state).user_id,
        final(state).is_censor == old(state).is_censor,
        final(state).config == old(state).config,
{
    match event {
        KeyEvent::ToggleOverlay => {
            state.is_open = !state.is_open;
            KeyAction::Nothing
        },
        KeyEvent::CloseOverlay => {
            state.is_open = false;
            KeyAction::Nothing
        },
        KeyEvent::OpenConfigurator => {
            if state.is_open {
                state.is_open = false;
                KeyAction::OpenConfigurator
            } else {
                KeyAction::Nothing
            }
        },
        KeyEvent::Quit => KeyAction::Quit,
    }
}

/// Toggling the overlay twice leaves it as it was.
pub proof fn toggle_twice_restores(is_open: bool)
    ensures
        open_after(open_after(is_open, KeyEvent::ToggleOverlay), KeyEvent::ToggleOverlay) == is_open,
{
}

/// After any key event other than the toggle and quitting, the overlay is
/// closed.
pub proof fn close_events_close(is_open: bool, event: KeyEvent)
    requires
        event == KeyEvent::CloseOverlay || event == KeyEvent::OpenConfigurator,
    ensures
        !open_after(is_open, event),
{
}

/// The position of the local user among the members, if present.
pub fn current_user(state: &AppState) -> (r: Option<usize>)
    ensures
        match r {
            Some(i) => i == index_of_id(users_view(state.voice_users@), state.user_id@) && i < state.voice_users@.len(),
            None => index_of_id(users_view(state.voice_users@), state.user_id@) == state.voice_users@.len(),
        },
{
    let i = find_user(&state.voice_users, &state.user_id);
    if i < state.voice_users.len() {
        Some(i)
    } else {
        None
    }
}

} // verus!
