//! Keeping the overlay's state current: reloading a changed configuration
//! file, and bringing the drawn state up to date with the shared one.

use vstd::prelude::*;
use crate::config::Config;
use crate::websocket::AppState;

verus! {

/// Whether a file-system event asks for the configuration to be read
/// again: it modifies a file, and one of the files is `config.json`.
pub fn config_event_relevant(is_modify: bool, touches_config: bool) -> (r: bool)
    ensures
        r == (is_modify && touches_config),
{
    is_modify && touches_config
}

/// Applies a file-system event: a relevant event whose reload succeeded
/// replaces the configuration and asks for a redraw; anything else changes
/// nothing (a failed reload keeps the configuration in force).
pub fn config_reload_step(state: &mut AppState, is_modify: bool, touches_config: bool, reloaded: Option<Config>) -> (redraw: bool)
    ensures
        redraw == (is_modify && touches_config && reloaded is Some),
        redraw ==> (reloaded matches Some(c) && final(state).config == c),
        !redraw ==> final(state).config == old(state).config,
        final(state).voice_users == old(state).voice_users,
        final(state).current_channel == old(state).current_channel,
        final(state).user_id == old(state).user_id,
        final(state).is_censor == old(state).is_censor,
        final(state).is_open == old(state).is_open,
{
    if !config_event_relevant(is_modify, touches_config) {
        return false;
    }
    match reloaded {
        Some(c) => {
            state.config = c;
            true
        },
        None => false,
    }
}

/// Brings the drawn state up to date with a copy of the shared one: every
/// field is taken from the copy except whether the overlay is open, which
/// only the drawing side decides.
pub fn sync_from_shared(local: &mut AppState, synced: AppState)
    ensures
        final(local).voice_users == synced.voice_users,
        final(local).current_channel == synced.current_channel,
        final(local).user_id == synced.user_id,
        final(local).is_censor == synced.is_censor,
        final(local).config == synced.config,
        final(local).is_open == old(local).is_open,
{
    let is_open = local.is_open;
    *local = AppState { is_open, ..synced };
}

} // verus!
