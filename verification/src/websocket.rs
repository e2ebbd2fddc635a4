//! The bridge protocol: how each command from the bridge plugin changes the
//! overlay's state, and what the caller has to do afterwards (redraw, show a
//! notification).

use vstd::prelude::*;
use vstd::string::*;
use crate::config::Config;
use crate::payloads::{ChannelJoinPayload, Notification, NotificationPayload, UpdatePayload, WsVoiceState};
use crate::text::{replace, replace_all, str_eq};
use crate::user::{string_or, user_from_ws, view_or, voice_state_from_ws, User, UserView, UserVoiceState};

verus! {

/// What the overlay knows about the voice channel and the local user.
#[derive(Debug, Clone)]
pub struct AppState {
    pub voice_users: Vec<User>,
    pub current_channel: String,
    pub user_id: String,
    pub is_censor: bool,
    pub is_open: bool,
    pub config: Config,
}

/// The contents of a list of members.
pub open spec fn users_view(v: Seq<User>) -> Seq<UserView> {
    v.map_values(|u: User| u@)
}

/// The commands of the bridge protocol, by name.
#[derive(Debug, Clone, Copy, PartialEq, Eq, Structural)]
pub enum WsCommandKind {
    RegisterConfig,
    ChannelJoined,
    VoiceStateUpdate,
    ChannelLeft,
    MessageNotification,
    StreamerMode,
    Unknown,
}

/// The command that a `cmd` field names.
pub open spec fn command_kind_of(cmd: Seq<char>) -> WsCommandKind {
    if cmd == "REGISTER_CONFIG"@ {
        WsCommandKind::RegisterConfig
    } else if cmd == "CHANNEL_JOINED"@ {
        WsCommandKind::ChannelJoined
    } else if cmd == "VOICE_STATE_UPDATE"@ {
        WsCommandKind::VoiceStateUpdate
    } else if cmd == "CHANNEL_LEFT"@ {
        WsCommandKind::ChannelLeft
    } else if cmd == "MESSAGE_NOTIFICATION"@ {
        WsCommandKind::MessageNotification
    } else if cmd == "STREAMER_MODE"@ {
        WsCommandKind::StreamerMode
    } else {
        WsCommandKind::Unknown
    }
}

/// Which command a `cmd` field names, so that the caller knows how to read
/// the message's data.
pub fn command_kind(cmd: &str) -> (r: WsCommandKind)
    ensures
        r == command_kind_of(cmd@),
{
    if str_eq(cmd, "REGISTER_CONFIG") {
        WsCommandKind::RegisterConfig
    } else if str_eq(cmd, "CHANNEL_JOINED") {
        WsCommandKind::ChannelJoined
    } else if str_eq(cmd, "VOICE_STATE_UPDATE") {
        WsCommandKind::VoiceStateUpdate
    } else if str_eq(cmd, "CHANNEL_LEFT") {
        WsCommandKind::ChannelLeft
    } else if str_eq(cmd, "MESSAGE_NOTIFICATION") {
        WsCommandKind::MessageNotification
    } else if str_eq(cmd, "STREAMER_MODE") {
        WsCommandKind::StreamerMode
    } else {
        WsCommandKind::Unknown
    }
}

/// A bridge message with its data read.
#[derive(Debug)]
pub enum WsCommand {
    /// `userId` as a string, if it is one; `port` as an unsigned number, if it is one.
    RegisterConfig { user_id: Option<String>, port: Option<u64> },
    ChannelJoined(ChannelJoinPayload),
    /// `channel_is_null`: the state's `channelId` is present and `null`.
    VoiceStateUpdate { payload: UpdatePayload, channel_is_null: bool },
    ChannelLeft,
    MessageNotification(NotificationPayload),
    /// `enabled` as a boolean, if it is one.
    StreamerMode { enabled: Option<bool> },
    Unknown,
}

/// What the caller has to do after a command.
#[derive(Debug)]
pub struct WsOutcome {
    /// Whether the overlay has to be redrawn.
    pub redraw: bool,
    /// A notification to show.
    pub notification: Option<Notification>,
}

/// The configuration with the port that the bridge registered; a port is
/// taken modulo 2^16.
pub open spec fn config_with_port(c: Config, port: Option<u64>) -> Config {
    match port {
        Some(p) => Config { port: Some((p % 65536) as u16), ..c },
        None => c,
    }
}

/// The channel of the local user after joining: the channel (or `"0"`) of
/// the last state that belongs to the local user, else the one before.
pub open spec fn joined_channel(states: Seq<WsVoiceState>, user_id: Seq<char>, current: Seq<char>) -> Seq<char>
    decreases states.len(),
{
    if states.len() == 0 {
        current
    } else if states.last().user_id@ == user_id {
        view_or(states.last().channel_id, "0"@)
    } else {
        joined_channel(states.drop_last(), user_id, current)
    }
}

/// The position of the first member with the given id, or the length of
/// the list where there is none.
pub open spec fn index_of_id(users: Seq<UserView>, id: Seq<char>) -> int
    decreases users.len(),
{
    if users.len() == 0 {
        0
    } else if users[0].id == id {
        0
    } else {
        1 + index_of_id(users.drop_first(), id)
    }
}

/// Whether an update takes its member out of the list: the member is in
/// another channel, or its channel is explicitly null.
pub open spec fn is_removal(current: Seq<char>, s: WsVoiceState, channel_is_null: bool) -> bool {
    match s.channel_id {
        Some(c) => c@ != current,
        None => channel_is_null,
    }
}

/// A member after an update: the new voice state, and the streaming and
/// camera flags where the update gives them.
pub open spec fn updated_user(u: UserView, s: WsVoiceState) -> UserView {
    UserView {
        voice_state: voice_state_from_ws(s),
        streaming: match s.streaming {
            Some(b) => b,
            None => u.streaming,
        },
        camera: match s.camera {
            Some(b) => b,
            None => u.camera,
        },
        ..u
    }
}

/// The members after an update.
pub open spec fn users_after_update(users: Seq<UserView>, current: Seq<char>, s: WsVoiceState, channel_is_null: bool) -> Seq<UserView> {
    if is_removal(current, s, channel_is_null) {
        users.filter(|u: UserView| u.id != s.user_id@)
    } else {
        let i = index_of_id(users, s.user_id@);
        if i < users.len() {
            users.update(i, updated_user(users[i], s))
        } else {
            users.push(user_from_ws(s))
        }
    }
}

/// Whether the overlay's open flag and the configuration are unchanged.
pub open spec fn same_settings(a: AppState, b: AppState) -> bool {
    &&& a.is_open == b.is_open
    &&& a.config == b.config
}

/// How a command changes the state, and what it asks of the caller.
pub open spec fn ws_transition(old: AppState, new: AppState, msg: WsCommand, now: i64, out: WsOutcome) -> bool {
    match msg {
        WsCommand::RegisterConfig { user_id, port } => {
            &&& new.user_id@ == view_or(user_id, Seq::empty())
            &&& new.config == config_with_port(old.config, port)
            &&& users_view(new.voice_users@) == users_view(old.voice_users@)
            &&& new.current_channel@ == old.current_channel@
            &&& new.is_censor == old.is_censor
            &&& new.is_open == old.is_open
            &&& out.redraw
            &&& out.notification is None
        },
        WsCommand::ChannelJoined(data) => {
            &&& users_view(new.voice_users@) == data.states@.map_values(|s: WsVoiceState| user_from_ws(s))
            &&& new.current_channel@ == joined_channel(data.states@, old.user_id@, old.current_channel@)
            &&& new.user_id@ == old.user_id@
            &&& new.is_censor == old.is_censor
            &&& same_settings(old, new)
            &&& out.redraw
            &&& out.notification is None
        },
        WsCommand::VoiceStateUpdate { payload, channel_is_null } => {
            &&& users_view(new.voice_users@) == users_after_update(
                users_view(old.voice_users@),
                old.current_channel@,
                payload.state,
                channel_is_null,
            )
            &&& new.current_channel@ == old.current_channel@
            &&& new.user_id@ == old.user_id@
            &&& new.is_censor == old.is_censor
            &&& same_settings(old, new)
            &&& out.redraw
            &&& out.notification is None
        },
        WsCommand::ChannelLeft => {
            &&& new.voice_users@.len() == 0
            &&& new.current_channel@.len() == 0
            &&& new.user_id@ == old.user_id@
            &&& new.is_censor == old.is_censor
            &&& same_settings(old, new)
            &&& out.redraw
            &&& out.notification is None
        },
        WsCommand::MessageNotification(data) => {
            &&& users_view(new.voice_users@) == users_view(old.voice_users@)
            &&& new.current_channel@ == old.current_channel@
            &&& new.user_id@ == old.user_id@
            &&& new.is_censor == old.is_censor
            &&& same_settings(old, new)
            &&& out.redraw
            &&& out.notification matches Some(n) && {
                &&& n.icon@ == replace_all(data.message.icon@, ".webp"@, ".png"@)
                &&& n.timestamp == Some(now)
                &&& n.title == data.message.title
                &&& n.body == data.message.body
                &&& n.timeout_secs == data.message.timeout_secs
                &&& n.guild_id == data.message.guild_id
                &&& n.channel_id == data.message.channel_id
                &&& n.message_id == data.message.message_id
            }
        },
        WsCommand::StreamerMode { enabled } => {
            &&& new.is_censor == (enabled == Some(true))
            &&& users_view(new.voice_users@) == users_view(old.voice_users@)
            &&& new.current_channel@ == old.current_channel@
            &&& new.user_id@ == old.user_id@
            &&& same_settings(old, new)
            &&& out.redraw
            &&& out.notification is None
        },
        WsCommand::Unknown => {
            &&& users_view(new.voice_users@) == users_view(old.voice_users@)
            &&& new.current_channel@ == old.current_channel@
            &&& new.user_id@ == old.user_id@
            &&& new.is_censor == old.is_censor
            &&& same_settings(old, new)
            &&& !out.redraw
            &&& out.notification is None
        },
    }
}

proof fn lemma_index_of_id(users: Seq<UserView>, id: Seq<char>, k: int)
    requires
        0 <= k <= users.len(),
        forall|j: int| 0 <= j < k ==> (#[trigger] users[j]).id != id,
        k == users.len() || users[k].id == id,
    ensures
        index_of_id(users, id) == k,
    decreases k,
{
    if k > 0 {
        let t = users.drop_first();
        assert forall|j: int| 0 <= j < k - 1 implies (#[trigger] t[j]).id != id by {
            assert(t[j] == users[j + 1]);
        }
        lemma_index_of_id(t, id, k - 1);
    }
}

/// A copy of a member.
pub fn clone_user(u: &User) -> (r: User)
    ensures
        r@ == u@,
{
    User {
        name: u.name.clone(),
        id: u.id.clone(),
        avatar: u.avatar.clone(),
        voice_state: u.voice_state,
        streaming: u.streaming,
        camera: u.camera,
        volume_bits: u.volume_bits,
    }
}

/// The position of the first member with the given id, or the length of the
/// list where there is none.
pub fn find_user(users: &Vec<User>, id: &String) -> (r: usize)
    ensures
        r == index_of_id(users_view(users@), id@),
        r <= users@.len(),
{
    let ghost uv = users_view(users@);
    let mut i: usize = 0;
    while i < users.len()
        invariant
            uv == users_view(users@),
            i <= users@.len(),
            forall|j: int| 0 <= j < i ==> (#[trigger] uv[j]).id != id@,
        decreases users.len() - i,
    {
        if users[i].id == *id {
            proof {
                lemma_index_of_id(uv, id@, i as int);
            }
            return i;
        }
        i = i + 1;
    }
    proof {
        lemma_index_of_id(uv, id@, i as int);
    }
    i
}

/// The members without those that have the given id.
pub fn without_user(users: &Vec<User>, id: &String) -> (r: Vec<User>)
    ensures
        users_view(r@) == users_view(users@).filter(|u: UserView| u.id != id@),
{
    let ghost pred = |u: UserView| u.id != id@;
    let mut r: Vec<User> = Vec::new();
    let mut i: usize = 0;
    proof {
        reveal(Seq::filter);
        assert(users_view(users@).take(0) =~= Seq::<UserView>::empty());
        assert(users_view(r@) =~= Seq::<UserView>::empty());
    }
    while i < users.len()
        invariant
            i <= users@.len(),
            pred == (|u: UserView| u.id != id@),
            users_view(r@) == users_view(users@).take(i as int).filter(pred),
        decreases users.len() - i,
    {
        let ghost before = users_view(r@);
        let ghost prefix = users_view(users@).take(i as int);
        if users[i].id != *id {
            r.push(clone_user(&users[i]));
        }
        proof {
            let next = users_view(users@).take(i + 1);
            assert(next.drop_last() =~= prefix);
            assert(next.last() == users@[i as int]@);
            reveal(Seq::filter);
            if pred(users@[i as int]@) {
                assert(users_view(r@) =~= before.push(users@[i as int]@));
            } else {
                assert(users_view(r@) =~= before);
            }
        }
        i = i + 1;
    }
    assert(users_view(users@).take(users@.len() as int) =~= users_view(users@));
    r
}

fn register_config(state: &mut AppState, user_id: Option<String>, port: Option<u64>)
    ensures
        final(state).user_id@ == view_or(user_id, Seq::empty()),
        final(state).config == config_with_port(old(state).config, port),
        final(state).voice_users == old(state).voice_users,
        final(state).current_channel == old(state).current_channel,
        final(state).is_censor == old(state).is_censor,
        final(state).is_open == old(state).is_open,
{
    proof {
        reveal_strlit("");
        assert(""@ =~= Seq::<char>::empty());
    }
    if let Some(p) = port {
        state.config.port = Some((p % 65536) as u16);
    }
    state.user_id = string_or(&user_id, "");
}

fn channel_joined(state: &mut AppState, data: &ChannelJoinPayload)
    ensures
        users_view(final(state).voice_users@) == data.states@.map_values(|s: WsVoiceState| user_from_ws(s)),
        final(state).current_channel@ == joined_channel(data.states@, old(state).user_id@, old(state).current_channel@),
        final(state).user_id == old(state).user_id,
        final(state).is_censor == old(state).is_censor,
        final(state).is_open == old(state).is_open,
        final(state).config == old(state).config,
{
    let states = &data.states;
    let mut users: Vec<User> = Vec::new();
    let mut chan = state.current_channel.clone();
    let mut i: usize = 0;
    while i < states.len()
        invariant
            i <= states@.len(),
            users_view(users@) == states@.take(i as int).map_values(|s: WsVoiceState| user_from_ws(s)),
            chan@ == joined_channel(states@.take(i as int), state.user_id@, state.current_channel@),
        decreases states.len() - i,
    {
        let s = &states[i];
        let ghost before = users@;
        users.push(User::from_ws(s));
        if s.user_id == state.user_id {
            chan = string_or(&s.channel_id, "0");
        }
        proof {
            let next = states@.take(i + 1);
            assert(next.drop_last() =~= states@.take(i as int));
            assert(next.last() == states@[i as int]);
            assert(users_view(users@) =~= users_view(before).push(user_from_ws(*s)));
            assert(next.map_values(|s: WsVoiceState| user_from_ws(s)) =~= states@.take(i as int).map_values(|s: WsVoiceState| user_from_ws(s)).push(user_from_ws(*s)));
            assert(users_view(users@) =~= next.map_values(|s: WsVoiceState| user_from_ws(s)));
        }
        i = i + 1;
    }
    assert(states@.take(states@.len() as int) =~= states@);
    state.voice_users = users;
    state.current_channel = chan;
}

fn voice_state_update(state: &mut AppState, payload: UpdatePayload, channel_is_null: bool)
    ensures
        users_view(final(state).voice_users@) == users_after_update(
            users_view(old(state).voice_users@),
            old(state).current_channel@,
            payload.state,
            channel_is_null,
        ),
        final(state).current_channel == old(state).current_channel,
        final(state).user_id == old(state).user_id,
        final(state).is_censor == old(state).is_censor,
        final(state).is_open == old(state).is_open,
        final(state).config == old(state).config,
{
    let s = payload.state;
    let remove = match &s.channel_id {
        Some(c) => !(*c == state.current_channel),
        None => channel_is_null,
    };
    if remove {
        state.voice_users = without_user(&state.voice_users, &s.user_id);
    } else {
        let i = find_user(&state.voice_users, &s.user_id);
        if i < state.voice_users.len() {
            let old_user = &state.voice_users[i];
            let nu = User {
                name: old_user.name.clone(),
                id: old_user.id.clone(),
                avatar: old_user.avatar.clone(),
                voice_state: UserVoiceState::from_ws(&s),
                streaming: match s.streaming {
                    Some(b) => b,
                    None => old_user.streaming,
                },
                camera: match s.camera {
                    Some(b) => b,
                    None => old_user.camera,
                },
                volume_bits: old_user.volume_bits,
            };
            let ghost before = state.voice_users@;
            let _ = state.voice_users.remove(i);
            state.voice_users.insert(i, nu);
            assert(users_view(state.voice_users@) =~= users_view(before).update(i as int, nu@));
        } else {
            let ghost before = state.voice_users@;
            state.voice_users.push(User::from_ws(&s));
            assert(users_view(state.voice_users@) =~= users_view(before).push(user_from_ws(s)));
        }
    }
}

fn received_notification(data: NotificationPayload, now: i64) -> (n: Notification)
    ensures
        n.icon@ == replace_all(data.message.icon@, ".webp"@, ".png"@),
        n.timestamp == Some(now),
        n.title == data.message.title,
        n.body == data.message.body,
        n.timeout_secs == data.message.timeout_secs,
        n.guild_id == data.message.guild_id,
        n.channel_id == data.message.channel_id,
        n.message_id == data.message.message_id,
{
    proof {
        reveal_strlit(".webp");
        assert(".webp"@.len() == 5);
    }
    let m = data.message;
    let icon = replace(m.icon.as_str(), ".webp", ".png");
    Notification {
        title: m.title,
        body: m.body,
        icon,
        timestamp: Some(now),
        timeout_secs: m.timeout_secs,
        guild_id: m.guild_id,
        channel_id: m.channel_id,
        message_id: m.message_id,
    }
}

/// Applies a bridge command to the state. `now` is the current time in
/// seconds, which a received notification is stamped with.
pub fn handle_ws_message(state: &mut AppState, msg: WsCommand, now: i64) -> (out: WsOutcome)
    ensures
        ws_transition(*old(state), *final(state), msg, now, out),
{
    match msg {
        WsCommand::RegisterConfig { user_id, port } => {
            register_config(state, user_id, port);
            WsOutcome { redraw: true, notification: None }
        },
        WsCommand::ChannelJoined(data) => {
            channel_joined(state, &data);
            WsOutcome { redraw: true, notification: None }
        },
        WsCommand::VoiceStateUpdate { payload, channel_is_null } => {
            voice_state_update(state, payload, channel_is_null);
            WsOutcome { redraw: true, notification: None }
        },
        WsCommand::ChannelLeft => {
            state.voice_users = Vec::new();
            state.current_channel = String::new();
            WsOutcome { redraw: true, notification: None }
        },
        WsCommand::MessageNotification(data) => {
            let n = received_notification(data, now);
            WsOutcome { redraw: true, notification: Some(n) }
        },
        WsCommand::StreamerMode { enabled } => {
            state.is_censor = match enabled {
                Some(b) => b,
                None => false,
            };
            WsOutcome { redraw: true, notification: None }
        },
        WsCommand::Unknown => WsOutcome { redraw: false, notification: None },
    }
}

/// The bridge connection closed: nobody is shown in the voice section any
/// more. The overlay has to be redrawn.
pub fn handle_stream_closed(state: &mut AppState) -> (redraw: bool)
    ensures
        final(state).voice_users@.len() == 0,
        final(state).current_channel == old(state).current_channel,
        final(state).user_id == old(state).user_id,
        final(state).is_censor == old(state).is_censor,
        final(state).is_open == old(state).is_open,
        final(state).config == old(state).config,
        redraw,
{
    state.voice_users = Vec::new();
    true
}

proof fn lemma_index_of_id_bounds(users: Seq<UserView>, id: Seq<char>)
    ensures
        0 <= index_of_id(users, id) <= users.len(),
        index_of_id(users, id) < users.len() ==> users[index_of_id(users, id)].id == id,
        forall|j: int| 0 <= j < index_of_id(users, id) ==> (#[trigger] users[j]).id != id,
    decreases users.len(),
{
    if users.len() > 0 && users[0].id != id {
        let t = users.drop_first();
        lemma_index_of_id_bounds(t, id);
        assert forall|j: int| 0 <= j < index_of_id(users, id) implies (#[trigger] users[j]).id != id by {
            if j > 0 {
                assert(users[j] == t[j - 1]);
            }
        }
    }
}

/// An update that moves a member out of the channel leaves nobody with that
/// member's id in the list.
pub proof fn removal_leaves_no_member(users: Seq<UserView>, current: Seq<char>, s: WsVoiceState, channel_is_null: bool)
    requires
        is_removal(current, s, channel_is_null),
    ensures
        forall|i: int| 0 <= i < users_after_update(users, current, s, channel_is_null).len()
            ==> (#[trigger] users_after_update(users, current, s, channel_is_null)[i]).id != s.user_id@,
{
    let pred = |u: UserView| u.id != s.user_id@;
    assert forall|i: int| 0 <= i < users.filter(pred).len() implies (#[trigger] users.filter(pred)[i]).id != s.user_id@ by {
        users.lemma_filter_pred(pred, i);
    }
}

/// An update that keeps its member in the channel leaves that member listed:
/// the first entry with its id has the reported voice state, and the list
/// grows by at most one.
pub proof fn update_shows_member(users: Seq<UserView>, current: Seq<char>, s: WsVoiceState, channel_is_null: bool)
    requires
        !is_removal(current, s, channel_is_null),
    ensures
        ({
            let after = users_after_update(users, current, s, channel_is_null);
            let i = index_of_id(after, s.user_id@);
            &&& i < after.len()
            &&& after[i].voice_state == voice_state_from_ws(s)
            &&& after.len() == users.len() || after.len() == users.len() + 1
        }),
{
    lemma_index_of_id_bounds(users, s.user_id@);
    let k = index_of_id(users, s.user_id@);
    let after = users_after_update(users, current, s, channel_is_null);
    if k < users.len() {
        assert forall|j: int| 0 <= j < k implies (#[trigger] after[j]).id != s.user_id@ by {
            assert(after[j] == users[j]);
        }
        lemma_index_of_id(after, s.user_id@, k);
    } else {
        assert forall|j: int| 0 <= j < k implies (#[trigger] after[j]).id != s.user_id@ by {
            assert(after[j] == users[j]);
        }
        lemma_index_of_id(after, s.user_id@, k);
    }
}

/// Receiving the same voice-state update twice has the effect of receiving
/// it once.
pub proof fn voice_state_update_idempotent(users: Seq<UserView>, current: Seq<char>, s: WsVoiceState, channel_is_null: bool)
    ensures
        users_after_update(users_after_update(users, current, s, channel_is_null), current, s, channel_is_null)
            == users_after_update(users, current, s, channel_is_null),
{
    let after = users_after_update(users, current, s, channel_is_null);
    if is_removal(current, s, channel_is_null) {
        let pred = |u: UserView| u.id != s.user_id@;
        assert(after == users.filter(pred));
        assert forall|i: int| 0 <= i < after.len() implies pred(#[trigger] after[i]) by {
            users.lemma_filter_pred(pred, i);
        }
        lemma_filter_identity(after, pred);
    } else {
        update_shows_member(users, current, s, channel_is_null);
        lemma_index_of_id_bounds(users, s.user_id@);
        let k = index_of_id(users, s.user_id@);
        if k < users.len() {
            assert forall|j: int| 0 <= j < k implies (#[trigger] after[j]).id != s.user_id@ by {
                assert(after[j] == users[j]);
            }
            lemma_index_of_id(after, s.user_id@, k);
            assert(users_after_update(after, current, s, channel_is_null) =~= after);
        } else {
            assert forall|j: int| 0 <= j < k implies (#[trigger] after[j]).id != s.user_id@ by {
                assert(after[j] == users[j]);
            }
            lemma_index_of_id(after, s.user_id@, k);
            assert(users_after_update(after, current, s, channel_is_null) =~= after);
        }
    }
}

/// An update that keeps a listed member in the channel sets, on the first
/// entry with that member's id, exactly the streaming and camera flags it
/// carries (an absent flag keeps the old one) and the voice state its
/// deafen, mute and speaking flags give, in that order of precedence; the
/// entry's name, avatar and volume and every other entry stay as they were.
pub proof fn update_sets_reported_flags(users: Seq<UserView>, current: Seq<char>, s: WsVoiceState, channel_is_null: bool, j: int)
    requires
        match s.channel_id {
            Some(c) => c@ == current,
            None => !channel_is_null,
        },
        0 <= j < users.len(),
        users[j].id == s.user_id@,
        forall|k: int| 0 <= k < j ==> (#[trigger] users[k]).id != s.user_id@,
    ensures
        ({
            let after = users_after_update(users, current, s, channel_is_null);
            &&& after.len() == users.len()
            &&& forall|k: int| 0 <= k < users.len() && k != j ==> #[trigger] after[k] == users[k]
            &&& after[j].id == users[j].id
            &&& after[j].name == users[j].name
            &&& after[j].avatar == users[j].avatar
            &&& after[j].volume_bits == users[j].volume_bits
            &&& match s.streaming {
                Some(b) => after[j].streaming == b,
                None => after[j].streaming == users[j].streaming,
            }
            &&& match s.camera {
                Some(b) => after[j].camera == b,
                None => after[j].camera == users[j].camera,
            }
            &&& after[j].voice_state == if s.deaf == Some(true) {
                UserVoiceState::Deafened
            } else if s.mute == Some(true) {
                UserVoiceState::Muted
            } else if s.speaking == Some(true) {
                UserVoiceState::Speaking
            } else {
                UserVoiceState::NotSpeaking
            }
        }),
{
    lemma_index_of_id(users, s.user_id@, j);
}

/// An update that keeps an unlisted member in the channel appends that
/// member: its id, the reported flags (absent ones false), and the full
/// volume; the listed members stay as they were.
pub proof fn update_appends_new_member(users: Seq<UserView>, current: Seq<char>, s: WsVoiceState, channel_is_null: bool)
    requires
        match s.channel_id {
            Some(c) => c@ == current,
            None => !channel_is_null,
        },
        forall|k: int| 0 <= k < users.len() ==> (#[trigger] users[k]).id != s.user_id@,
    ensures
        ({
            let after = users_after_update(users, current, s, channel_is_null);
            &&& after.len() == users.len() + 1
            &&& forall|k: int| 0 <= k < users.len() ==> #[trigger] after[k] == users[k]
            &&& after[users.len() as int].id == s.user_id@
            &&& after[users.len() as int].streaming == (s.streaming == Some(true))
            &&& after[users.len() as int].camera == (s.camera == Some(true))
            &&& after[users.len() as int].volume_bits == crate::user::FULL_VOLUME_BITS
        }),
{
    lemma_index_of_id(users, s.user_id@, users.len() as int);
}

pub(crate) proof fn lemma_filter_identity(s: Seq<UserView>, pred: spec_fn(UserView) -> bool)
    requires
        forall|i: int| 0 <= i < s.len() ==> pred(#[trigger] s[i]),
    ensures
        s.filter(pred) == s,
    decreases s.len(),
{
    reveal(Seq::filter);
    if s.len() > 0 {
        let t = s.drop_last();
        assert forall|i: int| 0 <= i < t.len() implies pred(#[trigger] t[i]) by {
            assert(t[i] == s[i]);
        }
        lemma_filter_identity(t, pred);
        assert(pred(s[s.len() - 1]));
        assert(t.push(s.last()) =~= s);
    }
}

} // verus!
