use orbolay::config::Config;
use orbolay::payloads::{ChannelJoinPayload, Notification, NotificationPayload, UpdatePayload, WsVoiceState};
use orbolay::user::{User, UserVoiceState, FULL_VOLUME_BITS};
use orbolay::websocket::{
    command_kind, handle_stream_closed, handle_ws_message, AppState, WsCommand, WsCommandKind,
};

fn state() -> AppState {
    AppState {
        voice_users: Vec::new(),
        current_channel: String::new(),
        user_id: "me".to_string(),
        is_censor: false,
        is_open: false,
        config: Config::default(),
    }
}

fn ws(user_id: &str, channel: Option<&str>) -> WsVoiceState {
    WsVoiceState {
        user_id: user_id.to_string(),
        username: Some(format!("name-{user_id}")),
        avatar_url: None,
        channel_id: channel.map(|c| c.to_string()),
        mute: None,
        deaf: None,
        speaking: None,
        streaming: None,
        camera: None,
    }
}

fn ids(s: &AppState) -> Vec<String> {
    s.voice_users.iter().map(|u| u.id.clone()).collect()
}

#[test]
fn command_names() {
    assert_eq!(command_kind("REGISTER_CONFIG"), WsCommandKind::RegisterConfig);
    assert_eq!(command_kind("CHANNEL_JOINED"), WsCommandKind::ChannelJoined);
    assert_eq!(command_kind("VOICE_STATE_UPDATE"), WsCommandKind::VoiceStateUpdate);
    assert_eq!(command_kind("CHANNEL_LEFT"), WsCommandKind::ChannelLeft);
    assert_eq!(command_kind("MESSAGE_NOTIFICATION"), WsCommandKind::MessageNotification);
    assert_eq!(command_kind("STREAMER_MODE"), WsCommandKind::StreamerMode);
    assert_eq!(command_kind("channel_left"), WsCommandKind::Unknown);
    assert_eq!(command_kind(""), WsCommandKind::Unknown);
}

#[test]
fn register_config_sets_user_and_port() {
    let mut s = state();
    let out = handle_ws_message(
        &mut s,
        WsCommand::RegisterConfig { user_id: Some("42".to_string()), port: Some(7000) },
        0,
    );
    assert!(out.redraw);
    assert!(out.notification.is_none());
    assert_eq!(s.user_id, "42");
    assert_eq!(s.config.port, Some(7000));
}

#[test]
fn register_config_truncates_port_and_defaults_user() {
    let mut s = state();
    handle_ws_message(&mut s, WsCommand::RegisterConfig { user_id: None, port: Some(70000) }, 0);
    assert_eq!(s.user_id, "");
    assert_eq!(s.config.port, Some((70000u64 % 65536) as u16));
    handle_ws_message(&mut s, WsCommand::RegisterConfig { user_id: None, port: None }, 0);
    assert_eq!(s.config.port, Some(4464));
}

#[test]
fn channel_joined_replaces_members_and_channel() {
    let mut s = state();
    s.voice_users.push(User::from_ws(&ws("old", None)));
    let out = handle_ws_message(
        &mut s,
        WsCommand::ChannelJoined(ChannelJoinPayload {
            states: vec![ws("a", Some("c1")), ws("me", Some("c9")), ws("b", Some("c1"))],
        }),
        0,
    );
    assert!(out.redraw);
    assert_eq!(ids(&s), vec!["a", "me", "b"]);
    assert_eq!(s.current_channel, "c9");
    assert_eq!(s.voice_users[0].name, "name-a");
}

#[test]
fn channel_joined_without_channel_uses_zero() {
    let mut s = state();
    s.current_channel = "before".to_string();
    handle_ws_message(&mut s, WsCommand::ChannelJoined(ChannelJoinPayload { states: vec![ws("me", None)] }), 0);
    assert_eq!(s.current_channel, "0");
    let mut t = state();
    t.current_channel = "before".to_string();
    handle_ws_message(&mut t, WsCommand::ChannelJoined(ChannelJoinPayload { states: vec![ws("x", None)] }), 0);
    assert_eq!(t.current_channel, "before");
}

#[test]
fn voice_state_update_adds_updates_and_removes() {
    let mut s = state();
    s.current_channel = "c1".to_string();
    // a member of this channel that is not listed yet is added
    handle_ws_message(
        &mut s,
        WsCommand::VoiceStateUpdate {
            payload: UpdatePayload { state: ws("a", Some("c1")) },
            channel_is_null: false,
        },
        0,
    );
    assert_eq!(ids(&s), vec!["a"]);
    assert_eq!(s.voice_users[0].voice_state, UserVoiceState::NotSpeaking);
    assert_eq!(s.voice_users[0].volume_bits, FULL_VOLUME_BITS);
    // an update of a listed member keeps streaming where it is not given
    s.voice_users[0].streaming = true;
    let mut upd = ws("a", Some("c1"));
    upd.speaking = Some(true);
    upd.camera = Some(true);
    upd.username = Some("renamed".to_string());
    handle_ws_message(
        &mut s,
        WsCommand::VoiceStateUpdate { payload: UpdatePayload { state: upd }, channel_is_null: false },
        0,
    );
    assert_eq!(s.voice_users.len(), 1);
    assert_eq!(s.voice_users[0].voice_state, UserVoiceState::Speaking);
    assert!(s.voice_users[0].streaming);
    assert!(s.voice_users[0].camera);
    assert_eq!(s.voice_users[0].name, "name-a");
    // a move to another channel removes the member
    handle_ws_message(
        &mut s,
        WsCommand::VoiceStateUpdate {
            payload: UpdatePayload { state: ws("a", Some("c2")) },
            channel_is_null: false,
        },
        0,
    );
    assert!(s.voice_users.is_empty());
}

#[test]
fn voice_state_update_null_channel_removes_missing_channel_keeps() {
    let mut s = state();
    s.current_channel = "c1".to_string();
    s.voice_users.push(User::from_ws(&ws("a", None)));
    s.voice_users.push(User::from_ws(&ws("b", None)));
    s.voice_users.push(User::from_ws(&ws("a", None)));
    let mut muted = ws("b", None);
    muted.mute = Some(true);
    handle_ws_message(
        &mut s,
        WsCommand::VoiceStateUpdate { payload: UpdatePayload { state: muted }, channel_is_null: false },
        0,
    );
    assert_eq!(ids(&s), vec!["a", "b", "a"]);
    assert_eq!(s.voice_users[1].voice_state, UserVoiceState::Muted);
    handle_ws_message(
        &mut s,
        WsCommand::VoiceStateUpdate { payload: UpdatePayload { state: ws("a", None) }, channel_is_null: true },
        0,
    );
    assert_eq!(ids(&s), vec!["b"]);
}

#[test]
fn voice_state_update_twice_is_once() {
    let mut s = state();
    s.current_channel = "c1".to_string();
    let mut deaf = ws("a", Some("c1"));
    deaf.deaf = Some(true);
    for _ in 0..2 {
        let mut d = ws("a", Some("c1"));
        d.deaf = deaf.deaf;
        handle_ws_message(
            &mut s,
            WsCommand::VoiceStateUpdate { payload: UpdatePayload { state: d }, channel_is_null: false },
            0,
        );
        assert_eq!(ids(&s), vec!["a"]);
        assert_eq!(s.voice_users[0].voice_state, UserVoiceState::Deafened);
    }
}

#[test]
fn channel_left_clears() {
    let mut s = state();
    s.current_channel = "c1".to_string();
    s.voice_users.push(User::from_ws(&ws("a", None)));
    let out = handle_ws_message(&mut s, WsCommand::ChannelLeft, 0);
    assert!(out.redraw);
    assert!(s.voice_users.is_empty());
    assert_eq!(s.current_channel, "");
    assert_eq!(s.user_id, "me");
}

#[test]
fn message_notification_is_stamped_and_png() {
    let mut s = state();
    let n = Notification {
        title: "t".to_string(),
        body: "b".to_string(),
        icon: "https://x/a.webp?x.webp".to_string(),
        timestamp: None,
        timeout_secs: 5,
        guild_id: Some("g".to_string()),
        channel_id: None,
        message_id: Some("m".to_string()),
    };
    let out = handle_ws_message(&mut s, WsCommand::MessageNotification(NotificationPayload { message: n }), 1234);
    assert!(out.redraw);
    let n = out.notification.unwrap();
    assert_eq!(n.icon, "https://x/a.png?x.png");
    assert_eq!(n.timestamp, Some(1234));
    assert_eq!(n.title, "t");
    assert_eq!(n.timeout_secs, 5);
    assert_eq!(n.guild_id.as_deref(), Some("g"));
}

#[test]
fn streamer_mode_and_unknown() {
    let mut s = state();
    handle_ws_message(&mut s, WsCommand::StreamerMode { enabled: Some(true) }, 0);
    assert!(s.is_censor);
    handle_ws_message(&mut s, WsCommand::StreamerMode { enabled: None }, 0);
    assert!(!s.is_censor);
    let out = handle_ws_message(&mut s, WsCommand::Unknown, 0);
    assert!(!out.redraw);
    assert!(out.notification.is_none());
}

#[test]
fn stream_closed_clears_members() {
    let mut s = state();
    s.current_channel = "c".to_string();
    s.voice_users.push(User::from_ws(&ws("a", None)));
    assert!(handle_stream_closed(&mut s));
    assert!(s.voice_users.is_empty());
    assert_eq!(s.current_channel, "c");
}
