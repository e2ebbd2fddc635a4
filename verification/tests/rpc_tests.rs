use orbolay::auth::{auth_response_step, auth_step, AuthStep, AUTH_ATTEMPTS};
use orbolay::rpc::{
    build_rpc_authenticate_request, build_rpc_authorize_request, client_id, deep_link_channel,
    disconnect, encode_frame, get_channel, get_guild, play_soundboard_sound, select_voice_channel,
    set_deafened, set_muted, set_user_volume, stop_streaming, RpcArgs, OP_FRAME,
};

#[test]
fn authorize_request() {
    let r = build_rpc_authorize_request();
    assert_eq!(r.cmd, "AUTHORIZE");
    assert_eq!(r.nonce, "helloworld");
    match r.args {
        RpcArgs::Authorize { client_id, scopes, prompt } => {
            assert_eq!(client_id, "207646673902501888");
            assert_eq!(
                scopes,
                vec![
                    "rpc",
                    "rpc.voice.write",
                    "rpc.screenshare.read",
                    "messages.read",
                    "rpc.notifications.read"
                ]
            );
            assert_eq!(prompt, "none");
        }
        other => panic!("unexpected args {other:?}"),
    }
    assert_eq!(client_id(), "207646673902501888");
}

#[test]
fn authenticate_request() {
    let r = build_rpc_authenticate_request("tok".to_string());
    assert_eq!(r.cmd, "AUTHENTICATE");
    assert!(matches!(r.args, RpcArgs::Authenticate { ref access_token } if access_token == "tok"));
}

#[test]
fn voice_settings_requests() {
    let r = set_muted(true);
    assert_eq!((r.cmd.as_str(), r.nonce.as_str()), ("SET_VOICE_SETTINGS", "SET_VOICE_SETTINGS"));
    assert!(matches!(r.args, RpcArgs::Mute(true)));
    assert!(matches!(set_deafened(false).args, RpcArgs::Deaf(false)));
    let r = stop_streaming();
    assert_eq!(r.cmd, "SET_USER_VOICE_SETTINGS");
    assert!(matches!(r.args, RpcArgs::Streaming(false)));
    let r = set_user_volume("9", 150.0f64.to_bits());
    assert!(matches!(r.args, RpcArgs::UserVolume { ref user_id, volume_bits } if user_id == "9" && f64::from_bits(volume_bits) == 150.0));
}

#[test]
fn soundboard_request() {
    let r = play_soundboard_sound("s1", Some("g1"));
    assert_eq!(r.cmd, "PLAY_SOUNDBOARD_SOUND");
    assert!(matches!(r.args, RpcArgs::Soundboard { ref sound_id, guild_id: Some(ref g) } if sound_id == "s1" && g == "g1"));
    let r = play_soundboard_sound("s2", None);
    assert!(matches!(r.args, RpcArgs::Soundboard { guild_id: None, .. }));
}

#[test]
fn channel_requests() {
    let r = get_guild("g");
    assert_eq!(r.cmd, "GET_GUILD");
    assert!(matches!(r.args, RpcArgs::Guild { ref guild_id } if guild_id == "g"));
    let r = get_channel("c");
    assert_eq!(r.nonce, "GET_CHANNEL");
    assert!(matches!(r.args, RpcArgs::Channel { channel_id: Some(ref c) } if c == "c"));
    let r = select_voice_channel("v");
    assert_eq!(r.cmd, "SELECT_VOICE_CHANNEL");
    assert!(matches!(r.args, RpcArgs::Channel { channel_id: Some(ref c) } if c == "v"));
    let r = disconnect();
    assert_eq!(r.cmd, "SELECT_VOICE_CHANNEL");
    assert!(matches!(r.args, RpcArgs::Channel { channel_id: None }));
}

#[test]
fn deep_link_direct_messages_use_me() {
    let r = deep_link_channel("c", "");
    assert_eq!(r.cmd, "DEEP_LINK");
    assert!(matches!(r.args, RpcArgs::DeepLinkChannel { ref guild_id, ref channel_id } if guild_id == "@me" && channel_id == "c"));
    let r = deep_link_channel("c", "g");
    assert!(matches!(r.args, RpcArgs::DeepLinkChannel { ref guild_id, .. } if guild_id == "g"));
}

#[test]
fn frame_layout() {
    let f = encode_frame(OP_FRAME, b"{}");
    assert_eq!(f, vec![1, 0, 0, 0, 2, 0, 0, 0, b'{', b'}']);
    let big = vec![7u8; 0x0102];
    let f = encode_frame(0x0A0B0C0D, &big);
    assert_eq!(&f[..8], &[0x0D, 0x0C, 0x0B, 0x0A, 0x02, 0x01, 0, 0]);
    assert_eq!(f.len(), 8 + 0x0102);
}

#[test]
fn auth_token_found() {
    match auth_response_step(1, Some(r#"{"access_token":"abc","x":1}"#)) {
        AuthStep::Token(t) => assert_eq!(t, "abc"),
        other => panic!("unexpected {other:?}"),
    }
}

#[test]
fn auth_retries_json_without_token() {
    assert!(matches!(auth_response_step(1, Some("{}")), AuthStep::Retry));
    assert!(matches!(auth_response_step(2, Some(r#"{"access_token":5}"#)), AuthStep::Retry));
    assert!(matches!(auth_response_step(AUTH_ATTEMPTS, Some("{}")), AuthStep::GiveUp));
    assert!(matches!(auth_response_step(1, Some("[1,2]")), AuthStep::Retry));
}

#[test]
fn auth_gives_up_on_failures() {
    assert!(matches!(auth_response_step(1, Some("not json")), AuthStep::GiveUp));
    assert!(matches!(auth_response_step(1, None), AuthStep::GiveUp));
    assert!(matches!(auth_step(1, None), AuthStep::GiveUp));
    assert!(matches!(auth_step(1, Some(None)), AuthStep::Retry));
    assert!(matches!(auth_step(3, Some(None)), AuthStep::GiveUp));
}

#[test]
fn token_endpoint_parses() {
    assert_eq!(
        orbolay::auth::token_endpoint().as_deref(),
        Some("https://streamkit.discord.com/overlay/token")
    );
}
