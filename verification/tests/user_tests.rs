use orbolay::payloads::{RpcVoiceState, VoiceStateState, VoiceStateUser, WsVoiceState};
use orbolay::user::{PremiumType, User, UserVoiceState, FULL_VOLUME_BITS};

fn rpc(nick: Option<&str>, global: Option<&str>, flags: VoiceStateState) -> RpcVoiceState {
    RpcVoiceState {
        nick: nick.map(|s| s.to_string()),
        mute: false,
        volume_bits: 55.5f32.to_bits(),
        voice_state: flags,
        user: VoiceStateUser {
            id: "7".to_string(),
            username: "user".to_string(),
            global_name: global.map(|s| s.to_string()),
            avatar: Some("av".to_string()),
        },
    }
}

fn flags(mute: bool, deaf: bool, self_mute: bool, self_deaf: bool) -> VoiceStateState {
    VoiceStateState { mute, deaf, self_mute, self_deaf, suppress: false }
}

#[test]
fn premium_types() {
    assert_eq!(PremiumType::try_from(0), Ok(PremiumType::NoPremium));
    assert_eq!(PremiumType::try_from(1), Ok(PremiumType::NitroClassic));
    assert_eq!(PremiumType::try_from(2), Ok(PremiumType::Nitro));
    assert_eq!(PremiumType::try_from(3), Ok(PremiumType::NitroBasic));
    assert_eq!(PremiumType::try_from(4), Err("Unknown premium type: 4".to_string()));
    assert_eq!(
        PremiumType::try_from(18446744073709551615),
        Err("Unknown premium type: 18446744073709551615".to_string())
    );
    assert!(!PremiumType::NoPremium.has_nitro());
    assert!(PremiumType::NitroBasic.has_nitro());
    assert_eq!(PremiumType::default(), PremiumType::NoPremium);
}

#[test]
fn user_from_bridge_state() {
    let s = WsVoiceState {
        user_id: "1".to_string(),
        username: None,
        avatar_url: None,
        channel_id: None,
        mute: Some(true),
        deaf: Some(false),
        speaking: Some(true),
        streaming: Some(true),
        camera: None,
    };
    let u = User::from_ws(&s);
    assert_eq!(u.name, "Unknown");
    assert_eq!(u.id, "1");
    assert_eq!(u.avatar, "");
    assert_eq!(u.voice_state, UserVoiceState::Muted);
    assert!(u.streaming);
    assert!(!u.camera);
    assert_eq!(f32::from_bits(u.volume_bits), 100.0);
    assert_eq!(u.volume_bits, FULL_VOLUME_BITS);
}

#[test]
fn bridge_voice_state_precedence() {
    let mut s = WsVoiceState {
        user_id: "1".to_string(),
        username: Some("n".to_string()),
        avatar_url: Some("a".to_string()),
        channel_id: None,
        mute: Some(true),
        deaf: Some(true),
        speaking: Some(true),
        streaming: None,
        camera: None,
    };
    assert_eq!(UserVoiceState::from_ws(&s), UserVoiceState::Deafened);
    s.deaf = None;
    assert_eq!(UserVoiceState::from_ws(&s), UserVoiceState::Muted);
    s.mute = Some(false);
    assert_eq!(UserVoiceState::from_ws(&s), UserVoiceState::Speaking);
    s.speaking = None;
    assert_eq!(UserVoiceState::from_ws(&s), UserVoiceState::NotSpeaking);
}

#[test]
fn user_from_rpc_state() {
    let u = User::from_rpc(&rpc(Some("nick"), Some("global"), flags(false, false, false, false)));
    assert_eq!(u.name, "nick");
    assert_eq!(u.id, "7");
    assert_eq!(u.avatar, "av");
    assert_eq!(u.voice_state, UserVoiceState::NotSpeaking);
    assert_eq!(f32::from_bits(u.volume_bits), 55.5);
    assert!(!u.streaming && !u.camera);
    let u = User::from_rpc(&rpc(None, Some("global"), flags(false, false, true, false)));
    assert_eq!(u.name, "global");
    assert_eq!(u.voice_state, UserVoiceState::Muted);
    let u = User::from_rpc(&rpc(None, None, flags(true, false, false, true)));
    assert_eq!(u.name, "user");
    assert_eq!(u.voice_state, UserVoiceState::Deafened);
}
