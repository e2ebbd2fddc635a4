//! The messages that the Discord client and the bridge plugin send, as plain
//! records. Decoding them from JSON happens where the bytes arrive.

use vstd::prelude::*;
use crate::user::PremiumType;

verus! {

/// The user that an RPC session is authorised for.
#[derive(Debug, Clone, PartialEq)]
pub struct RpcUser {
    pub id: String,
    pub username: String,
    pub global_name: Option<String>,
    pub avatar: Option<String>,
}

/// Sent by the client once the RPC connection is up.
#[derive(Debug, Clone, PartialEq)]
pub struct ReadyPayload {
    pub v: i32,
    pub user: Option<RpcUser>,
}

/// Sent when the local user joins or leaves a voice channel.
#[derive(Debug, Clone, PartialEq)]
pub struct VoiceChannelSelectPayload {
    pub channel_id: Option<String>,
    pub guild_id: Option<String>,
}

/// The voice channel the local user is in, with everyone in it.
#[derive(Debug, Clone, PartialEq)]
pub struct SelectedVoiceChannelPayload {
    pub id: Option<String>,
    pub guild_id: Option<String>,
    pub voice_states: Vec<RpcVoiceState>,
}

/// The account behind a voice state.
#[derive(Debug, Clone, PartialEq)]
pub struct VoiceStateUser {
    pub id: String,
    pub username: String,
    pub global_name: Option<String>,
    pub avatar: Option<String>,
}

/// Server-side and self-imposed mute and deafen flags.
#[derive(Debug, Clone, Copy, PartialEq, Eq, Structural)]
pub struct VoiceStateState {
    pub mute: bool,
    pub deaf: bool,
    pub self_mute: bool,
    pub self_deaf: bool,
    pub suppress: bool,
}

/// One member of a voice channel as the RPC interface reports it. The
/// member's volume (a percentage) is held as the bits of its `f32`.
#[derive(Debug, Clone, PartialEq)]
pub struct RpcVoiceState {
    pub nick: Option<String>,
    pub mute: bool,
    pub volume_bits: u32,
    pub voice_state: VoiceStateState,
    pub user: VoiceStateUser,
}

#[derive(Debug, Clone, Copy, PartialEq, Eq, Structural)]
pub struct ScreenshareState {
    pub active: bool,
}

#[derive(Debug, Clone, Copy, PartialEq, Eq, Structural)]
pub struct VideoState {
    pub active: bool,
}

#[derive(Debug, Clone, Copy, PartialEq, Eq, Structural)]
pub struct VoiceConnectionPing {
    pub time: i64,
    pub value: i64,
}

/// The state of the voice connection; the average ping is held as the bits
/// of its `f32`.
#[derive(Debug, Clone, PartialEq)]
pub struct VoiceConnectionStatusPayload {
    pub state: String,
    pub hostname: Option<String>,
    pub pings: Vec<VoiceConnectionPing>,
    pub average_ping_bits: Option<u32>,
}

#[derive(Debug, Clone, Copy, PartialEq, Eq, Structural)]
pub struct VoiceSettingsUpdatePayload {
    pub deaf: bool,
    pub mute: bool,
}

#[derive(Debug, Clone, PartialEq)]
pub struct SpeakingPayload {
    pub channel_id: String,
    pub user_id: String,
}

#[derive(Debug, Clone, PartialEq)]
pub struct GetGuildPayload {
    pub id: String,
    pub name: String,
}

#[derive(Debug, Clone, PartialEq)]
pub struct GetChannelPayload {
    pub id: String,
    pub name: String,
    pub guild_id: Option<String>,
}

/// The message that a notification is about.
#[derive(Debug, Clone, PartialEq)]
pub struct NotificationInner {
    pub id: Option<String>,
    pub guild_id: Option<String>,
    pub channel_id: Option<String>,
    pub message_type: Option<u32>,
}

#[derive(Debug, Clone, PartialEq)]
pub struct GetUserPayload {
    pub id: String,
    pub premium_type: PremiumType,
}

#[derive(Debug, Clone, PartialEq)]
pub struct NotificationCreatePayload {
    pub channel_id: Option<String>,
    pub message: Option<NotificationInner>,
    pub icon_url: Option<String>,
    pub title: String,
    pub body: String,
}

/// One member of a voice channel as the bridge plugin reports it.
#[derive(Debug, Clone, PartialEq)]
pub struct WsVoiceState {
    pub user_id: String,
    pub username: Option<String>,
    pub avatar_url: Option<String>,
    pub channel_id: Option<String>,
    pub mute: Option<bool>,
    pub deaf: Option<bool>,
    pub speaking: Option<bool>,
    pub streaming: Option<bool>,
    pub camera: Option<bool>,
}

/// Everyone in the channel that the local user just joined.
#[derive(Debug, Clone, PartialEq)]
pub struct ChannelJoinPayload {
    pub states: Vec<WsVoiceState>,
}

/// A change to one member's voice state.
#[derive(Debug, Clone, PartialEq)]
pub struct UpdatePayload {
    pub state: WsVoiceState,
}

/// A message notification to show.
#[derive(Debug, Clone, PartialEq)]
pub struct NotificationPayload {
    pub message: Notification,
}

/// A notification shown in the message section of the overlay.
#[derive(Debug, Clone, PartialEq)]
pub struct Notification {
    pub title: String,
    pub body: String,
    pub icon: String,
    pub timestamp: Option<i64>,
    pub timeout_secs: u64,
    pub guild_id: Option<String>,
    pub channel_id: Option<String>,
    pub message_id: Option<String>,
}

} // verus!
