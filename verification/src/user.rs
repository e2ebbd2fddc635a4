//! Members of a voice channel as the overlay shows them.

use vstd::prelude::*;
use crate::payloads::{RpcVoiceState, WsVoiceState};
use crate::text::{decimal, push_decimal};

verus! {

/// The kind of Nitro subscription an account has.
#[derive(Debug, Clone, Copy, PartialEq, Eq, Structural)]
pub enum PremiumType {
    NoPremium,
    NitroClassic,
    Nitro,
    NitroBasic,
}

impl Default for PremiumType {
    fn default() -> (r: Self)
        ensures
            r == PremiumType::NoPremium,
    {
        PremiumType::NoPremium
    }
}

/// The subscription that Discord's numeric code stands for.
pub open spec fn premium_type_of(value: u64) -> Option<PremiumType> {
    if value == 0 {
        Some(PremiumType::NoPremium)
    } else if value == 1 {
        Some(PremiumType::NitroClassic)
    } else if value == 2 {
        Some(PremiumType::Nitro)
    } else if value == 3 {
        Some(PremiumType::NitroBasic)
    } else {
        None
    }
}

impl PremiumType {
    /// Whether the account has any kind of Nitro.
    pub fn has_nitro(&self) -> (r: bool)
        ensures
            r == !(*self is NoPremium),
    {
        !matches!(self, PremiumType::NoPremium)
    }

    /// The subscription for Discord's numeric code; an unknown code gives the
    /// message `Unknown premium type: <code>`.
    pub fn try_from(value: u64) -> (r: Result<PremiumType, String>)
        ensures
            premium_type_of(value) matches Some(p) ==> r == Ok::<PremiumType, String>(p),
            premium_type_of(value) is None ==> (r matches Err(e) && e@
                == "Unknown premium type: "@ + decimal(value as nat)),
    {
        match value {
            0 => Ok(PremiumType::NoPremium),
            1 => Ok(PremiumType::NitroClassic),
            2 => Ok(PremiumType::Nitro),
            3 => Ok(PremiumType::NitroBasic),
            _ => {
                let mut msg = String::from_str("Unknown premium type: ");
                push_decimal(&mut msg, value);
                Err(msg)
            },
        }
    }
}

/// What a member of the voice channel is doing.
#[derive(Debug, Clone, Copy, PartialEq, Eq, Structural)]
pub enum UserVoiceState {
    Speaking,
    NotSpeaking,
    Muted,
    Deafened,
}

/// A member of the voice channel. The volume (a percentage) is held as the
/// bits of its `f32`.
#[derive(Debug, Clone, PartialEq)]
pub struct User {
    pub name: String,
    pub id: String,
    pub avatar: String,
    pub voice_state: UserVoiceState,
    pub streaming: bool,
    pub camera: bool,
    pub volume_bits: u32,
}

/// The contents of a `User`.
pub struct UserView {
    pub name: Seq<char>,
    pub id: Seq<char>,
    pub avatar: Seq<char>,
    pub voice_state: UserVoiceState,
    pub streaming: bool,
    pub camera: bool,
    pub volume_bits: u32,
}

impl View for User {
    type V = UserView;

    open spec fn view(&self) -> UserView {
        UserView {
            name: self.name@,
            id: self.id@,
            avatar: self.avatar@,
            voice_state: self.voice_state,
            streaming: self.streaming,
            camera: self.camera,
            volume_bits: self.volume_bits,
        }
    }
}

/// The bits of `100.0f32`, the volume of a member whose volume is unknown.
pub const FULL_VOLUME_BITS: u32 = 0x42C8_0000;

/// The state shown for a bridge-reported member: deafened before muted
/// before speaking.
pub open spec fn voice_state_from_flags(mute: Option<bool>, deaf: Option<bool>, speaking: Option<
    bool,
>) -> UserVoiceState {
    if deaf == Some(true) {
        UserVoiceState::Deafened
    } else if mute == Some(true) {
        UserVoiceState::Muted
    } else if speaking == Some(true) {
        UserVoiceState::Speaking
    } else {
        UserVoiceState::NotSpeaking
    }
}

/// The state shown for a bridge-reported member.
pub open spec fn voice_state_from_ws(s: WsVoiceState) -> UserVoiceState {
    voice_state_from_flags(s.mute, s.deaf, s.speaking)
}

/// The state shown for an RPC-reported member: server or self deafen first,
/// then server or self mute.
pub open spec fn voice_state_from_rpc(s: RpcVoiceState) -> UserVoiceState {
    if s.voice_state.deaf || s.voice_state.self_deaf {
        UserVoiceState::Deafened
    } else if s.voice_state.mute || s.voice_state.self_mute {
        UserVoiceState::Muted
    } else {
        UserVoiceState::NotSpeaking
    }
}

/// An RPC-reported member is deafened exactly when the server or the member
/// deafened it; otherwise muted exactly when the server or the member muted
/// it; otherwise not speaking. RPC never reports a member as speaking.
pub proof fn rpc_member_state_by_flags(s: RpcVoiceState)
    ensures
        voice_state_from_rpc(s) == user_from_rpc(s).voice_state,
        user_from_rpc(s).voice_state == UserVoiceState::Deafened <==> (s.voice_state.deaf
            || s.voice_state.self_deaf),
        user_from_rpc(s).voice_state == UserVoiceState::Muted <==> (!s.voice_state.deaf
            && !s.voice_state.self_deaf && (s.voice_state.mute || s.voice_state.self_mute)),
        user_from_rpc(s).voice_state == UserVoiceState::NotSpeaking <==> (!s.voice_state.deaf
            && !s.voice_state.self_deaf && !s.voice_state.mute && !s.voice_state.self_mute),
        user_from_rpc(s).voice_state != UserVoiceState::Speaking,
{
}

/// A bridge-reported member is deafened exactly when `deaf` is set; otherwise
/// muted exactly when `mute` is set; otherwise speaking exactly when
/// `speaking` is set; an absent flag counts as unset.
pub proof fn ws_member_state_by_flags(s: WsVoiceState)
    ensures
        voice_state_from_ws(s) == user_from_ws(s).voice_state,
        user_from_ws(s).voice_state == UserVoiceState::Deafened <==> s.deaf == Some(true),
        user_from_ws(s).voice_state == UserVoiceState::Muted <==> (s.deaf != Some(true) && s.mute
            == Some(true)),
        user_from_ws(s).voice_state == UserVoiceState::Speaking <==> (s.deaf != Some(true)
            && s.mute != Some(true) && s.speaking == Some(true)),
        user_from_ws(s).voice_state == UserVoiceState::NotSpeaking <==> (s.deaf != Some(true)
            && s.mute != Some(true) && s.speaking != Some(true)),
{
}

/// An optional string's characters, or the fallback.
pub open spec fn view_or(o: Option<String>, fallback: Seq<char>) -> Seq<char> {
    match o {
        Some(s) => s@,
        None => fallback,
    }
}

/// The member that a bridge voice state describes.
pub open spec fn user_from_ws(s: WsVoiceState) -> UserView {
    UserView {
        name: view_or(s.username, "Unknown"@),
        id: s.user_id@,
        avatar: view_or(s.avatar_url, Seq::empty()),
        voice_state: voice_state_from_ws(s),
        streaming: s.streaming == Some(true),
        camera: s.camera == Some(true),
        volume_bits: FULL_VOLUME_BITS,
    }
}

/// The member that an RPC voice state describes: named by the nickname,
/// else the global name, else the user name.
pub open spec fn user_from_rpc(s: RpcVoiceState) -> UserView {
    UserView {
        name: match s.nick {
            Some(n) => n@,
            None => view_or(s.user.global_name, s.user.username@),
        },
        id: s.user.id@,
        avatar: view_or(s.user.avatar, Seq::empty()),
        voice_state: voice_state_from_rpc(s),
        streaming: false,
        camera: false,
        volume_bits: s.volume_bits,
    }
}

/// An optional string, or a copy of the fallback.
pub fn string_or(o: &Option<String>, fallback: &str) -> (r: String)
    ensures
        r@ == view_or(*o, fallback@),
{
    match o {
        Some(s) => s.clone(),
        None => String::from_str(fallback),
    }
}

impl UserVoiceState {
    /// The state shown for a bridge-reported member.
    pub fn from_ws(val: &WsVoiceState) -> (r: Self)
        ensures
            r == voice_state_from_ws(*val),
    {
        match (val.mute, val.deaf, val.speaking) {
            (_, Some(true), _) => UserVoiceState::Deafened,
            (Some(true), _, _) => UserVoiceState::Muted,
            (_, _, Some(true)) => UserVoiceState::Speaking,
            _ => UserVoiceState::NotSpeaking,
        }
    }

    /// The state shown for an RPC-reported member.
    pub fn from_rpc(val: &RpcVoiceState) -> (r: Self)
        ensures
            r == voice_state_from_rpc(*val),
    {
        if val.voice_state.deaf || val.voice_state.self_deaf {
            UserVoiceState::Deafened
        } else if val.voice_state.mute || val.voice_state.self_mute {
            UserVoiceState::Muted
        } else {
            UserVoiceState::NotSpeaking
        }
    }
}

impl User {
    /// The member that a bridge voice state describes.
    pub fn from_ws(val: &WsVoiceState) -> (r: Self)
        ensures
            r@ == user_from_ws(*val),
    {
        proof {
            reveal_strlit("");
            assert(""@ =~= Seq::<char>::empty());
        }
        let voice_state = UserVoiceState::from_ws(val);
        User {
            name: string_or(&val.username, "Unknown"),
            id: val.user_id.clone(),
            avatar: string_or(&val.avatar_url, ""),
            voice_state,
            streaming: match val.streaming {
                Some(b) => b,
                None => false,
            },
            camera: match val.camera {
                Some(b) => b,
                None => false,
            },
            volume_bits: FULL_VOLUME_BITS,
        }
    }

    /// The member that an RPC voice state describes.
    pub fn from_rpc(val: &RpcVoiceState) -> (r: Self)
        ensures
            r@ == user_from_rpc(*val),
    {
        proof {
            reveal_strlit("");
            assert(""@ =~= Seq::<char>::empty());
        }
        let voice_state = UserVoiceState::from_rpc(val);
        let name = match &val.nick {
            Some(n) => n.clone(),
            None => string_or(&val.user.global_name, val.user.username.as_str()),
        };
        User {
            name,
            id: val.user.id.clone(),
            avatar: string_or(&val.user.avatar, ""),
            voice_state,
            streaming: false,
            camera: false,
            volume_bits: val.volume_bits,
        }
    }
}

} // verus!
