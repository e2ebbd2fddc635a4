//! The commands that the overlay sends to the Discord client over RPC. Each
//! function describes one command; turning it into JSON and writing it to
//! the socket happens where the socket is.

use vstd::prelude::*;
use vstd::string::*;

verus! {

/// The application id that the overlay authorises as.
pub open spec fn client_id_spec() -> Seq<char> {
    "207646673902501888"@
}

/// The application id that the overlay authorises as.
pub fn client_id() -> (r: String)
    ensures
        r@ == client_id_spec(),
{
    String::from_str("207646673902501888")
}

/// The `args` object of a command.
#[derive(Debug, Clone, PartialEq)]
pub enum RpcArgs {
    /// `{"client_id", "scopes", "prompt"}`
    Authorize { client_id: String, scopes: Vec<String>, prompt: String },
    /// `{"access_token"}`
    Authenticate { access_token: String },
    /// `{"mute"}`
    Mute(bool),
    /// `{"deaf"}`
    Deaf(bool),
    /// `{"streaming"}`
    Streaming(bool),
    /// `{"user_id", "volume"}`, the volume given as the bits of its `f64`.
    UserVolume { user_id: String, volume_bits: u64 },
    /// `{"sound_id"}`, and `"guild_id"` where there is one.
    Soundboard { sound_id: String, guild_id: Option<String> },
    /// `{"guild_id"}`
    Guild { guild_id: String },
    /// `{"channel_id"}`, `null` where there is none.
    Channel { channel_id: Option<String> },
    /// `{"type": "CHANNEL", "params": {"guildId", "channelId"}}`
    DeepLinkChannel { guild_id: String, channel_id: String },
}

/// A command: `{"cmd", "args", "nonce"}`.
#[derive(Debug, Clone, PartialEq)]
pub struct RpcRequest {
    pub cmd: String,
    pub args: RpcArgs,
    pub nonce: String,
}

/// The scopes that the overlay asks for.
pub open spec fn auth_scopes() -> Seq<Seq<char>> {
    seq!["rpc"@, "rpc.voice.write"@, "rpc.screenshare.read"@, "messages.read"@, "rpc.notifications.read"@]
}

/// Whether a request is the command `cmd` with the nonce `nonce`.
pub open spec fn is_command(r: RpcRequest, cmd: Seq<char>, nonce: Seq<char>) -> bool {
    r.cmd@ == cmd && r.nonce@ == nonce
}

/// Asks the client to authorise the overlay without prompting.
pub fn build_rpc_authorize_request() -> (r: RpcRequest)
    ensures
        is_command(r, "AUTHORIZE"@, "helloworld"@),
        r.args matches RpcArgs::Authorize { client_id, scopes, prompt } && client_id@
            == client_id_spec() && scopes@.map_values(|s: String| s@) == auth_scopes() && prompt@
            == "none"@,
{
    let mut scopes: Vec<String> = Vec::new();
    scopes.push(String::from_str("rpc"));
    scopes.push(String::from_str("rpc.voice.write"));
    scopes.push(String::from_str("rpc.screenshare.read"));
    scopes.push(String::from_str("messages.read"));
    scopes.push(String::from_str("rpc.notifications.read"));
    assert(scopes@.map_values(|s: String| s@) =~= auth_scopes());
    RpcRequest {
        cmd: String::from_str("AUTHORIZE"),
        args: RpcArgs::Authorize {
            client_id: client_id(),
            scopes,
            prompt: String::from_str("none"),
        },
        nonce: String::from_str("helloworld"),
    }
}

/// Authenticates the session with an access token.
pub fn build_rpc_authenticate_request(access_token: String) -> (r: RpcRequest)
    ensures
        is_command(r, "AUTHENTICATE"@, "helloworld"@),
        r.args matches RpcArgs::Authenticate { access_token: t } && t == access_token,
{
    RpcRequest {
        cmd: String::from_str("AUTHENTICATE"),
        args: RpcArgs::Authenticate { access_token },
        nonce: String::from_str("helloworld"),
    }
}

/// Mutes or unmutes the local user.
pub fn set_muted(muted: bool) -> (r: RpcRequest)
    ensures
        is_command(r, "SET_VOICE_SETTINGS"@, "SET_VOICE_SETTINGS"@),
        r.args == RpcArgs::Mute(muted),
{
    RpcRequest {
        cmd: String::from_str("SET_VOICE_SETTINGS"),
        args: RpcArgs::Mute(muted),
        nonce: String::from_str("SET_VOICE_SETTINGS"),
    }
}

/// Deafens or undeafens the local user.
pub fn set_deafened(deafened: bool) -> (r: RpcRequest)
    ensures
        is_command(r, "SET_VOICE_SETTINGS"@, "SET_VOICE_SETTINGS"@),
        r.args == RpcArgs::Deaf(deafened),
{
    RpcRequest {
        cmd: String::from_str("SET_VOICE_SETTINGS"),
        args: RpcArgs::Deaf(deafened),
        nonce: String::from_str("SET_VOICE_SETTINGS"),
    }
}

/// Stops the local user's stream.
pub fn stop_streaming() -> (r: RpcRequest)
    ensures
        is_command(r, "SET_USER_VOICE_SETTINGS"@, "SET_USER_VOICE_SETTINGS"@),
        r.args == RpcArgs::Streaming(false),
{
    RpcRequest {
        cmd: String::from_str("SET_USER_VOICE_SETTINGS"),
        args: RpcArgs::Streaming(false),
        nonce: String::from_str("SET_USER_VOICE_SETTINGS"),
    }
}

/// Sets how loud another member is heard; the volume is given as the bits
/// of its `f64`.
pub fn set_user_volume(user_id: &str, volume_bits: u64) -> (r: RpcRequest)
    ensures
        is_command(r, "SET_USER_VOICE_SETTINGS"@, "SET_USER_VOICE_SETTINGS"@),
        r.args matches RpcArgs::UserVolume { user_id: u, volume_bits: v } && u@ == user_id@ && v
            == volume_bits,
{
    RpcRequest {
        cmd: String::from_str("SET_USER_VOICE_SETTINGS"),
        args: RpcArgs::UserVolume { user_id: String::from_str(user_id), volume_bits },
        nonce: String::from_str("SET_USER_VOICE_SETTINGS"),
    }
}

/// Plays a soundboard sound, from the given guild where there is one.
pub fn play_soundboard_sound(sound_id: &str, source_guild_id: Option<&str>) -> (r: RpcRequest)
    ensures
        is_command(r, "PLAY_SOUNDBOARD_SOUND"@, "PLAY_SOUNDBOARD_SOUND"@),
        r.args matches RpcArgs::Soundboard { sound_id: s, guild_id: g } && s@ == sound_id@ && (
        match source_guild_id {
            Some(sg) => g matches Some(gg) && gg@ == sg@,
            None => g is None,
        }),
{
    let guild_id = match source_guild_id {
        Some(g) => Some(String::from_str(g)),
        None => None,
    };
    RpcRequest {
        cmd: String::from_str("PLAY_SOUNDBOARD_SOUND"),
        args: RpcArgs::Soundboard { sound_id: String::from_str(sound_id), guild_id },
        nonce: String::from_str("PLAY_SOUNDBOARD_SOUND"),
    }
}

/// Asks for a guild's name.
pub fn get_guild(guild_id: &str) -> (r: RpcRequest)
    ensures
        is_command(r, "GET_GUILD"@, "GET_GUILD"@),
        r.args matches RpcArgs::Guild { guild_id: g } && g@ == guild_id@,
{
    RpcRequest {
        cmd: String::from_str("GET_GUILD"),
        args: RpcArgs::Guild { guild_id: String::from_str(guild_id) },
        nonce: String::from_str("GET_GUILD"),
    }
}

/// Asks for a channel's name and guild.
pub fn get_channel(channel_id: &str) -> (r: RpcRequest)
    ensures
        is_command(r, "GET_CHANNEL"@, "GET_CHANNEL"@),
        r.args matches RpcArgs::Channel { channel_id: Some(c) } && c@ == channel_id@,
{
    RpcRequest {
        cmd: String::from_str("GET_CHANNEL"),
        args: RpcArgs::Channel { channel_id: Some(String::from_str(channel_id)) },
        nonce: String::from_str("GET_CHANNEL"),
    }
}

/// The guild named in a deep link: direct messages are `@me`.
pub open spec fn deep_link_guild(guild_id: Seq<char>) -> Seq<char> {
    if guild_id.len() == 0 {
        "@me"@
    } else {
        guild_id
    }
}

/// Opens a channel in the client; an empty guild id opens a direct message.
pub fn deep_link_channel(channel_id: &str, guild_id: &str) -> (r: RpcRequest)
    ensures
        is_command(r, "DEEP_LINK"@, "DEEP_LINK"@),
        r.args matches RpcArgs::DeepLinkChannel { guild_id: g, channel_id: c } && g@
            == deep_link_guild(guild_id@) && c@ == channel_id@,
{
    let g = if guild_id.is_empty() {
        String::from_str("@me")
    } else {
        String::from_str(guild_id)
    };
    RpcRequest {
        cmd: String::from_str("DEEP_LINK"),
        args: RpcArgs::DeepLinkChannel { guild_id: g, channel_id: String::from_str(channel_id) },
        nonce: String::from_str("DEEP_LINK"),
    }
}

/// Moves the local user into a voice channel.
pub fn select_voice_channel(channel_id: &str) -> (r: RpcRequest)
    ensures
        is_command(r, "SELECT_VOICE_CHANNEL"@, "SELECT_VOICE_CHANNEL"@),
        r.args matches RpcArgs::Channel { channel_id: Some(c) } && c@ == channel_id@,
{
    RpcRequest {
        cmd: String::from_str("SELECT_VOICE_CHANNEL"),
        args: RpcArgs::Channel { channel_id: Some(String::from_str(channel_id)) },
        nonce: String::from_str("SELECT_VOICE_CHANNEL"),
    }
}

/// Leaves the voice channel.
pub fn disconnect() -> (r: RpcRequest)
    ensures
        is_command(r, "SELECT_VOICE_CHANNEL"@, "SELECT_VOICE_CHANNEL"@),
        r.args matches RpcArgs::Channel { channel_id: None },
{
    RpcRequest {
        cmd: String::from_str("SELECT_VOICE_CHANNEL"),
        args: RpcArgs::Channel { channel_id: None },
        nonce: String::from_str("SELECT_VOICE_CHANNEL"),
    }
}

/// The opcode of an ordinary IPC frame.
pub const OP_FRAME: u32 = 1;

/// The four little-endian bytes of a word.
pub open spec fn le_u32(v: u32) -> Seq<u8> {
    seq![(v & 0xff) as u8, ((v >> 8u32) & 0xff) as u8, ((v >> 16u32) & 0xff) as u8, ((v >> 24u32) & 0xff) as u8]
}

/// An IPC frame: the opcode and the payload's length, both as little-endian
/// words, and then the payload.
pub fn encode_frame(op: u32, payload: &[u8]) -> (r: Vec<u8>)
    requires
        payload@.len() <= u32::MAX,
    ensures
        r@ == le_u32(op) + le_u32(payload@.len() as u32) + payload@,
{
    let len = payload.len() as u32;
    let mut r: Vec<u8> = Vec::new();
    r.push((op & 0xff) as u8);
    r.push(((op >> 8u32) & 0xff) as u8);
    r.push(((op >> 16u32) & 0xff) as u8);
    r.push(((op >> 24u32) & 0xff) as u8);
    r.push((len & 0xff) as u8);
    r.push(((len >> 8u32) & 0xff) as u8);
    r.push(((len >> 16u32) & 0xff) as u8);
    r.push(((len >> 24u32) & 0xff) as u8);
    assert(r@ =~= le_u32(op) + le_u32(len));
    let mut i: usize = 0;
    while i < payload.len()
        invariant
            i <= payload@.len(),
            r@ == le_u32(op) + le_u32(len) + payload@.subrange(0, i as int),
        decreases payload.len() - i,
    {
        r.push(payload[i]);
        assert(payload@.subrange(0, i + 1) =~= payload@.subrange(0, i as int).push(payload@[i as int]));
        i = i + 1;
    }
    assert(payload@.subrange(0, payload@.len() as int) =~= payload@);
    r
}

} // verus!
