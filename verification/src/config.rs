//! The overlay's configuration: transport and display modes, anchoring of the
//! voice and message sections, and the defaults written on first run.

use vstd::prelude::*;
use vstd::std_specs::convert::FromSpecImpl;
use vstd::string::*;
use crate::text::{ascii_lower, str_eq, to_ascii_lowercase};

verus! {

/// How the overlay talks to the Discord client.
#[derive(Debug, Clone, Copy, PartialEq, Eq, Structural)]
pub enum TransportMode {
    Ipc,
    Websocket,
}

/// When the members of the voice channel are shown.
#[derive(Debug, Clone, Copy, PartialEq, Eq, Structural)]
pub enum DisplayVoiceMembers {
    Always,
    AlwaysSemiTransparent,
    WhenSpeaking,
}

/// Placement along one axis of the screen.
#[derive(Debug, Clone, Copy, PartialEq, Eq, Structural)]
pub enum AxisAlignment {
    Start,
    Center,
    End,
}

/// Placement of a section in one of the screen's corners or edge centres.
#[derive(Debug, Clone, Copy, PartialEq, Eq, Structural)]
pub struct CornerAlignment {
    pub x: AxisAlignment,
    pub y: AxisAlignment,
}

/// Padding around a section, in pixels: top, right, bottom, left.
#[derive(Debug, Clone, Copy, PartialEq, Eq, Structural)]
pub struct Gaps {
    pub top: i32,
    pub right: i32,
    pub bottom: i32,
    pub left: i32,
}

impl Default for TransportMode {
    fn default() -> (r: Self)
        ensures
            r == TransportMode::Ipc,
    {
        TransportMode::Ipc
    }
}

impl Default for DisplayVoiceMembers {
    fn default() -> (r: Self)
        ensures
            r == DisplayVoiceMembers::AlwaysSemiTransparent,
    {
        DisplayVoiceMembers::AlwaysSemiTransparent
    }
}

/// The name under which a transport mode is shown and stored.
pub open spec fn transport_mode_name(m: TransportMode) -> Seq<char> {
    match m {
        TransportMode::Ipc => "ipc"@,
        TransportMode::Websocket => "websocket"@,
    }
}

/// The transport mode that a name stands for; unknown names give `Ipc`.
pub open spec fn transport_mode_from_name(s: Seq<char>) -> TransportMode {
    if s == "websocket"@ {
        TransportMode::Websocket
    } else {
        TransportMode::Ipc
    }
}

impl TransportMode {
    /// The name shown to the user for this mode.
    pub fn to_string(&self) -> (r: String)
        ensures
            r@ == transport_mode_name(*self),
    {
        match self {
            TransportMode::Ipc => String::from_str("ipc"),
            TransportMode::Websocket => String::from_str("websocket"),
        }
    }
}

impl From<String> for TransportMode {
    fn from(value: String) -> (r: Self) {
        proof {
            reveal_strlit("ipc");
            assert("ipc"@.len() == 3);
            reveal_strlit("websocket");
            assert("websocket"@.len() == 9);
        }
        if str_eq(value.as_str(), "ipc") {
            TransportMode::Ipc
        } else if str_eq(value.as_str(), "websocket") {
            TransportMode::Websocket
        } else {
            TransportMode::Ipc
        }
    }
}

impl FromSpecImpl<String> for TransportMode {
    open spec fn obeys_from_spec() -> bool {
        true
    }

    open spec fn from_spec(v: String) -> Self {
        transport_mode_from_name(v@)
    }
}

/// The name under which a voice-member display mode is shown.
pub open spec fn display_voice_members_name(m: DisplayVoiceMembers) -> Seq<char> {
    match m {
        DisplayVoiceMembers::Always => "always (opaque)"@,
        DisplayVoiceMembers::AlwaysSemiTransparent => "always (transparent)"@,
        DisplayVoiceMembers::WhenSpeaking => "only when speaking"@,
    }
}

/// The display mode that a name stands for; unknown names give `Always`.
pub open spec fn display_voice_members_from_name(s: Seq<char>) -> DisplayVoiceMembers {
    if s == "always (transparent)"@ {
        DisplayVoiceMembers::AlwaysSemiTransparent
    } else if s == "only when speaking"@ {
        DisplayVoiceMembers::WhenSpeaking
    } else {
        DisplayVoiceMembers::Always
    }
}

impl DisplayVoiceMembers {
    /// The name shown to the user for this mode.
    pub fn to_string(&self) -> (r: String)
        ensures
            r@ == display_voice_members_name(*self),
    {
        match self {
            DisplayVoiceMembers::Always => String::from_str("always (opaque)"),
            DisplayVoiceMembers::AlwaysSemiTransparent => String::from_str("always (transparent)"),
            DisplayVoiceMembers::WhenSpeaking => String::from_str("only when speaking"),
        }
    }
}

impl From<String> for DisplayVoiceMembers {
    fn from(value: String) -> (r: Self) {
        proof {
            reveal_strlit("always (opaque)");
            assert("always (opaque)"@.len() == 15);
            reveal_strlit("always (transparent)");
            assert("always (transparent)"@.len() == 20);
            reveal_strlit("only when speaking");
            assert("only when speaking"@.len() == 18);
        }
        let s = value.as_str();
        if str_eq(s, "always (opaque)") {
            DisplayVoiceMembers::Always
        } else if str_eq(s, "always (transparent)") {
            DisplayVoiceMembers::AlwaysSemiTransparent
        } else if str_eq(s, "only when speaking") {
            DisplayVoiceMembers::WhenSpeaking
        } else {
            DisplayVoiceMembers::Always
        }
    }
}

impl FromSpecImpl<String> for DisplayVoiceMembers {
    open spec fn obeys_from_spec() -> bool {
        true
    }

    open spec fn from_spec(v: String) -> Self {
        display_voice_members_from_name(v@)
    }
}

/// The name under which an axis alignment is shown.
pub open spec fn axis_alignment_name(a: AxisAlignment) -> Seq<char> {
    match a {
        AxisAlignment::Start => "start"@,
        AxisAlignment::Center => "center"@,
        AxisAlignment::End => "end"@,
    }
}

impl AxisAlignment {
    /// The name shown to the user for this alignment.
    pub fn to_string(&self) -> (r: String)
        ensures
            r@ == axis_alignment_name(*self),
    {
        match self {
            AxisAlignment::Start => String::from_str("start"),
            AxisAlignment::Center => String::from_str("center"),
            AxisAlignment::End => String::from_str("end"),
        }
    }
}

/// The placement that a corner name stands for, compared without regard to
/// ASCII case; an unknown name places the section top left.
pub open spec fn corner_from_name(s: Seq<char>) -> CornerAlignment {
    let l = ascii_lower(s);
    if l == "topright"@ {
        CornerAlignment { x: AxisAlignment::End, y: AxisAlignment::Start }
    } else if l == "bottomleft"@ {
        CornerAlignment { x: AxisAlignment::Start, y: AxisAlignment::End }
    } else if l == "bottomright"@ {
        CornerAlignment { x: AxisAlignment::End, y: AxisAlignment::End }
    } else if l == "topcenter"@ {
        CornerAlignment { x: AxisAlignment::Center, y: AxisAlignment::Start }
    } else if l == "bottomcenter"@ {
        CornerAlignment { x: AxisAlignment::Center, y: AxisAlignment::End }
    } else if l == "centerleft"@ {
        CornerAlignment { x: AxisAlignment::Start, y: AxisAlignment::Center }
    } else if l == "centerright"@ {
        CornerAlignment { x: AxisAlignment::End, y: AxisAlignment::Center }
    } else {
        CornerAlignment { x: AxisAlignment::Start, y: AxisAlignment::Start }
    }
}

/// The near and far padding along one axis for an offset.
pub open spec fn axis_gaps(a: AxisAlignment, offset: i32) -> (i32, i32) {
    match a {
        AxisAlignment::Start => (offset, 0),
        AxisAlignment::End => (0, offset),
        AxisAlignment::Center => (0, 0),
    }
}

impl CornerAlignment {
    /// Parses a corner name such as `"topRight"` or `"bottomcenter"`.
    pub fn from_str(s: &str) -> (r: Self)
        ensures
            r == corner_from_name(s@),
    {
        proof {
            reveal_strlit("topleft");
            assert("topleft"@.len() == 7);
            reveal_strlit("topright");
            assert("topright"@.len() == 8);
            reveal_strlit("bottomleft");
            assert("bottomleft"@.len() == 10);
            reveal_strlit("bottomright");
            assert("bottomright"@.len() == 11);
            reveal_strlit("topcenter");
            assert("topcenter"@.len() == 9);
            reveal_strlit("bottomcenter");
            assert("bottomcenter"@.len() == 12);
            reveal_strlit("centerleft");
            assert("centerleft"@.len() == 10);
            reveal_strlit("centerright");
            assert("centerright"@.len() == 11);
        }
        let lower = to_ascii_lowercase(s);
        let l = lower.as_str();
        if str_eq(l, "topleft") {
            CornerAlignment { x: AxisAlignment::Start, y: AxisAlignment::Start }
        } else if str_eq(l, "topright") {
            CornerAlignment { x: AxisAlignment::End, y: AxisAlignment::Start }
        } else if str_eq(l, "bottomleft") {
            CornerAlignment { x: AxisAlignment::Start, y: AxisAlignment::End }
        } else if str_eq(l, "bottomright") {
            CornerAlignment { x: AxisAlignment::End, y: AxisAlignment::End }
        } else if str_eq(l, "topcenter") {
            CornerAlignment { x: AxisAlignment::Center, y: AxisAlignment::Start }
        } else if str_eq(l, "bottomcenter") {
            CornerAlignment { x: AxisAlignment::Center, y: AxisAlignment::End }
        } else if str_eq(l, "centerleft") {
            CornerAlignment { x: AxisAlignment::Start, y: AxisAlignment::Center }
        } else if str_eq(l, "centerright") {
            CornerAlignment { x: AxisAlignment::End, y: AxisAlignment::Center }
        } else {
            CornerAlignment { x: AxisAlignment::Start, y: AxisAlignment::Start }
        }
    }

    /// The padding that pushes the section away from its anchoring edges by
    /// the given offsets; a centred axis gets no padding.
    pub fn to_gaps(&self, offset_x: i32, offset_y: i32) -> (r: Gaps)
        ensures
            (r.top, r.bottom) == axis_gaps(self.y, offset_y),
            (r.left, r.right) == axis_gaps(self.x, offset_x),
    {
        let (top, bottom) = match self.y {
            AxisAlignment::Start => (offset_y, 0),
            AxisAlignment::End => (0, offset_y),
            AxisAlignment::Center => (0, 0),
        };
        let (left, right) = match self.x {
            AxisAlignment::Start => (offset_x, 0),
            AxisAlignment::End => (0, offset_x),
            AxisAlignment::Center => (0, 0),
        };
        Gaps { top, right, bottom, left }
    }
}

/// The user's settings, as stored in `config.json`.
#[derive(Debug, Clone, PartialEq)]
pub struct Config {
    pub overlay_keybind: Option<Vec<String>>,
    pub display_idx: Option<usize>,
    pub port: Option<u16>,
    pub message_alignment: Option<String>,
    pub user_alignment: Option<String>,
    pub message_offset_x: i32,
    pub message_offset_y: i32,
    pub user_offset_x: i32,
    pub user_offset_y: i32,
    pub display_voice_members: Option<DisplayVoiceMembers>,
    pub messages_semitransparent: bool,
    pub is_keybind_enabled: Option<bool>,
    pub transport_mode: TransportMode,
    pub software_rendering: Option<bool>,
    pub user_row_background: Option<String>,
    pub window_position: Option<(i32, i32)>,
}

/// The views of a list of strings.
pub open spec fn string_views(v: Seq<String>) -> Seq<Seq<char>> {
    v.map_values(|s: String| s@)
}

/// The keys that toggle the overlay unless the user chose others.
pub open spec fn default_overlay_toggle_names() -> Seq<Seq<char>> {
    seq!["CtrlLeft"@, "ShiftLeft"@, "KeyO"@]
}

/// The keys that quit the overlay.
pub open spec fn default_quit_names() -> Seq<Seq<char>> {
    seq!["ControlLeft"@, "KeyQ"@]
}

/// The key names of the default overlay toggle.
pub fn default_overlay_toggle() -> (r: Vec<String>)
    ensures
        string_views(r@) == default_overlay_toggle_names(),
{
    let mut v: Vec<String> = Vec::new();
    v.push(String::from_str("CtrlLeft"));
    v.push(String::from_str("ShiftLeft"));
    v.push(String::from_str("KeyO"));
    assert(string_views(v@) =~= default_overlay_toggle_names());
    v
}

/// The key names of the default quit binding.
pub fn default_quit() -> (r: Vec<String>)
    ensures
        string_views(r@) == default_quit_names(),
{
    let mut v: Vec<String> = Vec::new();
    v.push(String::from_str("ControlLeft"));
    v.push(String::from_str("KeyQ"));
    assert(string_views(v@) =~= default_quit_names());
    v
}

/// Whether an optional string holds exactly the given characters.
pub open spec fn opt_str_is(o: Option<String>, s: Seq<char>) -> bool {
    o matches Some(v) && v@ == s
}

/// The settings used before the user saved any.
pub open spec fn is_default_config(c: Config) -> bool {
    &&& c.overlay_keybind matches Some(k) && string_views(k@) == default_overlay_toggle_names()
    &&& c.display_idx is None
    &&& c.port == Some(6888u16)
    &&& opt_str_is(c.message_alignment, "topleft"@)
    &&& opt_str_is(c.user_alignment, "topright"@)
    &&& c.message_offset_x == 0
    &&& c.message_offset_y == 0
    &&& c.user_offset_x == 25
    &&& c.user_offset_y == 95
    &&& c.display_voice_members == Some(DisplayVoiceMembers::AlwaysSemiTransparent)
    &&& !c.messages_semitransparent
    &&& c.is_keybind_enabled is None
    &&& c.transport_mode == TransportMode::Ipc
    &&& c.software_rendering is None
    &&& opt_str_is(c.user_row_background, "#252B32"@)
    &&& c.window_position is None
}

impl Default for Config {
    fn default() -> (r: Self)
        ensures
            is_default_config(r),
    {
        Config {
            overlay_keybind: Some(default_overlay_toggle()),
            display_idx: None,
            port: Some(6888),
            message_alignment: Some(String::from_str("topleft")),
            user_alignment: Some(String::from_str("topright")),
            message_offset_x: 0,
            message_offset_y: 0,
            user_offset_x: 25,
            user_offset_y: 95,
            display_voice_members: Some(DisplayVoiceMembers::AlwaysSemiTransparent),
            messages_semitransparent: false,
            is_keybind_enabled: None,
            transport_mode: TransportMode::Ipc,
            software_rendering: None,
            user_row_background: Some(String::from_str("#252B32")),
            window_position: None,
        }
    }
}

/// Whether this is the first run: no saved configuration could be loaded.
pub fn is_first_run(loaded: &Option<Config>) -> (r: bool)
    ensures
        r == (loaded is None),
{
    loaded.is_none()
}

/// A transport mode survives being shown and read back.
pub proof fn transport_mode_name_round_trip(m: TransportMode)
    ensures
        transport_mode_from_name(transport_mode_name(m)) == m,
{
    reveal_strlit("ipc");
    reveal_strlit("websocket");
    assert("ipc"@.len() == 3);
    assert("websocket"@.len() == 9);
}

/// A voice-member display mode survives being shown and read back.
pub proof fn display_voice_members_name_round_trip(m: DisplayVoiceMembers)
    ensures
        display_voice_members_from_name(display_voice_members_name(m)) == m,
{
    reveal_strlit("always (opaque)");
    reveal_strlit("always (transparent)");
    reveal_strlit("only when speaking");
    assert("always (opaque)"@.len() == 15);
    assert("always (transparent)"@.len() == 20);
    assert("only when speaking"@.len() == 18);
}

/// Lower-casing twice is lower-casing once.
pub proof fn ascii_lower_idempotent(s: Seq<char>)
    ensures
        ascii_lower(ascii_lower(s)) == ascii_lower(s),
{
    assert(ascii_lower(ascii_lower(s)) =~= ascii_lower(s));
}

/// Corner names are read without regard to ASCII case.
pub proof fn corner_name_case_insensitive(s: Seq<char>)
    ensures
        corner_from_name(s) == corner_from_name(ascii_lower(s)),
{
    ascii_lower_idempotent(s);
}

} // verus!
