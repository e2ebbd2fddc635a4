use orbolay::config::{
    is_first_run, AxisAlignment, Config, CornerAlignment, DisplayVoiceMembers, Gaps, TransportMode,
};

#[test]
fn corner_alignment_names() {
    assert_eq!(
        CornerAlignment::from_str("topleft"),
        CornerAlignment { x: AxisAlignment::Start, y: AxisAlignment::Start }
    );
    assert_eq!(
        CornerAlignment::from_str("TopRight"),
        CornerAlignment { x: AxisAlignment::End, y: AxisAlignment::Start }
    );
    assert_eq!(
        CornerAlignment::from_str("BOTTOMLEFT"),
        CornerAlignment { x: AxisAlignment::Start, y: AxisAlignment::End }
    );
    assert_eq!(
        CornerAlignment::from_str("bottomRight"),
        CornerAlignment { x: AxisAlignment::End, y: AxisAlignment::End }
    );
    assert_eq!(
        CornerAlignment::from_str("topcenter"),
        CornerAlignment { x: AxisAlignment::Center, y: AxisAlignment::Start }
    );
    assert_eq!(
        CornerAlignment::from_str("bottomcenter"),
        CornerAlignment { x: AxisAlignment::Center, y: AxisAlignment::End }
    );
    assert_eq!(
        CornerAlignment::from_str("centerLeft"),
        CornerAlignment { x: AxisAlignment::Start, y: AxisAlignment::Center }
    );
    assert_eq!(
        CornerAlignment::from_str("centerright"),
        CornerAlignment { x: AxisAlignment::End, y: AxisAlignment::Center }
    );
}

#[test]
fn corner_alignment_unknown_is_top_left() {
    let top_left = CornerAlignment { x: AxisAlignment::Start, y: AxisAlignment::Start };
    assert_eq!(CornerAlignment::from_str(""), top_left);
    assert_eq!(CornerAlignment::from_str("middle"), top_left);
    assert_eq!(CornerAlignment::from_str(" topright"), top_left);
    assert_eq!(CornerAlignment::from_str("topriGHT\u{0}"), top_left);
}

#[test]
fn gaps_follow_anchoring() {
    let top_right = CornerAlignment::from_str("topright");
    assert_eq!(top_right.to_gaps(25, 95), Gaps { top: 95, right: 25, bottom: 0, left: 0 });
    let bottom_left = CornerAlignment::from_str("bottomleft");
    assert_eq!(bottom_left.to_gaps(-3, 7), Gaps { top: 0, right: 0, bottom: 7, left: -3 });
    let centered = CornerAlignment { x: AxisAlignment::Center, y: AxisAlignment::Center };
    assert_eq!(centered.to_gaps(10, 10), Gaps { top: 0, right: 0, bottom: 0, left: 0 });
}

#[test]
fn transport_mode_names() {
    assert_eq!(TransportMode::Ipc.to_string(), "ipc");
    assert_eq!(TransportMode::Websocket.to_string(), "websocket");
    assert_eq!(TransportMode::from("websocket".to_string()), TransportMode::Websocket);
    assert_eq!(TransportMode::from("ipc".to_string()), TransportMode::Ipc);
    assert_eq!(TransportMode::from("Websocket".to_string()), TransportMode::Ipc);
    assert_eq!(TransportMode::default(), TransportMode::Ipc);
}

#[test]
fn display_voice_members_names() {
    for m in [
        DisplayVoiceMembers::Always,
        DisplayVoiceMembers::AlwaysSemiTransparent,
        DisplayVoiceMembers::WhenSpeaking,
    ] {
        assert_eq!(DisplayVoiceMembers::from(m.to_string()), m);
    }
    assert_eq!(DisplayVoiceMembers::Always.to_string(), "always (opaque)");
    assert_eq!(DisplayVoiceMembers::from("sometimes".to_string()), DisplayVoiceMembers::Always);
    assert_eq!(DisplayVoiceMembers::default(), DisplayVoiceMembers::AlwaysSemiTransparent);
    assert_eq!(AxisAlignment::Center.to_string(), "center");
}

#[test]
fn default_config() {
    let c = Config::default();
    assert_eq!(
        c.overlay_keybind,
        Some(vec!["CtrlLeft".to_string(), "ShiftLeft".to_string(), "KeyO".to_string()])
    );
    assert_eq!(c.display_idx, None);
    assert_eq!(c.port, Some(6888));
    assert_eq!(c.message_alignment.as_deref(), Some("topleft"));
    assert_eq!(c.user_alignment.as_deref(), Some("topright"));
    assert_eq!((c.message_offset_x, c.message_offset_y), (0, 0));
    assert_eq!((c.user_offset_x, c.user_offset_y), (25, 95));
    assert_eq!(c.display_voice_members, Some(DisplayVoiceMembers::AlwaysSemiTransparent));
    assert!(!c.messages_semitransparent);
    assert_eq!(c.is_keybind_enabled, None);
    assert_eq!(c.transport_mode, TransportMode::Ipc);
    assert_eq!(c.software_rendering, None);
    assert_eq!(c.user_row_background.as_deref(), Some("#252B32"));
    assert_eq!(c.window_position, None);
}

#[test]
fn first_run_when_nothing_loaded() {
    assert!(is_first_run(&None));
    assert!(!is_first_run(&Some(Config::default())));
}
