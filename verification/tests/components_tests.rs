use orbolay::colors::DARKISH_BLUE;
use orbolay::components::{
    avatar_url_and_border, axis_multiplier, can_context_menu, label_icons, row_background,
    row_opacity_percent, sorted_by_id, str_lt, visible_voice_users, LabelIcons,
};
use orbolay::components::{user_row_style, voice_section_layout};
use orbolay::config::{AxisAlignment, CornerAlignment, DisplayVoiceMembers, Gaps, TransportMode};
use orbolay::user::{User, UserVoiceState, FULL_VOLUME_BITS};

fn user(id: &str, name: &str, state: UserVoiceState) -> User {
    User {
        name: name.to_string(),
        id: id.to_string(),
        avatar: String::new(),
        voice_state: state,
        streaming: false,
        camera: false,
        volume_bits: FULL_VOLUME_BITS,
    }
}

fn names(v: &[User]) -> Vec<String> {
    v.iter().map(|u| u.name.clone()).collect()
}

#[test]
fn string_order_is_code_point_order() {
    assert!(str_lt("10", "9"));
    assert!(str_lt("", "a"));
    assert!(!str_lt("a", "a"));
    assert!(str_lt("ab", "abc"));
    assert!(str_lt("Z", "a"));
    assert!(str_lt("a", "\u{e9}"));
    assert_eq!(str_lt("\u{e9}", "\u{10000}"), "\u{e9}".cmp("\u{10000}").is_lt());
}

#[test]
fn sorted_by_id_is_stable() {
    let v = vec![
        user("3", "c", UserVoiceState::Speaking),
        user("1", "a1", UserVoiceState::Muted),
        user("2", "b", UserVoiceState::NotSpeaking),
        user("1", "a2", UserVoiceState::Speaking),
    ];
    assert_eq!(names(&sorted_by_id(&v)), vec!["a1", "a2", "b", "c"]);
}

#[test]
fn visible_users_by_mode() {
    let v = vec![
        user("b", "b", UserVoiceState::Speaking),
        user("a", "a", UserVoiceState::Muted),
        user("c", "c", UserVoiceState::NotSpeaking),
    ];
    assert_eq!(names(&visible_voice_users(&v, DisplayVoiceMembers::Always, false)), vec!["a", "b", "c"]);
    assert_eq!(
        names(&visible_voice_users(&v, DisplayVoiceMembers::AlwaysSemiTransparent, false)),
        vec!["a", "b", "c"]
    );
    assert_eq!(names(&visible_voice_users(&v, DisplayVoiceMembers::WhenSpeaking, false)), vec!["b"]);
    assert_eq!(
        names(&visible_voice_users(&v, DisplayVoiceMembers::WhenSpeaking, true)),
        vec!["a", "b", "c"]
    );
}

#[test]
fn avatar_urls_and_rings() {
    let mut u = user("12", "n", UserVoiceState::Speaking);
    assert_eq!(avatar_url_and_border(&u), (String::new(), Some((47, 186, 139))));
    u.avatar = "abc".to_string();
    u.voice_state = UserVoiceState::Muted;
    assert_eq!(
        avatar_url_and_border(&u),
        ("https://cdn.discordapp.com/avatars/12/abc.png?size=80".to_string(), Some((218, 62, 68)))
    );
    u.voice_state = UserVoiceState::Deafened;
    assert_eq!(avatar_url_and_border(&u).1, Some((218, 62, 68)));
    u.voice_state = UserVoiceState::NotSpeaking;
    assert_eq!(avatar_url_and_border(&u).1, None);
}

#[test]
fn row_looks() {
    assert_eq!(row_background(&None), DARKISH_BLUE);
    assert_eq!(row_background(&Some("#000000".to_string())), 0xFF000000);
    assert_eq!(row_background(&Some("nonsense".to_string())), DARKISH_BLUE);
    let silent = user("1", "a", UserVoiceState::NotSpeaking);
    let speaking = user("2", "b", UserVoiceState::Speaking);
    assert_eq!(row_opacity_percent(&silent, true, false), 75);
    assert_eq!(row_opacity_percent(&silent, true, true), 90);
    assert_eq!(row_opacity_percent(&silent, false, false), 90);
    assert_eq!(row_opacity_percent(&speaking, true, false), 90);
    let mut u = user("1", "a", UserVoiceState::Muted);
    u.streaming = true;
    assert_eq!(label_icons(&u), LabelIcons { muted: true, deafened: false, streaming: true });
}

#[test]
fn menu_directions_and_context_menu() {
    assert_eq!(axis_multiplier(AxisAlignment::Start), 1);
    assert_eq!(axis_multiplier(AxisAlignment::End), -1);
    assert_eq!(axis_multiplier(AxisAlignment::Center), 0);
    assert!(can_context_menu(&"me".to_string(), &"you".to_string(), TransportMode::Ipc));
    assert!(!can_context_menu(&"me".to_string(), &"me".to_string(), TransportMode::Ipc));
    assert!(!can_context_menu(&"me".to_string(), &"you".to_string(), TransportMode::Websocket));
}

fn row_names(l: &orbolay::components::VoiceSectionLayout) -> Vec<String> {
    l.rows.iter().map(|r| r.user.name.clone()).collect()
}

fn masked(name: &String) -> String {
    format!("<{}>", name.len())
}

#[test]
fn voice_section_layout_bottom_right() {
    let v = vec![
        user("b", "b", UserVoiceState::NotSpeaking),
        user("a", "a", UserVoiceState::Speaking),
    ];
    let bg = Some("#112233".to_string());
    let me = "a".to_string();
    let l = voice_section_layout(
        &v,
        false,
        false,
        "BottomRight",
        25,
        95,
        DisplayVoiceMembers::WhenSpeaking,
        &bg,
        &me,
        TransportMode::Ipc,
        masked,
    );
    assert_eq!(l.alignment, CornerAlignment { x: AxisAlignment::End, y: AxisAlignment::End });
    assert_eq!(l.gaps, Gaps { top: 0, right: 25, bottom: 95, left: 0 });
    assert!(l.is_right_aligned);
    assert_eq!((l.x_mult, l.y_mult), (-1, -1));
    assert!(!l.is_voice_semitransparent);
    assert_eq!(row_names(&l), vec!["a"]);
    let r = &l.rows[0];
    assert!(r.is_right_aligned && !r.is_open && !r.is_voice_semitransparent);
    assert_eq!((r.x_mult, r.y_mult), (-1, -1));
    assert_eq!(r.background, bg);
    assert!(!r.can_context_menu);
    let l = voice_section_layout(
        &v,
        false,
        false,
        "centerleft",
        5,
        6,
        DisplayVoiceMembers::AlwaysSemiTransparent,
        &None,
        &me,
        TransportMode::Ipc,
        masked,
    );
    assert_eq!(l.gaps, Gaps { top: 0, right: 0, bottom: 0, left: 5 });
    assert!(!l.is_right_aligned);
    assert_eq!((l.x_mult, l.y_mult), (1, 0));
    assert!(l.is_voice_semitransparent);
    assert_eq!(row_names(&l), vec!["a", "b"]);
    assert!(!l.rows[0].can_context_menu);
    assert!(l.rows[1].can_context_menu);
    assert!(l.rows[1].is_voice_semitransparent);
    assert_eq!(l.rows[1].background, None);
}

#[test]
fn voice_section_layout_streamer_mode_censors_names() {
    let v = vec![
        user("2", "Bobby", UserVoiceState::Speaking),
        user("1", "Al", UserVoiceState::Muted),
    ];
    let me = "1".to_string();
    let l = voice_section_layout(
        &v,
        true,
        true,
        "topleft",
        0,
        0,
        DisplayVoiceMembers::Always,
        &None,
        &me,
        TransportMode::Websocket,
        masked,
    );
    assert_eq!(row_names(&l), vec!["<2>", "<5>"]);
    assert_eq!(l.rows[0].user.id, "1");
    assert_eq!(l.rows[0].user.voice_state, UserVoiceState::Muted);
    assert!(l.rows.iter().all(|r| r.is_open && !r.can_context_menu));
}

#[test]
fn user_row_style_combines_looks() {
    let mut u = user("5", "n", UserVoiceState::Deafened);
    u.avatar = "h".to_string();
    let s = user_row_style(&u, false, true, &Some("#102030".to_string()));
    assert_eq!(s.background, 0xFF102030);
    assert_eq!(s.opacity_percent, 75);
    assert_eq!(s.avatar_url, "https://cdn.discordapp.com/avatars/5/h.png?size=80");
    assert_eq!(s.border, Some((218, 62, 68)));
    assert_eq!(s.icons, LabelIcons { muted: false, deafened: true, streaming: false });
}
