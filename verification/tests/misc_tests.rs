use orbolay::config::{Config, TransportMode};
use orbolay::display::{specific_monitor_or_primary, window_extent, DisplaySpec};
use orbolay::image::{
    avatar_image_key, border_key, plan_icon_fetch, processed_avatar_plan, AvatarCache, IconPlan,
    ProcessedAvatarPlan,
};
use orbolay::keys::{default_keybinds, KeyEvent, Keybind};
use orbolay::overlay::{current_user, handle_key_event, KeyAction};
use orbolay::sync::{config_event_relevant, config_reload_step, sync_from_shared};
use orbolay::process::{is_already_running, str_contains, ProcessEntry};
use orbolay::user::{User, UserVoiceState, FULL_VOLUME_BITS};
use orbolay::websocket::AppState;

fn disp(primary: bool) -> DisplaySpec {
    DisplaySpec { x: 0, y: 0, width: 1920, height: 1080, is_primary: primary }
}

#[test]
fn monitor_choice() {
    let d = vec![disp(false), disp(true), disp(true)];
    assert_eq!(specific_monitor_or_primary(Some(0), &d), 0);
    assert_eq!(specific_monitor_or_primary(Some(2), &d), 2);
    assert_eq!(specific_monitor_or_primary(Some(3), &d), 1);
    assert_eq!(specific_monitor_or_primary(None, &d), 1);
    let none_primary = vec![disp(false), disp(false)];
    assert_eq!(specific_monitor_or_primary(None, &none_primary), 0);
    assert_eq!(window_extent(1920, 1080), (1921, 1079));
    assert_eq!(window_extent(u32::MAX, 1), (u32::MAX as u64 + 1, 0));
}

#[test]
fn running_instance_detection() {
    let procs = vec![
        ProcessEntry { name: Some("bash".to_string()), pid: 1 },
        ProcessEntry { name: Some("Lumina".to_string()), pid: 42 },
    ];
    assert!(!is_already_running(&procs, 42));
    assert!(is_already_running(&procs, 7));
    let procs = vec![ProcessEntry { name: None, pid: 3 }, ProcessEntry { name: Some("xLUMINAx".to_string()), pid: 5 }];
    assert!(is_already_running(&procs, 1));
    assert!(!is_already_running(&Vec::new(), 1));
    assert!(str_contains("abc", ""));
    assert!(!str_contains("lumin", "lumina"));
}

#[test]
fn keybind_matching() {
    let mut k = Keybind::new(vec!["ShiftLeft".to_string(), "KeyO".to_string()], KeyEvent::ToggleOverlay);
    assert!(!k.active());
    let pressed = vec!["KeyO".to_string(), "ShiftLeft".to_string(), "KeyA".to_string()];
    assert!(k.matches(&pressed));
    assert!(!k.matches(&pressed[..1]));
    k.set_active(true);
    assert!(k.active());
    k.reset();
    assert!(!k.active());
    let empty = Keybind::new(Vec::new(), KeyEvent::Quit);
    assert!(!empty.matches(&pressed));
}

#[test]
fn default_bindings() {
    let b = default_keybinds(vec!["KeyO".to_string()], vec!["ControlLeft".to_string(), "KeyQ".to_string()]);
    assert_eq!(b.len(), 4);
    assert_eq!(b[0].event, KeyEvent::ToggleOverlay);
    assert_eq!(b[0].keys, vec!["KeyO"]);
    assert_eq!(b[1].keys, vec!["Escape"]);
    assert_eq!(b[1].event, KeyEvent::CloseOverlay);
    assert_eq!(b[2].keys, vec!["KeyC"]);
    assert_eq!(b[2].event, KeyEvent::OpenConfigurator);
    assert_eq!(b[3].keys, vec!["ControlLeft", "KeyQ"]);
    assert_eq!(b[3].event, KeyEvent::Quit);
    assert!(b.iter().all(|k| !k.active()));
}

fn app_state() -> AppState {
    AppState {
        voice_users: Vec::new(),
        current_channel: String::new(),
        user_id: "me".to_string(),
        is_censor: false,
        is_open: false,
        config: Config::default(),
    }
}

#[test]
fn key_events() {
    let mut s = app_state();
    assert_eq!(handle_key_event(&mut s, KeyEvent::ToggleOverlay), KeyAction::Nothing);
    assert!(s.is_open);
    assert_eq!(handle_key_event(&mut s, KeyEvent::ToggleOverlay), KeyAction::Nothing);
    assert!(!s.is_open);
    assert_eq!(handle_key_event(&mut s, KeyEvent::OpenConfigurator), KeyAction::Nothing);
    assert!(!s.is_open);
    s.is_open = true;
    assert_eq!(handle_key_event(&mut s, KeyEvent::OpenConfigurator), KeyAction::OpenConfigurator);
    assert!(!s.is_open);
    s.is_open = true;
    assert_eq!(handle_key_event(&mut s, KeyEvent::CloseOverlay), KeyAction::Nothing);
    assert!(!s.is_open);
    assert_eq!(handle_key_event(&mut s, KeyEvent::Quit), KeyAction::Quit);
}

#[test]
fn local_user_lookup() {
    let mut s = app_state();
    assert_eq!(current_user(&s), None);
    for id in ["x", "me", "me"] {
        s.voice_users.push(User {
            name: id.to_string(),
            id: id.to_string(),
            avatar: String::new(),
            voice_state: UserVoiceState::NotSpeaking,
            streaming: false,
            camera: false,
            volume_bits: FULL_VOLUME_BITS,
        });
    }
    assert_eq!(current_user(&s), Some(1));
}

#[test]
fn avatar_cache_and_keys() {
    assert_eq!(border_key(None), None);
    assert_eq!(border_key(Some((0xFF, 0x2F, 0xBA, 0x8B))), Some(0xFF2FBA8B));
    let mut c = AvatarCache::new();
    assert_eq!(c.get("u"), None);
    c.insert("u".to_string(), vec![1, 2]);
    c.insert("v".to_string(), vec![3]);
    assert_eq!(c.get("u"), Some(vec![1, 2]));
    c.insert("u".to_string(), vec![9]);
    assert_eq!(c.get("u"), Some(vec![9]));
    assert_eq!(c.get("v"), Some(vec![3]));
    assert!(matches!(plan_icon_fetch(&c, "v", true), IconPlan::Cached(ref b) if b == &vec![3]));
    assert!(matches!(plan_icon_fetch(&c, "", true), IconPlan::Placeholder));
    assert!(matches!(plan_icon_fetch(&c, "", false), IconPlan::Fetch));
    assert!(matches!(plan_icon_fetch(&c, "w", true), IconPlan::Fetch));
}

#[test]
fn config_reload_steps() {
    assert!(config_event_relevant(true, true));
    assert!(!config_event_relevant(true, false));
    assert!(!config_event_relevant(false, true));
    let mut s = app_state();
    let mut c = Config::default();
    c.transport_mode = TransportMode::Websocket;
    assert!(!config_reload_step(&mut s, false, true, Some(c.clone())));
    assert_eq!(s.config.transport_mode, TransportMode::Ipc);
    assert!(!config_reload_step(&mut s, true, true, None));
    assert_eq!(s.config.transport_mode, TransportMode::Ipc);
    assert!(config_reload_step(&mut s, true, true, Some(c)));
    assert_eq!(s.config.transport_mode, TransportMode::Websocket);
}

#[test]
fn redraw_sync_keeps_open_flag() {
    let mut local = app_state();
    local.is_open = true;
    let mut shared = app_state();
    shared.is_open = false;
    shared.is_censor = true;
    shared.current_channel = "c".to_string();
    shared.user_id = "someone".to_string();
    sync_from_shared(&mut local, shared);
    assert!(local.is_open);
    assert!(local.is_censor);
    assert_eq!(local.current_channel, "c");
    assert_eq!(local.user_id, "someone");
}

#[test]
fn processed_avatar_plans() {
    assert_eq!(processed_avatar_plan(&Vec::new()), ProcessedAvatarPlan::UseDefault);
    assert_eq!(processed_avatar_plan(&vec![1]), ProcessedAvatarPlan::DecodeAndCache);
    assert_eq!(avatar_image_key("u", Some((1, 2, 3, 4))), ("u".to_string(), Some(0x01020304)));
    assert_eq!(avatar_image_key("", None), (String::new(), None));
}
