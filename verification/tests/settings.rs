use serde_json::Value;
use systembridge::settings::{
    create_settings, get_settings, load_settings, log_level, parse_settings, update_settings,
    LogLevel, Settings, SettingsAPI, SettingsKeyboardHotkeys, SettingsMedia,
    SettingsMediaDirectories, DEFAULT_PORT,
};

fn json(text: &str) -> Value {
    serde_json::from_str(text).unwrap()
}

const FULL: &str = "{\"api\":{\"token\":\"abc\",\"port\":9170},\"autostart\":true,\
\"keyboard_hotkeys\":[{\"name\":\"mute\",\"key\":\"F1\"},{\"name\":\"play\",\"key\":\"F2\"}],\
\"log_level\":\"DEBUG\",\"media\":{\"directories\":[{\"name\":\"music\",\"path\":\"/m\"}]}}";

fn full() -> Settings {
    Settings {
        api: SettingsAPI { token: "abc".to_string(), port: 9170 },
        autostart: true,
        keyboard_hotkeys: vec![
            SettingsKeyboardHotkeys { name: "mute".to_string(), key: "F1".to_string() },
            SettingsKeyboardHotkeys { name: "play".to_string(), key: "F2".to_string() },
        ],
        log_level: "DEBUG".to_string(),
        media: SettingsMedia {
            directories: vec![SettingsMediaDirectories {
                name: "music".to_string(),
                path: "/m".to_string(),
            }],
        },
    }
}

#[test]
fn fresh_settings_have_the_defaults() {
    let settings = create_settings("tok".to_string());
    assert_eq!(settings.api.token, "tok");
    assert_eq!(settings.api.port, 9170);
    assert_eq!(DEFAULT_PORT, 9170);
    assert!(!settings.autostart);
    assert!(settings.keyboard_hotkeys.is_empty());
    assert_eq!(settings.log_level, "INFO");
    assert!(settings.media.directories.is_empty());
}

#[test]
fn settings_are_read_out_of_json() {
    assert_eq!(Settings::from_json(&json(FULL)), Some(full()));
    assert_eq!(parse_settings(FULL), Some(full()));
}

#[test]
fn settings_ignore_members_they_do_not_know() {
    let text = "{\"api\":{\"token\":\"t\",\"port\":-1,\"x\":1},\"autostart\":false,\
\"keyboard_hotkeys\":[],\"log_level\":\"whatever\",\"media\":{\"directories\":[]},\"extra\":[1]}";
    let settings = parse_settings(text).unwrap();
    assert_eq!(settings.api.port, -1);
    assert_eq!(settings.log_level, "whatever");
    assert_eq!(settings.api.token, "t");
}

#[test]
fn settings_need_every_member_with_its_type() {
    let missing = [
        "{\"autostart\":true,\"keyboard_hotkeys\":[],\"log_level\":\"INFO\",\"media\":{\"directories\":[]}}",
        "{\"api\":{\"port\":1},\"autostart\":true,\"keyboard_hotkeys\":[],\"log_level\":\"INFO\",\"media\":{\"directories\":[]}}",
        "{\"api\":{\"token\":\"t\"},\"autostart\":true,\"keyboard_hotkeys\":[],\"log_level\":\"INFO\",\"media\":{\"directories\":[]}}",
        "{\"api\":{\"token\":\"t\",\"port\":1},\"keyboard_hotkeys\":[],\"log_level\":\"INFO\",\"media\":{\"directories\":[]}}",
        "{\"api\":{\"token\":\"t\",\"port\":1},\"autostart\":true,\"log_level\":\"INFO\",\"media\":{\"directories\":[]}}",
        "{\"api\":{\"token\":\"t\",\"port\":1},\"autostart\":true,\"keyboard_hotkeys\":[],\"media\":{\"directories\":[]}}",
        "{\"api\":{\"token\":\"t\",\"port\":1},\"autostart\":true,\"keyboard_hotkeys\":[],\"log_level\":\"INFO\"}",
        "{\"api\":{\"token\":\"t\",\"port\":1},\"autostart\":true,\"keyboard_hotkeys\":[],\"log_level\":\"INFO\",\"media\":{}}",
    ];
    for text in missing {
        assert_eq!(parse_settings(text), None, "{}", text);
    }
    let mistyped = [
        "{\"api\":{\"token\":1,\"port\":1},\"autostart\":true,\"keyboard_hotkeys\":[],\"log_level\":\"INFO\",\"media\":{\"directories\":[]}}",
        "{\"api\":{\"token\":\"t\",\"port\":\"1\"},\"autostart\":true,\"keyboard_hotkeys\":[],\"log_level\":\"INFO\",\"media\":{\"directories\":[]}}",
        "{\"api\":{\"token\":\"t\",\"port\":1.5},\"autostart\":true,\"keyboard_hotkeys\":[],\"log_level\":\"INFO\",\"media\":{\"directories\":[]}}",
        "{\"api\":{\"token\":\"t\",\"port\":1},\"autostart\":1,\"keyboard_hotkeys\":[],\"log_level\":\"INFO\",\"media\":{\"directories\":[]}}",
        "{\"api\":{\"token\":\"t\",\"port\":1},\"autostart\":true,\"keyboard_hotkeys\":{},\"log_level\":\"INFO\",\"media\":{\"directories\":[]}}",
        "{\"api\":{\"token\":\"t\",\"port\":1},\"autostart\":true,\"keyboard_hotkeys\":[{\"name\":\"a\"}],\"log_level\":\"INFO\",\"media\":{\"directories\":[]}}",
        "{\"api\":{\"token\":\"t\",\"port\":1},\"autostart\":true,\"keyboard_hotkeys\":[],\"log_level\":null,\"media\":{\"directories\":[]}}",
        "{\"api\":{\"token\":\"t\",\"port\":1},\"autostart\":true,\"keyboard_hotkeys\":[],\"log_level\":\"INFO\",\"media\":{\"directories\":[{\"name\":\"a\",\"path\":2}]}}",
        "[]",
        "null",
    ];
    for text in mistyped {
        assert_eq!(parse_settings(text), None, "{}", text);
    }
}

#[test]
fn a_text_that_is_no_json_holds_no_settings() {
    assert_eq!(parse_settings(""), None);
    assert_eq!(parse_settings("{"), None);
}

#[test]
fn settings_come_from_the_file_where_it_holds_them() {
    let loaded = load_settings(Some(FULL), "fresh".to_string());
    assert!(!loaded.created);
    assert_eq!(loaded.settings, full());
}

#[test]
fn settings_are_made_fresh_where_the_file_does_not_hold_them() {
    let loaded = load_settings(None, "fresh".to_string());
    assert!(loaded.created);
    assert_eq!(loaded.settings, create_settings("fresh".to_string()));
    let loaded = load_settings(Some("garbage"), "fresh".to_string());
    assert!(loaded.created);
    assert_eq!(loaded.settings.api.token, "fresh");
    let loaded = load_settings(Some("{}"), "fresh".to_string());
    assert!(loaded.created);
}

#[test]
fn get_settings_makes_a_token_of_its_own() {
    let first = get_settings(None);
    let second = get_settings(None);
    assert!(first.created && second.created);
    assert_eq!(first.settings.api.token.len(), 36);
    assert_ne!(first.settings.api.token, second.settings.api.token);
    assert_eq!(first.settings.api.port, 9170);
    let kept = get_settings(Some(FULL));
    assert!(!kept.created);
    assert_eq!(kept.settings, full());
}

#[test]
fn update_replaces_the_settings_whole() {
    let mut settings = create_settings("old".to_string());
    update_settings(&mut settings, full());
    assert_eq!(settings, full());
}

#[test]
fn cloned_settings_are_equal() {
    assert_eq!(full().clone(), full());
    assert_eq!(full().media.clone(), full().media);
    assert_eq!(full().api.clone(), full().api);
}

#[test]
fn log_levels() {
    assert_eq!(log_level("TRACE"), LogLevel::Trace);
    assert_eq!(log_level("DEBUG"), LogLevel::Debug);
    assert_eq!(log_level("INFO"), LogLevel::Info);
    assert_eq!(log_level("WARNING"), LogLevel::Warn);
    assert_eq!(log_level("ERROR"), LogLevel::Error);
    assert_eq!(log_level("CRITICAL"), LogLevel::Off);
    assert_eq!(log_level("info"), LogLevel::Info);
    assert_eq!(log_level("trace"), LogLevel::Info);
    assert_eq!(log_level(""), LogLevel::Info);
}
