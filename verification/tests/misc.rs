use serde_json::Value;
use systembridge::api::{
    api, data, is_valid, not_found, root, Token, TokenError, TOKEN_ERROR_STATUS,
};
use systembridge::cpu::{get_frequency, CPUFrequency};
use systembridge::gui::{asks_to_close, page_title_map, window_label, window_title, window_url};
use systembridge::modules::Module;
use systembridge::resources::{announces_start, packaged_path, start_application};
use systembridge::run::{collected_modules, run_options, RunOptions, COLLECT_INTERVAL_SECS};
use systembridge::settings::create_settings;
use systembridge::shared::{backend_log_path, get_data_path, log_path, settings_path};
use systembridge::store::ModuleStore;
use systembridge::websocket_client::WebSocketClient;

fn json(text: &str) -> Value {
    serde_json::from_str(text).unwrap()
}

#[test]
fn fixed_answers() {
    let error = not_found();
    assert_eq!(error.code, 404);
    assert_eq!(error.message, "Not Found");
    assert_eq!(root().message, "Hello!");
    let answer = api(Token("t"), "5.0.0");
    assert_eq!(answer.message, "Hello!");
    assert_eq!(answer.version, "5.0.0");
    assert_eq!(TOKEN_ERROR_STATUS, 400);
}

#[test]
fn token_check() {
    let settings = create_settings("secret".to_string());
    assert!(is_valid("secret", &settings));
    assert!(!is_valid("Secret", &settings));
    assert!(!is_valid("", &settings));
    assert_eq!(Token::from_request(Some("secret"), &settings), Ok(Token("secret")));
    assert_eq!(Token::from_request(Some("other"), &settings), Err(TokenError::Invalid));
    assert_eq!(Token::from_request(Some(""), &settings), Err(TokenError::Invalid));
    assert_eq!(Token::from_request(None, &settings), Err(TokenError::Missing));
}

#[test]
fn data_route() {
    let mut store = ModuleStore::new();
    store.write(Module::CPU, json("{\"usage\":3}"), 1);
    assert_eq!(data(Token("t"), "cpu", &store), Some(json("{\"usage\":3}")));
    assert_eq!(data(Token("t"), "battery", &store), None);
    assert_eq!(data(Token("t"), "bogus", &store), None);
}

#[test]
fn program_paths() {
    assert_eq!(get_data_path("/home/u/.local/share/timmo001"), "/home/u/.local/share/timmo001/systembridge");
    assert_eq!(settings_path("/d"), "/d/settings.json");
    assert_eq!(log_path("/d"), "/d/systembridge.log");
    assert_eq!(backend_log_path("/d"), "/d/systembridgebackend.log");
}

#[test]
fn executables_are_looked_for_in_order() {
    assert_eq!(packaged_path("a/b"), "/usr/lib/system-bridge/a/b");
    assert_eq!(start_application("a/b", true, true, "/opt/app"), "/usr/lib/system-bridge/a/b");
    assert_eq!(start_application("a/b", true, false, "/opt/app"), "/opt/app/a/b");
    assert_eq!(start_application("a/b", false, true, "/opt/app"), "/opt/app/a/b");
    assert_eq!(start_application("a/b", false, false, "/opt/app"), "/opt/app/a/b");
    assert!(announces_start("systembridgebackend"));
    assert!(!announces_start("/x/systembridgecli"));
}

#[test]
fn window_titles_and_addresses() {
    assert_eq!(
        page_title_map(),
        vec![("data", "Data"), ("settings", "Settings"), ("notification", "Notification")]
    );
    assert_eq!(window_title("data"), Some("Data | System Bridge".to_string()));
    assert_eq!(window_title("settings"), Some("Settings | System Bridge".to_string()));
    assert_eq!(window_title("notification"), Some("Notification | System Bridge".to_string()));
    assert_eq!(window_title("other"), None);
    assert_eq!(
        window_url(9170, "data", "tok", None),
        "http://127.0.0.1:9170/app/data.html?apiPort=9170&token=tok"
    );
    assert_eq!(
        window_url(1, "notification", "t", Some("&title=x")),
        "http://127.0.0.1:1/app/notification.html?apiPort=1&token=t&title=x"
    );
}

#[test]
fn each_page_has_its_window() {
    assert_eq!(window_label("notification"), "notification");
    assert_eq!(window_label("data"), "main");
    assert_eq!(window_label("settings"), "main");
    assert_eq!(window_label("other"), "main");
    assert_eq!(window_label(""), "main");
    assert_eq!(window_label("Notification"), "main");
    assert!(asks_to_close("http://127.0.0.1:9170/app/close.window"));
    assert!(asks_to_close("close.window?x=1"));
    assert!(!asks_to_close("http://127.0.0.1:9170/app/data.html"));
    assert!(!asks_to_close("close-window"));
}

#[test]
fn client_address() {
    let client = WebSocketClient::new(create_settings("t".to_string()));
    assert_eq!(client.url(), "ws://127.0.0.1:9170/api/websocket");
    assert_eq!(client.settings.api.token, "t");
}

#[test]
fn command_line_options() {
    let args = |list: &[&str]| list.iter().map(|s| s.to_string()).collect::<Vec<String>>();
    assert_eq!(run_options(&args(&["prog"])), RunOptions { cli: false, no_gui: false });
    assert_eq!(run_options(&args(&["prog", "--cli"])), RunOptions { cli: true, no_gui: false });
    assert_eq!(
        run_options(&args(&["prog", "--no-gui", "x", "--cli"])),
        RunOptions { cli: true, no_gui: true }
    );
    assert_eq!(run_options(&args(&["--nogui", "-cli", "--CLI"])), RunOptions { cli: false, no_gui: false });
    assert_eq!(run_options(&args(&[])), RunOptions { cli: false, no_gui: false });
    assert_eq!(collected_modules(), vec![Module::Battery, Module::CPU, Module::System]);
    assert_eq!(COLLECT_INTERVAL_SECS, 30);
}

#[test]
fn frequency_range_follows_the_readings() {
    assert_eq!(get_frequency(5, None), Ok(CPUFrequency { current: 5, min: 5, max: 5 }));
    let seen = CPUFrequency { current: 5, min: 3, max: 8 };
    assert_eq!(get_frequency(4, Some(seen)), Ok(CPUFrequency { current: 4, min: 3, max: 8 }));
    assert_eq!(get_frequency(2, Some(seen)), Ok(CPUFrequency { current: 2, min: 2, max: 8 }));
    assert_eq!(get_frequency(9, Some(seen)), Ok(CPUFrequency { current: 9, min: 3, max: 9 }));
    assert_eq!(get_frequency(3, Some(seen)), Ok(CPUFrequency { current: 3, min: 3, max: 8 }));
}
