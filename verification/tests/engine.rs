use serde_json::Value;
use systembridge::modules::Module;
use systembridge::settings::{create_settings, parse_settings, Settings};
use systembridge::store::ModuleStore;
use systembridge::websocket::peers::{ConnectionRegistry, Push};
use systembridge::websocket::server::{publish, Incoming, Processed, Reaction, RequestProcessor};
use systembridge::websocket::{ResponseData, WebsocketRequest, WebsocketResponse};

const TOKEN: &str = "secret";

fn json(text: &str) -> Value {
    serde_json::from_str(text).unwrap()
}

fn frame(id: &str, token: &str, event: &str, data: &str) -> String {
    format!("{{\"id\":\"{}\",\"token\":\"{}\",\"event\":\"{}\",\"data\":{}}}", id, token, event, data)
}

struct World {
    processor: RequestProcessor,
    store: ModuleStore,
    registry: ConnectionRegistry,
}

fn world() -> World {
    let mut registry = ConnectionRegistry::new();
    registry.insert("conn");
    World {
        processor: RequestProcessor::new(create_settings(TOKEN.to_string())),
        store: ModuleStore::new(),
        registry,
    }
}

fn send(world: &mut World, text: &str) -> Processed {
    world.processor.handle_text(text, "conn", &world.store, &mut world.registry)
}

fn ack(id: &str, kind: &str) -> WebsocketResponse {
    WebsocketResponse {
        id: id.to_string(),
        type_: kind.to_string(),
        data: ResponseData::Null,
        subtype: None,
        message: None,
        module: None,
    }
}

fn error(id: &str, subtype: Option<&str>, message: &str, module: Option<&str>) -> WebsocketResponse {
    WebsocketResponse {
        id: id.to_string(),
        type_: "ERROR".to_string(),
        data: ResponseData::Null,
        subtype: subtype.map(|s| s.to_string()),
        message: Some(message.to_string()),
        module: module.map(|s| s.to_string()),
    }
}

fn update(id: &str, module: &str, payload: &str) -> WebsocketResponse {
    WebsocketResponse {
        id: id.to_string(),
        type_: "DATA_UPDATE".to_string(),
        data: ResponseData::Document(json(payload)),
        subtype: None,
        message: None,
        module: Some(module.to_string()),
    }
}

fn settings_result(id: &str, settings: Settings) -> WebsocketResponse {
    WebsocketResponse {
        id: id.to_string(),
        type_: "SETTINGS_RESULT".to_string(),
        data: ResponseData::Settings(settings),
        subtype: None,
        message: None,
        module: None,
    }
}

fn quiet(responses: Vec<WebsocketResponse>) -> Processed {
    Processed { responses, settings_changed: false, exit: false }
}

const NEW_SETTINGS: &str = "{\"api\":{\"token\":\"next\",\"port\":9999},\"autostart\":true,\
\"keyboard_hotkeys\":[{\"name\":\"mute\",\"key\":\"F1\"}],\"log_level\":\"ERROR\",\
\"media\":{\"directories\":[{\"name\":\"music\",\"path\":\"/m\"}]}}";

#[test]
fn request_is_read_out_of_a_frame() {
    let request = WebsocketRequest::parse(&frame("r1", "t", "GET_DATA", "{\"modules\":[]}"));
    assert_eq!(
        request,
        Some(WebsocketRequest {
            id: "r1".to_string(),
            token: "t".to_string(),
            event: "GET_DATA".to_string(),
            data: json("{\"modules\":[]}"),
        })
    );
    let extra = "{\"id\":\"a\",\"token\":\"b\",\"event\":\"c\",\"data\":null,\"more\":1}";
    assert_eq!(WebsocketRequest::parse(extra).unwrap().data, Value::Null);
}

#[test]
fn a_frame_that_holds_no_request_is_no_request() {
    assert_eq!(WebsocketRequest::parse("not json"), None);
    assert_eq!(WebsocketRequest::parse("[]"), None);
    assert_eq!(WebsocketRequest::parse("{\"token\":\"b\",\"event\":\"c\",\"data\":{}}"), None);
    assert_eq!(WebsocketRequest::parse("{\"id\":\"a\",\"event\":\"c\",\"data\":{}}"), None);
    assert_eq!(WebsocketRequest::parse("{\"id\":\"a\",\"token\":\"b\",\"data\":{}}"), None);
    assert_eq!(WebsocketRequest::parse("{\"id\":\"a\",\"token\":\"b\",\"event\":\"c\"}"), None);
    assert_eq!(WebsocketRequest::parse("{\"id\":1,\"token\":\"b\",\"event\":\"c\",\"data\":{}}"), None);
}

#[test]
fn malformed_frame_is_dropped_without_response() {
    let mut world = world();
    assert_eq!(send(&mut world, "{{{"), quiet(vec![]));
    assert_eq!(send(&mut world, "{\"id\":\"x\"}"), quiet(vec![]));
    assert_eq!(
        send(&mut world, &frame("r", TOKEN, "APPLICATION_UPDATE", "{}")),
        quiet(vec![ack("r", "APPLICATION_UPDATING")])
    );
}

#[test]
fn get_data_returns_the_written_value() {
    let mut world = world();
    world.store.write(Module::CPU, json("{\"usage\":1}"), 1);
    world.store.write(Module::CPU, json("{\"usage\":42,\"count\":8}"), 2);
    let got = send(&mut world, &frame("r1", TOKEN, "GET_DATA", "{\"modules\":[\"cpu\"]}"));
    assert_eq!(got, quiet(vec![update("r1", "cpu", "{\"count\":8,\"usage\":42}")]));
}

#[test]
fn wrong_token_gets_one_error_for_every_event() {
    let events = [
        "APPLICATION_UPDATE",
        "EXIT_APPLICATION",
        "GET_DATA",
        "GET_SETTINGS",
        "REGISTER_DATA_LISTENER",
        "UNREGISTER_DATA_LISTENER",
        "UPDATE_SETTINGS",
        "OPEN",
        "UNKNOWN",
        "whatever",
    ];
    let mut world = world();
    world.registry.register("conn", vec!["cpu".to_string()]);
    for event in events {
        let got = send(&mut world, &frame("r", "wrong", event, NEW_SETTINGS));
        assert_eq!(got, quiet(vec![error("r", None, "Invalid token", None)]), "{}", event);
    }
    assert_eq!(world.processor.settings, create_settings(TOKEN.to_string()));
    assert_eq!(world.registry.subscription("conn"), Some(vec!["cpu".to_string()]));
    let got = send(&mut world, &frame("r2", TOKEN, "GET_SETTINGS", "{}"));
    assert_eq!(got, quiet(vec![settings_result("r2", create_settings(TOKEN.to_string()))]));
}

#[test]
fn token_is_matched_character_for_character() {
    let mut world = world();
    for token in ["", "Secret", "secret ", "secre"] {
        let got = send(&mut world, &frame("r", token, "GET_SETTINGS", "{}"));
        assert_eq!(got, quiet(vec![error("r", None, "Invalid token", None)]));
    }
}

#[test]
fn get_data_answers_each_name_on_its_own() {
    let mut world = world();
    world.store.write(Module::Battery, json("{\"percentage\":80}"), 1);
    let got = send(
        &mut world,
        &frame("r7", TOKEN, "GET_DATA", "{\"modules\":[\"battery\",\"bogus\",\"cpu\"]}"),
    );
    assert_eq!(
        got,
        quiet(vec![
            update("r7", "battery", "{\"percentage\":80}"),
            error("r7", None, "Invalid module: bogus", Some("bogus")),
            error("r7", None, "Failed to get data for module: \"cpu\"", Some("cpu")),
        ])
    );
}

#[test]
fn get_data_with_unknown_name_first_still_serves_the_rest() {
    let mut world = world();
    world.store.write(Module::Battery, json("[1]"), 1);
    let got = send(&mut world, &frame("r", TOKEN, "GET_DATA", "{\"modules\":[\"bogus\",\"battery\"]}"));
    assert_eq!(got.responses.len(), 2);
    assert_eq!(got.responses[0].message, Some("Invalid module: bogus".to_string()));
    assert_eq!(got.responses[1], update("r", "battery", "[1]"));
}

#[test]
fn get_data_without_modules_is_an_error() {
    let mut world = world();
    let want = quiet(vec![error("r", Some("MISSING_MODULES"), "Missing modules", None)]);
    assert_eq!(send(&mut world, &frame("r", TOKEN, "GET_DATA", "{}")), want);
    assert_eq!(send(&mut world, &frame("r", TOKEN, "GET_DATA", "{\"modules\":\"cpu\"}")), want);
    assert_eq!(send(&mut world, &frame("r", TOKEN, "GET_DATA", "null")), want);
    assert_eq!(send(&mut world, &frame("r", TOKEN, "GET_DATA", "{\"modules\":[]}")), quiet(vec![]));
}

#[test]
fn get_settings_returns_the_settings() {
    let mut world = world();
    let got = send(&mut world, &frame("r", TOKEN, "GET_SETTINGS", "null"));
    assert_eq!(got, quiet(vec![settings_result("r", create_settings(TOKEN.to_string()))]));
}

#[test]
fn update_settings_then_get_settings_returns_them() {
    let mut world = world();
    let replacement = parse_settings(NEW_SETTINGS).unwrap();
    let got = send(&mut world, &frame("r1", TOKEN, "UPDATE_SETTINGS", NEW_SETTINGS));
    assert_eq!(
        got,
        Processed {
            responses: vec![ack("r1", "SETTINGS_UPDATED"), settings_result("r1", replacement.clone())],
            settings_changed: true,
            exit: false,
        }
    );
    assert_eq!(world.processor.settings, replacement);
    let old = send(&mut world, &frame("r2", TOKEN, "GET_SETTINGS", "{}"));
    assert_eq!(old, quiet(vec![error("r2", None, "Invalid token", None)]));
    let got = send(&mut world, &frame("r3", "next", "GET_SETTINGS", "{}"));
    assert_eq!(got, quiet(vec![settings_result("r3", replacement)]));
}

#[test]
fn update_settings_with_a_bad_document_changes_nothing() {
    let mut world = world();
    let got = send(&mut world, &frame("r", TOKEN, "UPDATE_SETTINGS", "{\"api\":{}}"));
    assert_eq!(got, quiet(vec![error("r", Some("BAD_REQUEST"), "Invalid settings", None)]));
    assert_eq!(world.processor.settings, create_settings(TOKEN.to_string()));
}

#[test]
fn register_then_changes_push_to_the_subscribed_module_only() {
    let mut world = world();
    let got = send(
        &mut world,
        &frame("r", TOKEN, "REGISTER_DATA_LISTENER", "{\"modules\":[\"battery\"]}"),
    );
    assert_eq!(got, quiet(vec![ack("r", "DATA_LISTENER_REGISTERED")]));
    let cpu = publish(&mut world.store, &world.registry, Module::CPU, json("{\"usage\":1}"), 1, "push-1");
    assert_eq!(cpu, vec![]);
    let battery = publish(
        &mut world.store,
        &world.registry,
        Module::Battery,
        json("{\"percentage\":7}"),
        1,
        "push-2",
    );
    assert_eq!(
        battery,
        vec![Push { connection: "conn".to_string(), frame: update("push-2", "battery", "{\"percentage\":7}") }]
    );
}

#[test]
fn register_rejects_unknown_names_and_keeps_the_known() {
    let mut world = world();
    let got = send(
        &mut world,
        &frame("r", TOKEN, "REGISTER_DATA_LISTENER", "{\"modules\":[\"nope\",\"cpu\",\"x\",\"disks\"]}"),
    );
    assert_eq!(
        got,
        quiet(vec![
            error("r", None, "Invalid module: nope", Some("nope")),
            error("r", None, "Invalid module: x", Some("x")),
            ack("r", "DATA_LISTENER_REGISTERED"),
        ])
    );
    assert_eq!(
        world.registry.subscription("conn"),
        Some(vec!["cpu".to_string(), "disks".to_string()])
    );
}

#[test]
fn register_without_modules_is_an_error() {
    let mut world = world();
    world.registry.register("conn", vec!["cpu".to_string()]);
    let got = send(&mut world, &frame("r", TOKEN, "REGISTER_DATA_LISTENER", "{}"));
    assert_eq!(got, quiet(vec![error("r", Some("MISSING_MODULES"), "Missing modules", None)]));
    assert_eq!(world.registry.subscription("conn"), Some(vec!["cpu".to_string()]));
}

#[test]
fn unregister_removes_the_subscription() {
    let mut world = world();
    send(&mut world, &frame("r", TOKEN, "REGISTER_DATA_LISTENER", "{\"modules\":[\"cpu\"]}"));
    let got = send(&mut world, &frame("r2", TOKEN, "UNREGISTER_DATA_LISTENER", "{}"));
    assert_eq!(got, quiet(vec![ack("r2", "DATA_LISTENER_UNREGISTERED")]));
    let pushes = publish(&mut world.store, &world.registry, Module::CPU, json("1"), 1, "p");
    assert_eq!(pushes, vec![]);
    assert!(world.registry.contains("conn"));
}

#[test]
fn exit_is_acknowledged_and_ordered() {
    let mut world = world();
    let got = send(&mut world, &frame("r", TOKEN, "EXIT_APPLICATION", "{}"));
    assert_eq!(
        got,
        Processed {
            responses: vec![ack("r", "EXITING_APPLICATION")],
            settings_changed: false,
            exit: true,
        }
    );
}

#[test]
fn application_update_is_acknowledged() {
    let mut world = world();
    let got = send(&mut world, &frame("r", TOKEN, "APPLICATION_UPDATE", "{}"));
    assert_eq!(got, quiet(vec![ack("r", "APPLICATION_UPDATING")]));
}

#[test]
fn unknown_events_get_an_error() {
    let mut world = world();
    for event in ["nonsense", "UNKNOWN", "", "get_data"] {
        let got = send(&mut world, &frame("r", TOKEN, event, "{}"));
        assert_eq!(got, quiet(vec![error("r", Some("UNKNOWN_EVENT"), "Unknown event", None)]));
    }
}

#[test]
fn events_without_a_handler_get_an_error() {
    let mut world = world();
    for event in ["OPEN", "DATA_UPDATE", "ERROR", "KEYBOARD_TEXT", "SETTINGS_RESULT", "POWER_SLEEP"] {
        let got = send(&mut world, &frame("r", TOKEN, event, "{}"));
        assert_eq!(got, quiet(vec![error("r", Some("UNKNOWN_EVENT"), "Unsupported event", None)]));
    }
}

#[test]
fn process_answers_a_request_that_is_already_read() {
    let mut world = world();
    let request = WebsocketRequest {
        id: "r".to_string(),
        token: "not looked at".to_string(),
        event: "GET_SETTINGS".to_string(),
        data: Value::Null,
    };
    let got = world.processor.process(&request, "conn", &world.store, &mut world.registry);
    assert_eq!(got, quiet(vec![settings_result("r", create_settings(TOKEN.to_string()))]));
}

#[test]
fn publishing_the_same_value_twice_pushes_once() {
    let mut world = world();
    world.registry.register("conn", vec!["cpu".to_string()]);
    world.registry.register("other", vec!["cpu".to_string(), "disks".to_string()]);
    world.registry.register("third", vec!["disks".to_string()]);
    let first = publish(&mut world.store, &world.registry, Module::CPU, json("{\"usage\":1}"), 5, "push-1");
    assert_eq!(
        first,
        vec![
            Push { connection: "conn".to_string(), frame: update("push-1", "cpu", "{\"usage\":1}") },
            Push { connection: "other".to_string(), frame: update("push-1", "cpu", "{\"usage\":1}") },
        ]
    );
    assert_eq!(world.store.last_written_at(&Module::CPU), Some(5));
    let second = publish(&mut world.store, &world.registry, Module::CPU, json("{\"usage\":1}"), 6, "push-2");
    assert_eq!(second, vec![]);
    assert_eq!(world.store.last_written_at(&Module::CPU), Some(5));
    let third = publish(&mut world.store, &world.registry, Module::CPU, json("{\"usage\":2}"), 7, "push-3");
    assert_eq!(third.len(), 2);
    assert_eq!(world.store.last_written_at(&Module::CPU), Some(7));
}

#[test]
fn the_loop_answers_text_echoes_the_rest_and_closes_on_failure() {
    let mut world = world();
    let text = Incoming::Text(frame("r", TOKEN, "APPLICATION_UPDATE", "{}"));
    let got = world.processor.receive(&text, "conn", &world.store, &mut world.registry);
    assert_eq!(got, Reaction::Respond(quiet(vec![ack("r", "APPLICATION_UPDATING")])));
    let got = world.processor.receive(&Incoming::Other, "conn", &world.store, &mut world.registry);
    assert_eq!(got, Reaction::Echo);
    assert!(world.registry.contains("conn"));
    let got = world.processor.receive(&Incoming::Failed, "conn", &world.store, &mut world.registry);
    assert_eq!(got, Reaction::Close);
    assert!(!world.registry.contains("conn"));
    world.registry.insert("conn");
    let got = world.processor.receive(&Incoming::Closed, "conn", &world.store, &mut world.registry);
    assert_eq!(got, Reaction::Close);
    assert_eq!(world.registry.len(), 0);
}
