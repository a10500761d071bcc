//! The engine that answers the requests of one connection.

use crate::event::{law_event_type_round_trip, EventSubtype, EventType};
use crate::ids::{new_uuid, UUID_LENGTH};
use crate::json::json_equal;
use crate::modules::{law_module_round_trip, views, Module, RequestModules};
use crate::seq_lemmas::{lemma_filter_holds, lemma_filter_push};
use crate::settings::{spec_settings_from_json, Settings, SettingsView};
use crate::store::{spec_is_stored, spec_write, ModuleSnapshot, ModuleStore, WriteOutcome};
use crate::text::str_eq;
use crate::websocket::peers::{
    distinct_ids, is_subscriber, law_one_push_per_subscriber, law_subscription_decides_pushes,
    lemma_register_places,
    push_views, pushes_to, spec_disconnect, spec_pushes, spec_register, spec_unregister,
    ConnectionRegistry,
    ListenerView, Push,
};
use crate::websocket::{
    response_views, spec_ack, spec_data_update, spec_error, spec_parse_request,
    spec_settings_result, RequestView, ResponseView, WebsocketRequest, WebsocketResponse,
};
use serde_json::Value;
use vstd::prelude::*;

verus! {

/// What answering a frame comes to, as plain mathematical values: the responses to
/// send, in order, and the state it leaves behind.
pub struct Outcome {
    /// The responses, in the order in which they are sent.
    pub responses: Seq<ResponseView>,
    /// The settings afterwards.
    pub settings: SettingsView,
    /// The registry afterwards.
    pub listeners: Seq<ListenerView>,
    /// Whether the settings were replaced, so that they have to be written out.
    pub settings_changed: bool,
    /// Whether the process is to end once the responses were sent.
    pub exit: bool,
}

/// The text of the error for a module whose snapshot cannot be read.
pub open spec fn spec_read_failure(module: Module) -> Seq<char> {
    "Failed to get data for module: \""@ + module.wire_name() + "\""@
}

/// The response for one name of a `GET_DATA` request. A name that stands for no
/// module is an error about that name. A module with a snapshot is a data update with
/// its payload, one without is an error about that module.
pub open spec fn spec_module_frame(
    id: Seq<char>,
    store: Map<Module, ModuleSnapshot>,
    name: Seq<char>,
) -> ResponseView {
    match Module::spec_parse(name) {
        None => spec_error(id, None, Module::invalid_message(name), Some(name)),
        Some(module) => if store.contains_key(module) {
            spec_data_update(id, module.wire_name(), store[module].payload)
        } else {
            spec_error(id, None, spec_read_failure(module), Some(module.wire_name()))
        },
    }
}

/// The responses to a `GET_DATA` request: one for each name, in the order of the
/// names.
pub open spec fn spec_get_data(
    id: Seq<char>,
    store: Map<Module, ModuleSnapshot>,
    names: Seq<Seq<char>>,
) -> Seq<ResponseView> {
    names.map_values(|name: Seq<char>| spec_module_frame(id, store, name))
}

/// The names of a subscription request that stand for a module.
pub open spec fn spec_accepted(names: Seq<Seq<char>>) -> Seq<Seq<char>> {
    names.filter(|name: Seq<char>| Module::spec_parse(name) is Some)
}

/// The errors of a subscription request: one about each name that stands for no
/// module.
pub open spec fn spec_rejections(id: Seq<char>, names: Seq<Seq<char>>) -> Seq<ResponseView> {
    names.filter(|name: Seq<char>| Module::spec_parse(name) is None).map_values(
        |name: Seq<char>| spec_error(id, None, Module::invalid_message(name), Some(name)),
    )
}

/// The response to a request whose data names no modules.
pub open spec fn spec_missing_modules(id: Seq<char>) -> ResponseView {
    spec_error(id, Some(EventSubtype::MissingModules), "Missing modules"@, None)
}

/// The kind that a request is answered as: the kind that its event decodes to, and
/// `Unknown` where the decode fails.
pub open spec fn spec_requested_kind(event: Seq<char>) -> EventType {
    match EventType::spec_from_str(event) {
        Ok(kind) => kind,
        Err(_) => EventType::Unknown,
    }
}

/// What answering an authenticated request comes to.
pub open spec fn spec_process(
    settings: SettingsView,
    store: Map<Module, ModuleSnapshot>,
    listeners: Seq<ListenerView>,
    request: RequestView,
    connection: Seq<char>,
) -> Outcome {
    let id = request.id;
    let unchanged = Outcome {
        responses: Seq::empty(),
        settings,
        listeners,
        settings_changed: false,
        exit: false,
    };
    match spec_requested_kind(request.event) {
        EventType::ApplicationUpdate => Outcome {
            responses: seq![spec_ack(id, EventType::ApplicationUpdating)],
            ..unchanged
        },
        EventType::ExitApplication => Outcome {
            responses: seq![spec_ack(id, EventType::ExitingApplication)],
            exit: true,
            ..unchanged
        },
        EventType::GetData => match RequestModules::spec_from_json(request.data) {
            Some(names) => Outcome { responses: spec_get_data(id, store, names), ..unchanged },
            None => Outcome { responses: seq![spec_missing_modules(id)], ..unchanged },
        },
        EventType::GetSettings => Outcome {
            responses: seq![spec_settings_result(id, settings)],
            ..unchanged
        },
        EventType::RegisterDataListener => match RequestModules::spec_from_json(request.data) {
            Some(names) => Outcome {
                responses: spec_rejections(id, names).push(
                    spec_ack(id, EventType::DataListenerRegistered),
                ),
                listeners: spec_register(listeners, connection, spec_accepted(names)),
                ..unchanged
            },
            None => Outcome { responses: seq![spec_missing_modules(id)], ..unchanged },
        },
        EventType::UnregisterDataListener => Outcome {
            responses: seq![spec_ack(id, EventType::DataListenerUnregistered)],
            listeners: spec_unregister(listeners, connection),
            ..unchanged
        },
        EventType::UpdateSettings => match spec_settings_from_json(request.data) {
            Some(replacement) => Outcome {
                responses: seq![
                    spec_ack(id, EventType::SettingsUpdated),
                    spec_settings_result(id, replacement),
                ],
                settings: replacement,
                settings_changed: true,
                ..unchanged
            },
            None => Outcome {
                responses: seq![
                    spec_error(id, Some(EventSubtype::BadRequest), "Invalid settings"@, None),
                ],
                ..unchanged
            },
        },
        EventType::Unknown => Outcome {
            responses: seq![
                spec_error(id, Some(EventSubtype::UnknownEvent), "Unknown event"@, None),
            ],
            ..unchanged
        },
        _ => Outcome {
            responses: seq![
                spec_error(id, Some(EventSubtype::UnknownEvent), "Unsupported event"@, None),
            ],
            ..unchanged
        },
    }
}

/// What a frame's text comes to. A text that holds no request is dropped: nothing is
/// sent and nothing changes. A request with another token than the settings' gets one
/// error and changes nothing. Any other request is answered.
pub open spec fn spec_handle_text(
    settings: SettingsView,
    store: Map<Module, ModuleSnapshot>,
    listeners: Seq<ListenerView>,
    text: Seq<char>,
    connection: Seq<char>,
) -> Outcome {
    let unchanged = Outcome {
        responses: Seq::empty(),
        settings,
        listeners,
        settings_changed: false,
        exit: false,
    };
    match spec_parse_request(text) {
        None => unchanged,
        Some(request) => if request.token != settings.token {
            Outcome {
                responses: seq![spec_error(request.id, None, "Invalid token"@, None)],
                ..unchanged
            }
        } else {
            spec_process(settings, store, listeners, request, connection)
        },
    }
}

/// What the engine hands back for one frame.
#[derive(Debug, PartialEq, Eq)]
pub struct Processed {
    /// The responses to send, in order.
    pub responses: Vec<WebsocketResponse>,
    /// Whether the settings were replaced, so that they have to be written out.
    pub settings_changed: bool,
    /// Whether the process is to end once the responses were sent.
    pub exit: bool,
}

/// The engine of one connection. It holds the settings that it answers by.
#[derive(Debug, PartialEq, Eq)]
pub struct RequestProcessor {
    pub settings: Settings,
}

fn single(response: WebsocketResponse) -> (r: Vec<WebsocketResponse>)
    ensures
        response_views(r@) == seq![response@],
{
    let mut responses: Vec<WebsocketResponse> = Vec::new();
    responses.push(response);
    assert(response_views(responses@) =~= seq![response@]);
    responses
}

fn module_frame(id: &str, store: &ModuleStore, name: &str) -> (r: WebsocketResponse)
    ensures
        r@ == spec_module_frame(id@, store@, name@),
{
    match Module::from_str(name) {
        Err(message) => WebsocketResponse::error(id, None, message, Some(name.to_owned())),
        Ok(module) => match store.read(&module) {
            Ok(payload) => WebsocketResponse::data_update(id, module.to_string(), payload),
            Err(_) => {
                let mut message = "Failed to get data for module: \"".to_owned();
                message.append(module.as_str());
                message.append("\"");
                WebsocketResponse::error(id, None, message, Some(module.to_string()))
            },
        },
    }
}

fn get_data(id: &str, store: &ModuleStore, names: &Vec<String>) -> (r: Vec<WebsocketResponse>)
    ensures
        response_views(r@) == spec_get_data(id@, store@, views(names@)),
{
    let mut responses: Vec<WebsocketResponse> = Vec::new();
    let mut i: usize = 0;
    while i < names.len()
        invariant
            i <= names.len(),
            responses@.len() == i,
            forall|j: int|
                0 <= j < i ==> (#[trigger] responses@[j])@ == spec_module_frame(
                    id@,
                    store@,
                    names@[j]@,
                ),
        decreases names.len() - i,
    {
        responses.push(module_frame(id, store, names[i].as_str()));
        i = i + 1;
    }
    assert(response_views(responses@) =~= spec_get_data(id@, store@, views(names@)));
    responses
}

/// Sorts the names of a subscription request: the errors for those that stand for no
/// module, and those that stand for one.
fn sort_names(id: &str, names: &Vec<String>) -> (r: (Vec<WebsocketResponse>, Vec<String>))
    ensures
        response_views(r.0@) == spec_rejections(id@, views(names@)),
        views(r.1@) == spec_accepted(views(names@)),
{
    let mut rejections: Vec<WebsocketResponse> = Vec::new();
    let mut accepted: Vec<String> = Vec::new();
    let ghost all = views(names@);
    let ghost known = |name: Seq<char>| Module::spec_parse(name) is Some;
    let ghost unknown = |name: Seq<char>| Module::spec_parse(name) is None;
    let ghost refuse = |name: Seq<char>|
        spec_error(id@, None, Module::invalid_message(name), Some(name));
    let mut i: usize = 0;
    while i < names.len()
        invariant
            i <= names.len(),
            all == views(names@),
            known == (|name: Seq<char>| Module::spec_parse(name) is Some),
            unknown == (|name: Seq<char>| Module::spec_parse(name) is None),
            refuse == (|name: Seq<char>|
                spec_error(id@, None, Module::invalid_message(name), Some(name))),
            response_views(rejections@) == all.take(i as int).filter(unknown).map_values(refuse),
            views(accepted@) == all.take(i as int).filter(known),
        decreases names.len() - i,
    {
        let name = names[i].as_str();
        let ghost head = all.take(i as int);
        let ghost rejected_before = rejections@;
        let ghost accepted_before = accepted@;
        proof {
            assert(all.take(i + 1) =~= head.push(name@));
            lemma_filter_push(head, name@, known);
            lemma_filter_push(head, name@, unknown);
        }
        match Module::from_str(name) {
            Ok(_) => {
                accepted.push(name.to_owned());
                assert(views(accepted@) =~= views(accepted_before).push(name@));
            },
            Err(message) => {
                rejections.push(WebsocketResponse::error(id, None, message, Some(name.to_owned())));
                proof {
                    assert(response_views(rejections@) =~= response_views(rejected_before).push(
                        refuse(name@),
                    ));
                    assert(head.filter(unknown).push(name@).map_values(refuse) =~= head.filter(
                        unknown,
                    ).map_values(refuse).push(refuse(name@)));
                }
            },
        }
        i = i + 1;
    }
    proof {
        assert(all.take(all.len() as int) =~= all);
    }
    (rejections, accepted)
}

impl RequestProcessor {
    /// An engine that answers by the given settings.
    pub fn new(settings: Settings) -> (r: RequestProcessor)
        ensures
            r.settings == settings,
    {
        RequestProcessor { settings }
    }

    /// Answers a request that has passed the token check. The event is looked up in
    /// the closed set of kinds, and each kind has its answer:
    /// one acknowledgement for an application update; one acknowledgement and the order
    /// to end the process for an exit; one response per name for a data request; the
    /// settings for a settings request; the new subscription and its acknowledgement,
    /// after one error per unknown name, for a subscription; the acknowledgement
    /// for its withdrawal; the replaced settings, acknowledged and sent back, for an
    /// update of the settings; and one error for every other event. `connection` is
    /// the id of the connection that the request came on.
    pub fn process(
        &mut self,
        request: &WebsocketRequest,
        connection: &str,
        store: &ModuleStore,
        registry: &mut ConnectionRegistry,
    ) -> (r: Processed)
        ensures
            spec_process(old(self).settings@, store@, old(registry)@, request@, connection@)
                == (Outcome {
                responses: response_views(r.responses@),
                settings: final(self).settings@,
                listeners: final(registry)@,
                settings_changed: r.settings_changed,
                exit: r.exit,
            }),
    {
        let id = request.id.as_str();
        let kind = match EventType::from_str(request.event.as_str()) {
            Ok(kind) => kind,
            Err(_) => EventType::Unknown,
        };
        match kind {
            EventType::ApplicationUpdate => Processed {
                responses: single(WebsocketResponse::ack(id, EventType::ApplicationUpdating)),
                settings_changed: false,
                exit: false,
            },
            EventType::ExitApplication => Processed {
                responses: single(WebsocketResponse::ack(id, EventType::ExitingApplication)),
                settings_changed: false,
                exit: true,
            },
            EventType::GetData => match RequestModules::from_json(&request.data) {
                Some(wanted) => Processed {
                    responses: get_data(id, store, &wanted.modules),
                    settings_changed: false,
                    exit: false,
                },
                None => Processed {
                    responses: single(
                        WebsocketResponse::error(
                            id,
                            Some(EventSubtype::MissingModules),
                            "Missing modules".to_owned(),
                            None,
                        ),
                    ),
                    settings_changed: false,
                    exit: false,
                },
            },
            EventType::GetSettings => Processed {
                responses: single(WebsocketResponse::settings_result(id, self.settings.clone())),
                settings_changed: false,
                exit: false,
            },
            EventType::RegisterDataListener => match RequestModules::from_json(&request.data) {
                Some(wanted) => {
                    let (rejections, accepted) = sort_names(id, &wanted.modules);
                    let mut responses = rejections;
                    let ghost before = responses@;
                    let ack = WebsocketResponse::ack(id, EventType::DataListenerRegistered);
                    registry.register(connection, accepted);
                    responses.push(ack);
                    assert(response_views(responses@) =~= response_views(before).push(ack@));
                    Processed { responses, settings_changed: false, exit: false }
                },
                None => Processed {
                    responses: single(
                        WebsocketResponse::error(
                            id,
                            Some(EventSubtype::MissingModules),
                            "Missing modules".to_owned(),
                            None,
                        ),
                    ),
                    settings_changed: false,
                    exit: false,
                },
            },
            EventType::UnregisterDataListener => {
                registry.unregister(connection);
                Processed {
                    responses: single(
                        WebsocketResponse::ack(id, EventType::DataListenerUnregistered),
                    ),
                    settings_changed: false,
                    exit: false,
                }
            },
            EventType::UpdateSettings => match Settings::from_json(&request.data) {
                Some(replacement) => {
                    let mut responses: Vec<WebsocketResponse> = Vec::new();
                    let updated = WebsocketResponse::ack(id, EventType::SettingsUpdated);
                    let result = WebsocketResponse::settings_result(id, replacement.clone());
                    responses.push(updated);
                    responses.push(result);
                    assert(response_views(responses@) =~= seq![updated@, result@]);
                    self.settings = replacement;
                    Processed { responses, settings_changed: true, exit: false }
                },
                None => Processed {
                    responses: single(
                        WebsocketResponse::error(
                            id,
                            Some(EventSubtype::BadRequest),
                            "Invalid settings".to_owned(),
                            None,
                        ),
                    ),
                    settings_changed: false,
                    exit: false,
                },
            },
            EventType::Unknown => Processed {
                responses: single(
                    WebsocketResponse::error(
                        id,
                        Some(EventSubtype::UnknownEvent),
                        "Unknown event".to_owned(),
                        None,
                    ),
                ),
                settings_changed: false,
                exit: false,
            },
            _ => Processed {
                responses: single(
                    WebsocketResponse::error(
                        id,
                        Some(EventSubtype::UnknownEvent),
                        "Unsupported event".to_owned(),
                        None,
                    ),
                ),
                settings_changed: false,
                exit: false,
            },
        }
    }

    /// Takes the text of one inbound frame through the protocol: the text is parsed
    /// as a request, the request's token is held against the token of the settings,
    /// and the request is answered. A text that holds no request is dropped without a
    /// response. A token that is not the settings' token, character for character,
    /// gets one error with the message `Invalid token`, and the request goes no
    /// further. Neither changes anything, so the connection stays usable.
    pub fn handle_text(
        &mut self,
        text: &str,
        connection: &str,
        store: &ModuleStore,
        registry: &mut ConnectionRegistry,
    ) -> (r: Processed)
        ensures
            spec_handle_text(old(self).settings@, store@, old(registry)@, text@, connection@)
                == (Outcome {
                responses: response_views(r.responses@),
                settings: final(self).settings@,
                listeners: final(registry)@,
                settings_changed: r.settings_changed,
                exit: r.exit,
            }),
    {
        match WebsocketRequest::parse(text) {
            None => {
                let responses: Vec<WebsocketResponse> = Vec::new();
                assert(response_views(responses@) =~= Seq::empty());
                Processed { responses, settings_changed: false, exit: false }
            },
            Some(request) => {
                if !str_eq(request.token.as_str(), self.settings.api.token.as_str()) {
                    Processed {
                        responses: single(
                            WebsocketResponse::error(
                                request.id.as_str(),
                                None,
                                "Invalid token".to_owned(),
                                None,
                            ),
                        ),
                        settings_changed: false,
                        exit: false,
                    }
                } else {
                    self.process(&request, connection, store, registry)
                }
            },
        }
    }
}

/// What arrived on a connection's socket.
#[derive(Debug, PartialEq, Eq)]
pub enum Incoming {
    /// A text frame.
    Text(String),
    /// A frame that is no text.
    Other,
    /// The socket reported an error.
    Failed,
    /// The other side closed the socket.
    Closed,
}

/// What to do about what arrived.
#[derive(Debug, PartialEq, Eq)]
pub enum Reaction {
    /// Send the responses, then do what they ask for.
    Respond(Processed),
    /// Send the frame back as it came.
    Echo,
    /// Leave the loop: the connection is over, and is out of the registry.
    Close,
}

/// What a connection's loop does about what arrived on its socket. A text frame goes
/// through the protocol. Any other frame is sent back as it came and changes nothing.
/// An error of the socket, like its end, takes the connection out of the registry and
/// ends the loop.
pub open spec fn spec_receive(
    settings: SettingsView,
    store: Map<Module, ModuleSnapshot>,
    listeners: Seq<ListenerView>,
    incoming: Incoming,
    connection: Seq<char>,
) -> Outcome {
    let unchanged = Outcome {
        responses: Seq::empty(),
        settings,
        listeners,
        settings_changed: false,
        exit: false,
    };
    match incoming {
        Incoming::Text(text) => spec_handle_text(settings, store, listeners, text@, connection),
        Incoming::Other => unchanged,
        _ => Outcome { listeners: spec_disconnect(listeners, connection), ..unchanged },
    }
}

impl RequestProcessor {
    /// Decides what a connection's loop does about what arrived on its socket.
    pub fn receive(
        &mut self,
        incoming: &Incoming,
        connection: &str,
        store: &ModuleStore,
        registry: &mut ConnectionRegistry,
    ) -> (r: Reaction)
        ensures
            spec_receive(old(self).settings@, store@, old(registry)@, *incoming, connection@).settings
                == final(self).settings@,
            spec_receive(old(self).settings@, store@, old(registry)@, *incoming, connection@).listeners
                == final(registry)@,
            match *incoming {
                Incoming::Text(text) => r matches Reaction::Respond(processed) && spec_handle_text(
                    old(self).settings@,
                    store@,
                    old(registry)@,
                    text@,
                    connection@,
                ) == (Outcome {
                    responses: response_views(processed.responses@),
                    settings: final(self).settings@,
                    listeners: final(registry)@,
                    settings_changed: processed.settings_changed,
                    exit: processed.exit,
                }),
                Incoming::Other => r == Reaction::Echo,
                _ => r == Reaction::Close,
            },
    {
        match incoming {
            Incoming::Text(text) => Reaction::Respond(
                self.handle_text(text.as_str(), connection, store, registry),
            ),
            Incoming::Other => Reaction::Echo,
            _ => {
                registry.disconnect(connection);
                Reaction::Close
            },
        }
    }
}

/// The frames that go out when a payload is handed in for a module: none where the
/// payload is the stored one, and the frames of a change where it is not.
pub open spec fn spec_publish(
    state: Map<Module, ModuleSnapshot>,
    listeners: Seq<ListenerView>,
    module: Module,
    payload: Value,
    id: Seq<char>,
) -> Seq<(Seq<char>, ResponseView)> {
    if spec_is_stored(state, module, payload) {
        Seq::empty()
    } else {
        spec_pushes(listeners, module, payload, id)
    }
}

/// Writes a payload to the store and tells the listeners where that changed the
/// store. The store is written as `ModuleStore::write` does. A write that changes it
/// gives one data update, under the frame id `id`, for each connection whose
/// subscription covers the module; a write that does not gives no frame.
pub fn publish(
    store: &mut ModuleStore,
    registry: &ConnectionRegistry,
    module: Module,
    payload: Value,
    now: u64,
    id: &str,
) -> (r: Vec<Push>)
    ensures
        final(store)@ == spec_write(old(store)@, module, payload, now),
        push_views(r@) == spec_publish(old(store)@, registry@, module, payload, id@),
{
    let copy = payload.clone();
    match store.write(module, payload, now) {
        WriteOutcome::Changed => registry.broadcast(&module, &copy, id),
        WriteOutcome::NoChange => {
            let pushes: Vec<Push> = Vec::new();
            assert(push_views(pushes@) =~= Seq::empty());
            pushes
        },
    }
}

/// Writes a payload to the store and tells the listeners where that changed the
/// store, under a fresh frame id of 36 characters. Whatever the id is, the frames are
/// those of `publish` under it.
pub fn announce(
    store: &mut ModuleStore,
    registry: &ConnectionRegistry,
    module: Module,
    payload: Value,
    now: u64,
) -> (r: Vec<Push>)
    ensures
        final(store)@ == spec_write(old(store)@, module, payload, now),
        exists|id: Seq<char>|
            id.len() == UUID_LENGTH && push_views(r@) == #[trigger] spec_publish(
                old(store)@,
                registry@,
                module,
                payload,
                id,
            ),
{
    let id = new_uuid();
    let ghost before = store@;
    let pushes = publish(store, registry, module, payload, now, id.as_str());
    assert(push_views(pushes@) == spec_publish(before, registry@, module, payload, id@));
    pushes
}

/// A payload that is handed in twice is told at most once: the second time, whatever
/// the first did, no frame goes out.
pub proof fn law_same_payload_is_told_once(
    state: Map<Module, ModuleSnapshot>,
    listeners: Seq<ListenerView>,
    module: Module,
    payload: Value,
    first: u64,
    id: Seq<char>,
)
    ensures
        spec_publish(spec_write(state, module, payload, first), listeners, module, payload, id)
            == Seq::<(Seq<char>, ResponseView)>::empty(),
{
}

/// A payload that differs from the stored one is stored with the time of the write,
/// and is told exactly once to each connection whose subscription covers the module,
/// and to no other.
pub proof fn law_changed_payload_is_told_to_subscribers(
    state: Map<Module, ModuleSnapshot>,
    listeners: Seq<ListenerView>,
    module: Module,
    payload: Value,
    now: u64,
    id: Seq<char>,
    connection: Seq<char>,
)
    requires
        distinct_ids(listeners),
        !spec_is_stored(state, module, payload),
    ensures
        spec_write(state, module, payload, now)[module] == (ModuleSnapshot {
            module,
            payload,
            last_written_at: now,
        }),
        pushes_to(spec_publish(state, listeners, module, payload, id), connection)
            == if is_subscriber(listeners, connection, module) {
            1nat
        } else {
            0nat
        },
{
    law_one_push_per_subscriber(listeners, module, payload, id, connection);
}

/// A data request for one module, made after a payload was written for it, is
/// answered by exactly one data update. Its data is the stored payload, which counts
/// as equal to the one written, and nothing else changes.
pub proof fn law_get_data_returns_what_was_written(
    settings: SettingsView,
    state: Map<Module, ModuleSnapshot>,
    listeners: Seq<ListenerView>,
    module: Module,
    payload: Value,
    now: u64,
    request: RequestView,
    connection: Seq<char>,
)
    requires
        request.event == EventType::GetData.wire_name(),
        RequestModules::spec_from_json(request.data) == Some(seq![module.wire_name()]),
    ensures
        ({
            let stored = spec_write(state, module, payload, now);
            let answer = spec_process(settings, stored, listeners, request, connection);
            &&& answer.responses == seq![
                spec_data_update(request.id, module.wire_name(), stored[module].payload),
            ]
            &&& json_equal(stored[module].payload, payload)
            &&& answer.settings == settings
            &&& answer.listeners == listeners
            &&& !answer.settings_changed
            &&& !answer.exit
        }),
{
    law_event_type_round_trip(EventType::GetData);
    law_module_round_trip(module);
    let stored = spec_write(state, module, payload, now);
    let names = seq![module.wire_name()];
    assert(spec_get_data(request.id, stored, names) =~= seq![
        spec_data_update(request.id, module.wire_name(), stored[module].payload),
    ]);
}

/// A data request is answered name by name: there are as many responses as names, the
/// response at a name's place is about that name, and each carries the id of the
/// request. A name that stands for no module gets an error that quotes it; a name
/// that stands for one gets the module's data update, or the error about that module.
/// One name's error does not touch another name's response, and nothing changes.
pub proof fn law_get_data_answers_each_name(
    settings: SettingsView,
    state: Map<Module, ModuleSnapshot>,
    listeners: Seq<ListenerView>,
    request: RequestView,
    connection: Seq<char>,
    names: Seq<Seq<char>>,
    i: int,
)
    requires
        request.event == EventType::GetData.wire_name(),
        RequestModules::spec_from_json(request.data) == Some(names),
        0 <= i < names.len(),
    ensures
        ({
            let answer = spec_process(settings, state, listeners, request, connection);
            &&& answer.responses.len() == names.len()
            &&& answer.responses[i] == spec_module_frame(request.id, state, names[i])
            &&& answer.responses[i].id == request.id
            &&& match Module::spec_parse(names[i]) {
                None => answer.responses[i] == spec_error(
                    request.id,
                    None,
                    Module::invalid_message(names[i]),
                    Some(names[i]),
                ),
                Some(module) => answer.responses[i].module == Some(names[i]) && (
                answer.responses[i].type_ == EventType::DataUpdate.wire_name()
                    || answer.responses[i].type_ == EventType::Error.wire_name()),
            }
            &&& answer.settings == settings
            &&& answer.listeners == listeners
            &&& !answer.exit
        }),
{
    law_event_type_round_trip(EventType::GetData);
    match Module::spec_parse(names[i]) {
        None => {},
        Some(module) => {
            assert(exists|m: Module| m.wire_name() == names[i]);
        },
    }
}

/// A request whose token is not the settings' token gets exactly one error, with the
/// message `Invalid token` and the id of the request, whatever its event is. Nothing
/// changes, so what follows on the connection is answered as if the request had never
/// come.
pub proof fn law_wrong_token_gets_one_error(
    settings: SettingsView,
    state: Map<Module, ModuleSnapshot>,
    listeners: Seq<ListenerView>,
    text: Seq<char>,
    connection: Seq<char>,
)
    ensures
        spec_parse_request(text) matches Some(request) ==> (request.token != settings.token
            ==> spec_handle_text(settings, state, listeners, text, connection) == (Outcome {
            responses: seq![spec_error(request.id, None, "Invalid token"@, None)],
            settings,
            listeners,
            settings_changed: false,
            exit: false,
        })),
{
}

/// A text that holds no request is dropped: no response, and nothing changes.
pub proof fn law_malformed_frame_is_dropped(
    settings: SettingsView,
    state: Map<Module, ModuleSnapshot>,
    listeners: Seq<ListenerView>,
    text: Seq<char>,
    connection: Seq<char>,
)
    ensures
        spec_parse_request(text) is None ==> spec_handle_text(
            settings,
            state,
            listeners,
            text,
            connection,
        ) == (Outcome {
            responses: Seq::empty(),
            settings,
            listeners,
            settings_changed: false,
            exit: false,
        }),
{
}

/// Settings that were put in place by an update are the settings that a request for
/// them gets back, whole.
pub proof fn law_settings_round_trip(
    settings: SettingsView,
    state: Map<Module, ModuleSnapshot>,
    listeners: Seq<ListenerView>,
    update: RequestView,
    replacement: SettingsView,
    query: RequestView,
    connection: Seq<char>,
)
    requires
        update.event == EventType::UpdateSettings.wire_name(),
        spec_settings_from_json(update.data) == Some(replacement),
        query.event == EventType::GetSettings.wire_name(),
    ensures
        ({
            let updated = spec_process(settings, state, listeners, update, connection);
            let answer = spec_process(updated.settings, state, updated.listeners, query, connection);
            &&& updated.responses == seq![
                spec_ack(update.id, EventType::SettingsUpdated),
                spec_settings_result(update.id, replacement),
            ]
            &&& updated.settings == replacement
            &&& updated.settings_changed
            &&& answer.responses == seq![spec_settings_result(query.id, replacement)]
            &&& answer.settings == replacement
        }),
{
    law_event_type_round_trip(EventType::UpdateSettings);
    law_event_type_round_trip(EventType::GetSettings);
}

/// After a connection has asked to hear of a list of modules, a change to a module
/// sends it exactly one frame where the list names the module, and none where it does
/// not.
pub proof fn law_registration_decides_pushes(
    settings: SettingsView,
    state: Map<Module, ModuleSnapshot>,
    listeners: Seq<ListenerView>,
    request: RequestView,
    names: Seq<Seq<char>>,
    connection: Seq<char>,
    module: Module,
    payload: Value,
    id: Seq<char>,
)
    requires
        distinct_ids(listeners),
        request.event == EventType::RegisterDataListener.wire_name(),
        RequestModules::spec_from_json(request.data) == Some(names),
    ensures
        ({
            let answer = spec_process(settings, state, listeners, request, connection);
            &&& distinct_ids(answer.listeners)
            &&& answer.responses.last() == spec_ack(request.id, EventType::DataListenerRegistered)
            &&& pushes_to(spec_pushes(answer.listeners, module, payload, id), connection)
                == if names.contains(module.wire_name()) {
                1nat
            } else {
                0nat
            }
        }),
{
    law_event_type_round_trip(EventType::RegisterDataListener);
    law_module_round_trip(module);
    let known = |name: Seq<char>| Module::spec_parse(name) is Some;
    lemma_filter_holds(names, known, module.wire_name());
    law_subscription_decides_pushes(
        listeners,
        connection,
        spec_accepted(names),
        module,
        payload,
        id,
    );
    lemma_register_places(listeners, connection, spec_accepted(names));
}

} // verus!
