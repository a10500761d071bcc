//! The wire protocol: the envelopes, the registry of connections and the engine that
//! answers requests.

pub mod peers;
pub mod server;

use crate::event::{EventSubtype, EventType};
use crate::json::{json_member, json_parse, json_string_member, member, parse_document, string_member};
use crate::settings::{Settings, SettingsView};
use serde_json::Value;
use vstd::prelude::*;

verus! {

/// A request as it arrives: one per inbound frame.
#[derive(Debug, Clone, PartialEq, Eq)]
pub struct WebsocketRequest {
    pub id: String,
    pub token: String,
    pub event: String,
    pub data: Value,
}

/// What a request says, as plain mathematical values.
pub struct RequestView {
    pub id: Seq<char>,
    pub token: Seq<char>,
    pub event: Seq<char>,
    pub data: Value,
}

impl View for WebsocketRequest {
    type V = RequestView;

    open spec fn view(&self) -> RequestView {
        RequestView { id: self.id@, token: self.token@, event: self.event@, data: self.data }
    }
}

/// The request that a JSON document holds: `id`, `token` and `event` must be strings,
/// and `data` must be there, whatever it is. Other members are ignored.
pub open spec fn spec_request_from_json(doc: Value) -> Option<RequestView> {
    match (
        json_string_member(doc, "id"@),
        json_string_member(doc, "token"@),
        json_string_member(doc, "event"@),
        json_member(doc, "data"@),
    ) {
        (Some(id), Some(token), Some(event), Some(data)) => Some(
            RequestView { id, token, event, data },
        ),
        _ => None,
    }
}

/// The request that a frame's text holds: the text must be JSON, and the JSON a request.
pub open spec fn spec_parse_request(text: Seq<char>) -> Option<RequestView> {
    match json_parse(text) {
        Some(doc) => spec_request_from_json(doc),
        None => None,
    }
}

impl WebsocketRequest {
    /// Reads a request out of a JSON document.
    pub fn from_json(doc: &Value) -> (r: Option<WebsocketRequest>)
        ensures
            spec_request_from_json(*doc) == (match r {
                Some(request) => Some(request@),
                None => None,
            }),
    {
        let id = string_member(doc, "id");
        let token = string_member(doc, "token");
        let event = string_member(doc, "event");
        let data = member(doc, "data");
        match (id, token, event, data) {
            (Some(id), Some(token), Some(event), Some(data)) => Some(
                WebsocketRequest { id, token, event, data: data.clone() },
            ),
            _ => None,
        }
    }

    /// Reads a request out of the text of a frame. `None` for a text that is not JSON
    /// or holds no request: such a frame is dropped.
    pub fn parse(text: &str) -> (r: Option<WebsocketRequest>)
        ensures
            spec_parse_request(text@) == (match r {
                Some(request) => Some(request@),
                None => None,
            }),
    {
        match parse_document(text) {
            Ok(doc) => Self::from_json(&doc),
            Err(_) => None,
        }
    }
}

/// What a response carries as its `data`.
#[derive(Debug, PartialEq, Eq)]
pub enum ResponseData {
    /// Nothing: `null` on the wire.
    Null,
    /// A module's payload.
    Document(Value),
    /// The settings document.
    Settings(Settings),
}

/// What a response carries, as plain mathematical values.
pub enum ResponseDataView {
    Null,
    Document(Value),
    Settings(SettingsView),
}

impl View for ResponseData {
    type V = ResponseDataView;

    open spec fn view(&self) -> ResponseDataView {
        match self {
            ResponseData::Null => ResponseDataView::Null,
            ResponseData::Document(doc) => ResponseDataView::Document(*doc),
            ResponseData::Settings(settings) => ResponseDataView::Settings(settings@),
        }
    }
}

/// A response as it leaves: zero or more per request, and one per push.
#[derive(Debug, PartialEq, Eq)]
pub struct WebsocketResponse {
    pub id: String,
    pub type_: String,
    pub data: ResponseData,
    pub subtype: Option<String>,
    pub message: Option<String>,
    pub module: Option<String>,
}

/// What a response says, as plain mathematical values.
pub struct ResponseView {
    pub id: Seq<char>,
    pub type_: Seq<char>,
    pub data: ResponseDataView,
    pub subtype: Option<Seq<char>>,
    pub message: Option<Seq<char>>,
    pub module: Option<Seq<char>>,
}

/// The view of a string that may be absent.
pub open spec fn optional_view(s: Option<String>) -> Option<Seq<char>> {
    match s {
        Some(s) => Some(s@),
        None => None,
    }
}

impl View for WebsocketResponse {
    type V = ResponseView;

    open spec fn view(&self) -> ResponseView {
        ResponseView {
            id: self.id@,
            type_: self.type_@,
            data: self.data@,
            subtype: optional_view(self.subtype),
            message: optional_view(self.message),
            module: optional_view(self.module),
        }
    }
}

/// The views of a sequence of responses.
pub open spec fn response_views(responses: Seq<WebsocketResponse>) -> Seq<ResponseView> {
    responses.map_values(|r: WebsocketResponse| r@)
}

/// A response that carries nothing but its kind: an acknowledgement.
pub open spec fn spec_ack(id: Seq<char>, kind: EventType) -> ResponseView {
    ResponseView {
        id,
        type_: kind.wire_name(),
        data: ResponseDataView::Null,
        subtype: None,
        message: None,
        module: None,
    }
}

/// An error response.
pub open spec fn spec_error(
    id: Seq<char>,
    subtype: Option<EventSubtype>,
    message: Seq<char>,
    module: Option<Seq<char>>,
) -> ResponseView {
    ResponseView {
        id,
        type_: EventType::Error.wire_name(),
        data: ResponseDataView::Null,
        subtype: match subtype {
            Some(subtype) => Some(subtype.wire_name()),
            None => None,
        },
        message: Some(message),
        module,
    }
}

/// A response that carries a module's payload.
pub open spec fn spec_data_update(id: Seq<char>, module: Seq<char>, payload: Value) -> ResponseView {
    ResponseView {
        id,
        type_: EventType::DataUpdate.wire_name(),
        data: ResponseDataView::Document(payload),
        subtype: None,
        message: None,
        module: Some(module),
    }
}

/// A response that carries the settings document.
pub open spec fn spec_settings_result(id: Seq<char>, settings: SettingsView) -> ResponseView {
    ResponseView {
        id,
        type_: EventType::SettingsResult.wire_name(),
        data: ResponseDataView::Settings(settings),
        subtype: None,
        message: None,
        module: None,
    }
}

impl WebsocketResponse {
    /// A response that carries nothing but its kind.
    pub fn ack(id: &str, kind: EventType) -> (r: WebsocketResponse)
        ensures
            r@ == spec_ack(id@, kind),
    {
        WebsocketResponse {
            id: id.to_owned(),
            type_: kind.to_string(),
            data: ResponseData::Null,
            subtype: None,
            message: None,
            module: None,
        }
    }

    /// An error response, with the reason's subtype where there is one, and the name
    /// of the module it is about where it is about one.
    pub fn error(id: &str, subtype: Option<EventSubtype>, message: String, module: Option<String>) -> (r:
        WebsocketResponse)
        ensures
            r@ == spec_error(id@, subtype, message@, optional_view(module)),
    {
        WebsocketResponse {
            id: id.to_owned(),
            type_: EventType::Error.to_string(),
            data: ResponseData::Null,
            subtype: match subtype {
                Some(subtype) => Some(subtype.to_string()),
                None => None,
            },
            message: Some(message),
            module,
        }
    }

    /// A response that carries a module's payload.
    pub fn data_update(id: &str, module: String, payload: Value) -> (r: WebsocketResponse)
        ensures
            r@ == spec_data_update(id@, module@, payload),
    {
        WebsocketResponse {
            id: id.to_owned(),
            type_: EventType::DataUpdate.to_string(),
            data: ResponseData::Document(payload),
            subtype: None,
            message: None,
            module: Some(module),
        }
    }

    /// A response that carries the settings document.
    pub fn settings_result(id: &str, settings: Settings) -> (r: WebsocketResponse)
        ensures
            r@ == spec_settings_result(id@, settings@),
    {
        WebsocketResponse {
            id: id.to_owned(),
            type_: EventType::SettingsResult.to_string(),
            data: ResponseData::Settings(settings),
            subtype: None,
            message: None,
            module: None,
        }
    }
}

} // verus!
