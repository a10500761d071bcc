//! The client side of the socket: how the program's own windows reach the API.

use crate::backend::BACKEND_HOST;
use crate::settings::Settings;
use crate::text::{decimal, i64_to_string};
use vstd::prelude::*;

verus! {

/// A client of the socket, with the settings that tell it where the API is.
#[derive(Debug, PartialEq, Eq)]
pub struct WebSocketClient {
    pub settings: Settings,
}

/// The address of the socket, for a port.
pub open spec fn spec_websocket_url(port: i64) -> Seq<char> {
    "ws://"@ + BACKEND_HOST@ + ":"@ + decimal(port as int) + "/api/websocket"@
}

impl WebSocketClient {
    /// A client that goes by the given settings.
    pub fn new(settings: Settings) -> (r: WebSocketClient)
        ensures
            r.settings == settings,
    {
        WebSocketClient { settings }
    }

    /// The address that the client connects to.
    pub fn url(&self) -> (r: String)
        ensures
            r@ == spec_websocket_url(self.settings.api.port),
    {
        let mut url = "ws://".to_owned();
        url.append(BACKEND_HOST);
        url.append(":");
        url.append(i64_to_string(self.settings.api.port).as_str());
        url.append("/api/websocket");
        url
    }
}

} // verus!
