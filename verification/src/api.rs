//! The plain HTTP side of the API: its fixed answers and the token check of its routes.

use crate::modules::Module;
use crate::settings::Settings;
use crate::store::{ModuleSnapshot, ModuleStore};
use crate::text::{optional_chars, str_eq};
use serde_json::Value;
use vstd::prelude::*;

verus! {

/// The body of an error answer.
#[derive(Debug, Clone, Copy, PartialEq, Eq)]
pub struct APIError {
    pub code: u16,
    pub message: &'static str,
}

/// The body of the answer of the root route.
#[derive(Debug, Clone, Copy, PartialEq, Eq)]
pub struct APIRoot {
    pub message: &'static str,
}

/// The body of the answer of the API route.
#[derive(Debug, Clone, Copy, PartialEq, Eq)]
pub struct APISubRoot {
    pub message: &'static str,
    pub version: &'static str,
}

/// A token that has passed the check of a route.
#[derive(Debug, Clone, Copy, PartialEq, Eq)]
pub struct Token<'r>(pub &'r str);

/// Why a request did not pass the token check.
#[derive(Debug, Clone, Copy, PartialEq, Eq, Structural)]
pub enum TokenError {
    /// The request carries no token.
    Missing,
    /// The request carries a token that is not the settings' token.
    Invalid,
}

/// The status that a request gets which did not pass the token check.
pub const TOKEN_ERROR_STATUS: u16 = 400;

/// The address that the API listens on: every interface of the machine.
pub const LISTEN_ADDRESS: [u8; 4] = [0, 0, 0, 0];

/// The port that the API listens on, for the port that the settings name: the port
/// itself where it fits into sixteen bits, and its lowest sixteen bits where it does
/// not.
pub fn listen_port(port: i64) -> (r: u16)
    ensures
        r == port as int % 0x10000,
{
    let low: i64 = port & 0xffff;
    assert(low == port as int % 0x10000 && 0 <= low < 0x10000) by (bit_vector)
        requires
            low == port & 0xffff,
    ;
    low as u16
}

/// The answer to a request for a route that does not exist.
pub fn not_found() -> (r: APIError)
    ensures
        r.code == 404,
        r.message@ == "Not Found"@,
{
    APIError { code: 404, message: "Not Found" }
}

/// The answer of the root route, which serves as the probe's target: it needs no
/// token.
pub fn root() -> (r: APIRoot)
    ensures
        r.message@ == "Hello!"@,
{
    APIRoot { message: "Hello!" }
}

/// The answer of the API route, for a request that has passed the token check:
/// a greeting and the version of the program.
pub fn api(_token: Token<'_>, version: &'static str) -> (r: APISubRoot)
    ensures
        r.message@ == "Hello!"@,
        r.version@ == version@,
{
    APISubRoot { message: "Hello!", version }
}

/// Whether a token is the settings' token, character for character.
pub fn is_valid(token: &str, settings: &Settings) -> (r: bool)
    ensures
        r == (token@ == settings@.token),
{
    str_eq(token, settings.api.token.as_str())
}

/// What the token check of a route comes to, from the `token` header of the request
/// (`None` where it has none).
pub open spec fn spec_check_token(header: Option<Seq<char>>, token: Seq<char>) -> Result<
    Seq<char>,
    TokenError,
> {
    match header {
        None => Err(TokenError::Missing),
        Some(given) => if given == token {
            Ok(given)
        } else {
            Err(TokenError::Invalid)
        },
    }
}

impl<'r> Token<'r> {
    /// The token check of a route, from the `token` header of the request (`None`
    /// where it has none). A request without the header is `Missing`, one with
    /// another token than the settings' is `Invalid`, and any other passes.
    pub fn from_request(header: Option<&'r str>, settings: &Settings) -> (r: Result<
        Token<'r>,
        TokenError,
    >)
        ensures
            spec_check_token(optional_chars(header), settings@.token) == (match r {
                Ok(token) => Ok::<Seq<char>, TokenError>(token.0@),
                Err(e) => Err::<Seq<char>, TokenError>(e),
            }),
    {
        match header {
            None => Err(TokenError::Missing),
            Some(given) => if is_valid(given, settings) {
                Ok(Token(given))
            } else {
                Err(TokenError::Invalid)
            },
        }
    }
}

/// The body of the data route for a module's name: the stored payload of the module,
/// or nothing where the name stands for no module or the module has no snapshot.
pub open spec fn spec_data(store: Map<Module, ModuleSnapshot>, name: Seq<char>) -> Option<Value> {
    match Module::spec_parse(name) {
        Some(module) => if store.contains_key(module) {
            Some(store[module].payload)
        } else {
            None
        },
        None => None,
    }
}

/// The body of the data route for a module's name, for a request that has passed the
/// token check. `None` stands for the JSON `null` that the route answers with where
/// it has no payload to give.
pub fn data(_token: Token<'_>, module: &str, store: &ModuleStore) -> (r: Option<Value>)
    ensures
        r == spec_data(store@, module@),
{
    match Module::parse(module) {
        Some(module) => match store.read(&module) {
            Ok(payload) => Some(payload),
            Err(_) => None,
        },
        None => None,
    }
}

} // verus!
