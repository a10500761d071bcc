//! The settings document: one record for the whole process, read and replaced whole.

use crate::json::{
    boolean_member, integer_member, items_of, json_boolean_member, json_integer_member,
    json_items_member, json_member, json_parse, json_string_member, member, parse_document,
    string_member,
};
use crate::ids::{new_uuid, UUID_LENGTH};
use crate::text::{optional_chars, str_eq};
use serde_json::Value;
use vstd::prelude::*;

verus! {

/// The port that a fresh settings document names.
pub const DEFAULT_PORT: i64 = 9170;

/// How the API is reached: the shared secret and the port.
#[derive(Debug, PartialEq, Eq)]
pub struct SettingsAPI {
    pub token: String,
    pub port: i64,
}

/// A keyboard shortcut: its name and the key.
#[derive(Debug, PartialEq, Eq)]
pub struct SettingsKeyboardHotkeys {
    pub name: String,
    pub key: String,
}

/// A media directory: its name and its path.
#[derive(Debug, PartialEq, Eq)]
pub struct SettingsMediaDirectories {
    pub name: String,
    pub path: String,
}

/// The media settings.
#[derive(Debug, PartialEq, Eq)]
pub struct SettingsMedia {
    pub directories: Vec<SettingsMediaDirectories>,
}

/// The settings document.
#[derive(Debug, PartialEq, Eq)]
pub struct Settings {
    pub api: SettingsAPI,
    pub autostart: bool,
    pub keyboard_hotkeys: Vec<SettingsKeyboardHotkeys>,
    pub log_level: String,
    pub media: SettingsMedia,
}

/// What a settings document says, as plain mathematical values. The two lists hold
/// pairs: name and key of a shortcut, name and path of a directory.
pub struct SettingsView {
    pub token: Seq<char>,
    pub port: i64,
    pub autostart: bool,
    pub keyboard_hotkeys: Seq<(Seq<char>, Seq<char>)>,
    pub log_level: Seq<char>,
    pub directories: Seq<(Seq<char>, Seq<char>)>,
}

impl View for SettingsAPI {
    type V = (Seq<char>, i64);

    open spec fn view(&self) -> (Seq<char>, i64) {
        (self.token@, self.port)
    }
}

impl View for SettingsKeyboardHotkeys {
    type V = (Seq<char>, Seq<char>);

    open spec fn view(&self) -> (Seq<char>, Seq<char>) {
        (self.name@, self.key@)
    }
}

impl View for SettingsMediaDirectories {
    type V = (Seq<char>, Seq<char>);

    open spec fn view(&self) -> (Seq<char>, Seq<char>) {
        (self.name@, self.path@)
    }
}

impl View for SettingsMedia {
    type V = Seq<(Seq<char>, Seq<char>)>;

    open spec fn view(&self) -> Seq<(Seq<char>, Seq<char>)> {
        self.directories@.map_values(|d: SettingsMediaDirectories| d@)
    }
}

impl View for Settings {
    type V = SettingsView;

    open spec fn view(&self) -> SettingsView {
        SettingsView {
            token: self.api.token@,
            port: self.api.port,
            autostart: self.autostart,
            keyboard_hotkeys: self.keyboard_hotkeys@.map_values(|h: SettingsKeyboardHotkeys| h@),
            log_level: self.log_level@,
            directories: self.media@,
        }
    }
}

impl Clone for SettingsAPI {
    fn clone(&self) -> (r: Self)
        ensures
            r@ == self@,
    {
        SettingsAPI { token: self.token.clone(), port: self.port }
    }
}

impl Clone for SettingsKeyboardHotkeys {
    fn clone(&self) -> (r: Self)
        ensures
            r@ == self@,
    {
        SettingsKeyboardHotkeys { name: self.name.clone(), key: self.key.clone() }
    }
}

impl Clone for SettingsMediaDirectories {
    fn clone(&self) -> (r: Self)
        ensures
            r@ == self@,
    {
        SettingsMediaDirectories { name: self.name.clone(), path: self.path.clone() }
    }
}

impl Clone for SettingsMedia {
    fn clone(&self) -> (r: Self)
        ensures
            r@ == self@,
    {
        let mut directories: Vec<SettingsMediaDirectories> = Vec::new();
        let mut i: usize = 0;
        while i < self.directories.len()
            invariant
                i <= self.directories.len(),
                directories.len() == i,
                forall|j: int| 0 <= j < i ==> (#[trigger] directories@[j])@ == self.directories@[j]@,
            decreases self.directories.len() - i,
        {
            directories.push(self.directories[i].clone());
            i = i + 1;
        }
        let r = SettingsMedia { directories };
        assert(r@ =~= self@);
        r
    }
}

impl Clone for Settings {
    fn clone(&self) -> (r: Self)
        ensures
            r@ == self@,
    {
        let mut keyboard_hotkeys: Vec<SettingsKeyboardHotkeys> = Vec::new();
        let mut i: usize = 0;
        while i < self.keyboard_hotkeys.len()
            invariant
                i <= self.keyboard_hotkeys.len(),
                keyboard_hotkeys.len() == i,
                forall|j: int|
                    0 <= j < i ==> (#[trigger] keyboard_hotkeys@[j])@ == self.keyboard_hotkeys@[j]@,
            decreases self.keyboard_hotkeys.len() - i,
        {
            keyboard_hotkeys.push(self.keyboard_hotkeys[i].clone());
            i = i + 1;
        }
        let r = Settings {
            api: self.api.clone(),
            autostart: self.autostart,
            keyboard_hotkeys,
            log_level: self.log_level.clone(),
            media: self.media.clone(),
        };
        assert(r@.keyboard_hotkeys =~= self@.keyboard_hotkeys);
        r
    }
}

/// What a fresh settings document says, given its token: the default port, no
/// autostart, no shortcuts, level `INFO`, no media directories.
pub open spec fn spec_create_settings(token: Seq<char>) -> SettingsView {
    SettingsView {
        token,
        port: DEFAULT_PORT,
        autostart: false,
        keyboard_hotkeys: Seq::empty(),
        log_level: "INFO"@,
        directories: Seq::empty(),
    }
}

/// Makes a fresh settings document around a token.
pub fn create_settings(token: String) -> (r: Settings)
    ensures
        r@ == spec_create_settings(token@),
{
    let r = Settings {
        api: SettingsAPI { token, port: DEFAULT_PORT },
        autostart: false,
        keyboard_hotkeys: Vec::new(),
        log_level: "INFO".to_owned(),
        media: SettingsMedia { directories: Vec::new() },
    };
    assert(r@.keyboard_hotkeys =~= Seq::empty());
    assert(r@.directories =~= Seq::empty());
    r
}

/// The pair of strings that an object holds under two keys.
pub open spec fn json_pair(item: Value, first: Seq<char>, second: Seq<char>) -> Option<
    (Seq<char>, Seq<char>),
> {
    match (json_string_member(item, first), json_string_member(item, second)) {
        (Some(a), Some(b)) => Some((a, b)),
        _ => None,
    }
}

/// Every document of the sequence holds strings under both keys.
pub open spec fn all_pairs(items: Seq<Value>, first: Seq<char>, second: Seq<char>) -> bool {
    forall|i: int| 0 <= i < items.len() ==> (#[trigger] json_pair(items[i], first, second)) is Some
}

/// The pairs that the documents of a sequence hold, where each holds one.
pub open spec fn json_pairs(items: Seq<Value>, first: Seq<char>, second: Seq<char>) -> Option<
    Seq<(Seq<char>, Seq<char>)>,
> {
    if all_pairs(items, first, second) {
        Some(Seq::new(items.len(), |i: int| json_pair(items[i], first, second)->0))
    } else {
        None
    }
}

/// The pairs under a key of an object, where that member is an array of such pairs.
pub open spec fn json_pairs_member(
    doc: Value,
    key: Seq<char>,
    first: Seq<char>,
    second: Seq<char>,
) -> Option<Seq<(Seq<char>, Seq<char>)>> {
    match json_items_member(doc, key) {
        Some(items) => json_pairs(items, first, second),
        None => None,
    }
}

/// What a JSON document says as a settings document: every member must be there and of
/// its type; members that the settings do not know are ignored.
pub open spec fn spec_settings_from_json(doc: Value) -> Option<SettingsView> {
    match (json_member(doc, "api"@), json_member(doc, "media"@)) {
        (Some(api), Some(media)) => match (
            json_string_member(api, "token"@),
            json_integer_member(api, "port"@),
            json_boolean_member(doc, "autostart"@),
            json_pairs_member(doc, "keyboard_hotkeys"@, "name"@, "key"@),
            json_string_member(doc, "log_level"@),
            json_pairs_member(media, "directories"@, "name"@, "path"@),
        ) {
            (
                Some(token),
                Some(port),
                Some(autostart),
                Some(keyboard_hotkeys),
                Some(log_level),
                Some(directories),
            ) => Some(
                SettingsView { token, port, autostart, keyboard_hotkeys, log_level, directories },
            ),
            _ => None,
        },
        _ => None,
    }
}

fn pairs_member(doc: &Value, key: &str, first: &str, second: &str) -> (r: Option<
    Vec<(String, String)>,
>)
    ensures
        json_pairs_member(*doc, key@, first@, second@) == (match r {
            Some(pairs) => Some(pairs@.map_values(|p: (String, String)| (p.0@, p.1@))),
            None => None,
        }),
{
    let items = match member(doc, key) {
        Some(found) => match items_of(found) {
            Some(items) => items,
            None => {
                return None;
            },
        },
        None => {
            return None;
        },
    };
    let mut pairs: Vec<(String, String)> = Vec::new();
    let mut i: usize = 0;
    while i < items.len()
        invariant
            i <= items.len(),
            pairs.len() == i,
            json_items_member(*doc, key@) == Some(items@),
            forall|j: int|
                0 <= j < i ==> (#[trigger] json_pair(items@[j], first@, second@)) == Some(
                    (pairs@[j].0@, pairs@[j].1@),
                ),
        decreases items.len() - i,
    {
        let a = string_member(&items[i], first);
        let b = string_member(&items[i], second);
        match (a, b) {
            (Some(a), Some(b)) => {
                pairs.push((a, b));
            },
            _ => {
                assert(json_pair(items@[i as int], first@, second@) is None);
                return None;
            },
        }
        i = i + 1;
    }
    proof {
        assert(all_pairs(items@, first@, second@));
        assert(pairs@.map_values(|p: (String, String)| (p.0@, p.1@)) =~= json_pairs(
            items@,
            first@,
            second@,
        )->0);
    }
    Some(pairs)
}

impl Settings {
    /// Reads a settings document out of a JSON document. `None` where a member is
    /// missing or of another type than the settings give it.
    pub fn from_json(doc: &Value) -> (r: Option<Settings>)
        ensures
            spec_settings_from_json(*doc) == (match r {
                Some(settings) => Some(settings@),
                None => None,
            }),
    {
        let api = match member(doc, "api") {
            Some(api) => api,
            None => {
                return None;
            },
        };
        let media = match member(doc, "media") {
            Some(media) => media,
            None => {
                return None;
            },
        };
        let token = string_member(api, "token");
        let port = integer_member(api, "port");
        let autostart = boolean_member(doc, "autostart");
        let hotkeys = pairs_member(doc, "keyboard_hotkeys", "name", "key");
        let log_level = string_member(doc, "log_level");
        let directories = pairs_member(media, "directories", "name", "path");
        match (token, port, autostart, hotkeys, log_level, directories) {
            (
                Some(token),
                Some(port),
                Some(autostart),
                Some(hotkeys),
                Some(log_level),
                Some(directories),
            ) => {
                let ghost want = spec_settings_from_json(*doc)->0;
                let mut keyboard_hotkeys: Vec<SettingsKeyboardHotkeys> = Vec::new();
                let mut hotkeys = hotkeys;
                let mut directories = directories;
                let mut i: usize = 0;
                while i < hotkeys.len()
                    invariant
                        i <= hotkeys.len(),
                        keyboard_hotkeys.len() == i,
                        hotkeys@.map_values(|p: (String, String)| (p.0@, p.1@))
                            == want.keyboard_hotkeys,
                        forall|j: int|
                            0 <= j < i ==> (#[trigger] keyboard_hotkeys@[j])@
                                == want.keyboard_hotkeys[j],
                    decreases hotkeys.len() - i,
                {
                    let name = hotkeys[i].0.clone();
                    let key = hotkeys[i].1.clone();
                    assert(hotkeys@.map_values(|p: (String, String)| (p.0@, p.1@))[i as int] == (
                        name@,
                        key@,
                    ));
                    keyboard_hotkeys.push(SettingsKeyboardHotkeys { name, key });
                    i = i + 1;
                }
                let mut media_directories: Vec<SettingsMediaDirectories> = Vec::new();
                let mut k: usize = 0;
                while k < directories.len()
                    invariant
                        k <= directories.len(),
                        media_directories.len() == k,
                        directories@.map_values(|p: (String, String)| (p.0@, p.1@))
                            == want.directories,
                        forall|j: int|
                            0 <= j < k ==> (#[trigger] media_directories@[j])@
                                == want.directories[j],
                    decreases directories.len() - k,
                {
                    let name = directories[k].0.clone();
                    let path = directories[k].1.clone();
                    assert(directories@.map_values(|p: (String, String)| (p.0@, p.1@))[k as int]
                        == (name@, path@));
                    media_directories.push(SettingsMediaDirectories { name, path });
                    k = k + 1;
                }
                let settings = Settings {
                    api: SettingsAPI { token, port },
                    autostart,
                    keyboard_hotkeys,
                    log_level,
                    media: SettingsMedia { directories: media_directories },
                };
                proof {
                    assert(settings@.keyboard_hotkeys =~= want.keyboard_hotkeys);
                    assert(settings@.directories =~= want.directories);
                }
                Some(settings)
            },
            _ => None,
        }
    }
}

/// What a text says as a settings document: it must be JSON, and the JSON a settings
/// document.
pub open spec fn spec_parse_settings(text: Seq<char>) -> Option<SettingsView> {
    match json_parse(text) {
        Some(doc) => spec_settings_from_json(doc),
        None => None,
    }
}

/// Reads a settings document out of a text.
pub fn parse_settings(text: &str) -> (r: Option<Settings>)
    ensures
        spec_parse_settings(text@) == (match r {
            Some(settings) => Some(settings@),
            None => None,
        }),
{
    match parse_document(text) {
        Ok(doc) => Settings::from_json(&doc),
        Err(_) => None,
    }
}

/// Settings as they come out of the settings file.
#[derive(Debug, PartialEq, Eq)]
pub struct LoadedSettings {
    /// The settings to work with.
    pub settings: Settings,
    /// Whether they are fresh, so that the file has to be written.
    pub created: bool,
}

/// The settings that a settings file gives (`None` for a file that is missing or
/// cannot be read), where `token` would be the token of a fresh document: those of the
/// file where it holds a settings document, a fresh document in every other case.
pub open spec fn spec_load_settings(contents: Option<Seq<char>>, token: Seq<char>) -> (
    SettingsView,
    bool,
) {
    match contents {
        Some(text) => match spec_parse_settings(text) {
            Some(settings) => (settings, false),
            None => (spec_create_settings(token), true),
        },
        None => (spec_create_settings(token), true),
    }
}

/// Decides what the settings are, from what the settings file holds (`None` where it
/// is missing or cannot be read) and the token that a fresh document would get.
pub fn load_settings(contents: Option<&str>, token: String) -> (r: LoadedSettings)
    ensures
        (r.settings@, r.created) == spec_load_settings(optional_chars(contents), token@),
{
    match contents {
        Some(text) => match parse_settings(text) {
            Some(settings) => LoadedSettings { settings, created: false },
            None => LoadedSettings { settings: create_settings(token), created: true },
        },
        None => LoadedSettings { settings: create_settings(token), created: true },
    }
}

/// Decides what the settings are, from what the settings file holds (`None` where it
/// is missing or cannot be read). Where the file holds no settings document, a fresh
/// one is made around a fresh token of 36 characters: whatever that token is, the
/// outcome is that of `load_settings` with it.
pub fn get_settings(contents: Option<&str>) -> (r: LoadedSettings)
    ensures
        exists|token: Seq<char>|
            token.len() == UUID_LENGTH && (r.settings@, r.created) == #[trigger] spec_load_settings(
                optional_chars(contents),
                token,
            ),
        r.created ==> r.settings@.token.len() == UUID_LENGTH,
{
    let token = new_uuid();
    let ghost fresh = token@;
    let r = load_settings(contents, token);
    assert((r.settings@, r.created) == spec_load_settings(optional_chars(contents), fresh));
    r
}

/// Replaces the settings whole: the new document takes the place of the old one, and
/// nothing of the old one is kept.
pub fn update_settings(settings: &mut Settings, replacement: Settings)
    ensures
        *final(settings) == replacement,
{
    *settings = replacement;
}

/// How much the log holds.
#[derive(Debug, Clone, Copy, PartialEq, Eq, Structural)]
pub enum LogLevel {
    Trace,
    Debug,
    Info,
    Warn,
    Error,
    Off,
}

/// The level that a settings document's `log_level` asks for. A text that names no
/// level asks for `Info`.
pub open spec fn spec_log_level(level: Seq<char>) -> LogLevel {
    if level == "TRACE"@ {
        LogLevel::Trace
    } else if level == "DEBUG"@ {
        LogLevel::Debug
    } else if level == "INFO"@ {
        LogLevel::Info
    } else if level == "WARNING"@ {
        LogLevel::Warn
    } else if level == "ERROR"@ {
        LogLevel::Error
    } else if level == "CRITICAL"@ {
        LogLevel::Off
    } else {
        LogLevel::Info
    }
}

/// The level that a settings document's `log_level` asks for.
pub fn log_level(level: &str) -> (r: LogLevel)
    ensures
        r == spec_log_level(level@),
{
    if str_eq(level, "TRACE") {
        LogLevel::Trace
    } else if str_eq(level, "DEBUG") {
        LogLevel::Debug
    } else if str_eq(level, "INFO") {
        LogLevel::Info
    } else if str_eq(level, "WARNING") {
        LogLevel::Warn
    } else if str_eq(level, "ERROR") {
        LogLevel::Error
    } else if str_eq(level, "CRITICAL") {
        LogLevel::Off
    } else {
        LogLevel::Info
    }
}

} // verus!
