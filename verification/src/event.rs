//! The kinds of frame on the wire and the reasons of its errors, each with the name it
//! goes by.

use crate::text::str_eq;
use vstd::prelude::*;

verus! {

/// The kinds of frame that travel over the socket, requests and responses alike.
#[derive(Debug, Clone, Copy, PartialEq, Eq, Structural)]
pub enum EventType {
    ApplicationUpdate,
    ApplicationUpdating,
    DataGet,
    DataListenerRegistered,
    DataListenerUnregistered,
    DataUpdate,
    Directories,
    Error,
    ExitApplication,
    ExitingApplication,
    File,
    Files,
    GetData,
    GetDirectories,
    GetFile,
    GetFiles,
    GetSettings,
    KeyboardKeyPressed,
    KeyboardKeypress,
    KeyboardText,
    KeyboardTextSent,
    MediaControl,
    Notification,
    NotificationSent,
    Open,
    Opened,
    PowerHibernate,
    PowerHibernating,
    PowerLock,
    PowerLocking,
    PowerLoggingOut,
    PowerLogout,
    PowerRestart,
    PowerRestarting,
    PowerShutdown,
    PowerShuttingDown,
    PowerSleep,
    PowerSleeping,
    RegisterDataListener,
    SettingsUpdated,
    SettingsResult,
    UnregisterDataListener,
    UpdateSettings,
    Unknown,
}

impl EventType {
    /// The name of this kind on the wire.
    pub open spec fn wire_name(self) -> Seq<char> {
        match self {
            EventType::ApplicationUpdate => "APPLICATION_UPDATE"@,
            EventType::ApplicationUpdating => "APPLICATION_UPDATING"@,
            EventType::DataGet => "DATA_GET"@,
            EventType::DataListenerRegistered => "DATA_LISTENER_REGISTERED"@,
            EventType::DataListenerUnregistered => "DATA_LISTENER_UNREGISTERED"@,
            EventType::DataUpdate => "DATA_UPDATE"@,
            EventType::Directories => "DIRECTORIES"@,
            EventType::Error => "ERROR"@,
            EventType::ExitApplication => "EXIT_APPLICATION"@,
            EventType::ExitingApplication => "EXITING_APPLICATION"@,
            EventType::File => "FILE"@,
            EventType::Files => "FILES"@,
            EventType::GetData => "GET_DATA"@,
            EventType::GetDirectories => "GET_DIRECTORIES"@,
            EventType::GetFile => "GET_FILE"@,
            EventType::GetFiles => "GET_FILES"@,
            EventType::GetSettings => "GET_SETTINGS"@,
            EventType::KeyboardKeyPressed => "KEYBOARD_KEY_PRESSED"@,
            EventType::KeyboardKeypress => "KEYBOARD_KEYPRESS"@,
            EventType::KeyboardText => "KEYBOARD_TEXT"@,
            EventType::KeyboardTextSent => "KEYBOARD_TEXT_SENT"@,
            EventType::MediaControl => "MEDIA_CONTROL"@,
            EventType::Notification => "NOTIFICATION"@,
            EventType::NotificationSent => "NOTIFICATION_SENT"@,
            EventType::Open => "OPEN"@,
            EventType::Opened => "OPENED"@,
            EventType::PowerHibernate => "POWER_HIBERNATE"@,
            EventType::PowerHibernating => "POWER_HIBERNATING"@,
            EventType::PowerLock => "POWER_LOCK"@,
            EventType::PowerLocking => "POWER_LOCKING"@,
            EventType::PowerLoggingOut => "POWER_LOGGINGOUT"@,
            EventType::PowerLogout => "POWER_LOGOUT"@,
            EventType::PowerRestart => "POWER_RESTART"@,
            EventType::PowerRestarting => "POWER_RESTARTING"@,
            EventType::PowerShutdown => "POWER_SHUTDOWN"@,
            EventType::PowerShuttingDown => "POWER_SHUTTINGDOWN"@,
            EventType::PowerSleep => "POWER_SLEEP"@,
            EventType::PowerSleeping => "POWER_SLEEPING"@,
            EventType::RegisterDataListener => "REGISTER_DATA_LISTENER"@,
            EventType::SettingsUpdated => "SETTINGS_UPDATED"@,
            EventType::SettingsResult => "SETTINGS_RESULT"@,
            EventType::UnregisterDataListener => "UNREGISTER_DATA_LISTENER"@,
            EventType::UpdateSettings => "UPDATE_SETTINGS"@,
            EventType::Unknown => "UNKNOWN"@,
        }
    }

    /// The kind that a wire name stands for, where it stands for one.
    pub open spec fn spec_parse(s: Seq<char>) -> Option<EventType> {
        if exists|e: EventType| e.wire_name() == s {
            Some(choose|e: EventType| e.wire_name() == s)
        } else {
            None
        }
    }

    /// What decoding a name gives: the kind that the name stands for, or a failure for
    /// a name that stands for none. The decode fails closed: a name outside the
    /// protocol is never taken for a kind, not even for `Unknown`, which only its own
    /// wire name decodes to.
    pub open spec fn spec_from_str(s: Seq<char>) -> Result<EventType, ()> {
        match Self::spec_parse(s) {
            Some(e) => Ok(e),
            None => Err(()),
        }
    }

    /// The wire name as a static string.
    pub fn as_str(&self) -> (r: &'static str)
        ensures
            r@ == self.wire_name(),
    {
        match self {
            EventType::ApplicationUpdate => "APPLICATION_UPDATE",
            EventType::ApplicationUpdating => "APPLICATION_UPDATING",
            EventType::DataGet => "DATA_GET",
            EventType::DataListenerRegistered => "DATA_LISTENER_REGISTERED",
            EventType::DataListenerUnregistered => "DATA_LISTENER_UNREGISTERED",
            EventType::DataUpdate => "DATA_UPDATE",
            EventType::Directories => "DIRECTORIES",
            EventType::Error => "ERROR",
            EventType::ExitApplication => "EXIT_APPLICATION",
            EventType::ExitingApplication => "EXITING_APPLICATION",
            EventType::File => "FILE",
            EventType::Files => "FILES",
            EventType::GetData => "GET_DATA",
            EventType::GetDirectories => "GET_DIRECTORIES",
            EventType::GetFile => "GET_FILE",
            EventType::GetFiles => "GET_FILES",
            EventType::GetSettings => "GET_SETTINGS",
            EventType::KeyboardKeyPressed => "KEYBOARD_KEY_PRESSED",
            EventType::KeyboardKeypress => "KEYBOARD_KEYPRESS",
            EventType::KeyboardText => "KEYBOARD_TEXT",
            EventType::KeyboardTextSent => "KEYBOARD_TEXT_SENT",
            EventType::MediaControl => "MEDIA_CONTROL",
            EventType::Notification => "NOTIFICATION",
            EventType::NotificationSent => "NOTIFICATION_SENT",
            EventType::Open => "OPEN",
            EventType::Opened => "OPENED",
            EventType::PowerHibernate => "POWER_HIBERNATE",
            EventType::PowerHibernating => "POWER_HIBERNATING",
            EventType::PowerLock => "POWER_LOCK",
            EventType::PowerLocking => "POWER_LOCKING",
            EventType::PowerLoggingOut => "POWER_LOGGINGOUT",
            EventType::PowerLogout => "POWER_LOGOUT",
            EventType::PowerRestart => "POWER_RESTART",
            EventType::PowerRestarting => "POWER_RESTARTING",
            EventType::PowerShutdown => "POWER_SHUTDOWN",
            EventType::PowerShuttingDown => "POWER_SHUTTINGDOWN",
            EventType::PowerSleep => "POWER_SLEEP",
            EventType::PowerSleeping => "POWER_SLEEPING",
            EventType::RegisterDataListener => "REGISTER_DATA_LISTENER",
            EventType::SettingsUpdated => "SETTINGS_UPDATED",
            EventType::SettingsResult => "SETTINGS_RESULT",
            EventType::UnregisterDataListener => "UNREGISTER_DATA_LISTENER",
            EventType::UpdateSettings => "UPDATE_SETTINGS",
            EventType::Unknown => "UNKNOWN",
        }
    }

    /// The wire name as an owned string.
    pub fn to_string(&self) -> (r: String)
        ensures
            r@ == self.wire_name(),
    {
        self.as_str().to_owned()
    }

    /// Decodes a wire name and fails closed: a name outside the protocol gives `None`.
    pub fn parse(s: &str) -> (r: Option<EventType>)
        ensures
            r == Self::spec_parse(s@),
            r matches Some(e) ==> e.wire_name() == s@,
            r is None ==> forall|e: EventType| e.wire_name() != s@,
    {
        let found = if str_eq(s, "APPLICATION_UPDATE") {
            Some(EventType::ApplicationUpdate)
        } else if str_eq(s, "APPLICATION_UPDATING") {
            Some(EventType::ApplicationUpdating)
        } else if str_eq(s, "DATA_GET") {
            Some(EventType::DataGet)
        } else if str_eq(s, "DATA_LISTENER_REGISTERED") {
            Some(EventType::DataListenerRegistered)
        } else if str_eq(s, "DATA_LISTENER_UNREGISTERED") {
            Some(EventType::DataListenerUnregistered)
        } else if str_eq(s, "DATA_UPDATE") {
            Some(EventType::DataUpdate)
        } else if str_eq(s, "DIRECTORIES") {
            Some(EventType::Directories)
        } else if str_eq(s, "ERROR") {
            Some(EventType::Error)
        } else if str_eq(s, "EXIT_APPLICATION") {
            Some(EventType::ExitApplication)
        } else if str_eq(s, "EXITING_APPLICATION") {
            Some(EventType::ExitingApplication)
        } else if str_eq(s, "FILE") {
            Some(EventType::File)
        } else if str_eq(s, "FILES") {
            Some(EventType::Files)
        } else if str_eq(s, "GET_DATA") {
            Some(EventType::GetData)
        } else if str_eq(s, "GET_DIRECTORIES") {
            Some(EventType::GetDirectories)
        } else if str_eq(s, "GET_FILE") {
            Some(EventType::GetFile)
        } else if str_eq(s, "GET_FILES") {
            Some(EventType::GetFiles)
        } else if str_eq(s, "GET_SETTINGS") {
            Some(EventType::GetSettings)
        } else if str_eq(s, "KEYBOARD_KEY_PRESSED") {
            Some(EventType::KeyboardKeyPressed)
        } else if str_eq(s, "KEYBOARD_KEYPRESS") {
            Some(EventType::KeyboardKeypress)
        } else if str_eq(s, "KEYBOARD_TEXT") {
            Some(EventType::KeyboardText)
        } else if str_eq(s, "KEYBOARD_TEXT_SENT") {
            Some(EventType::KeyboardTextSent)
        } else if str_eq(s, "MEDIA_CONTROL") {
            Some(EventType::MediaControl)
        } else if str_eq(s, "NOTIFICATION") {
            Some(EventType::Notification)
        } else if str_eq(s, "NOTIFICATION_SENT") {
            Some(EventType::NotificationSent)
        } else if str_eq(s, "OPEN") {
            Some(EventType::Open)
        } else if str_eq(s, "OPENED") {
            Some(EventType::Opened)
        } else if str_eq(s, "POWER_HIBERNATE") {
            Some(EventType::PowerHibernate)
        } else if str_eq(s, "POWER_HIBERNATING") {
            Some(EventType::PowerHibernating)
        } else if str_eq(s, "POWER_LOCK") {
            Some(EventType::PowerLock)
        } else if str_eq(s, "POWER_LOCKING") {
            Some(EventType::PowerLocking)
        } else if str_eq(s, "POWER_LOGGINGOUT") {
            Some(EventType::PowerLoggingOut)
        } else if str_eq(s, "POWER_LOGOUT") {
            Some(EventType::PowerLogout)
        } else if str_eq(s, "POWER_RESTART") {
            Some(EventType::PowerRestart)
        } else if str_eq(s, "POWER_RESTARTING") {
            Some(EventType::PowerRestarting)
        } else if str_eq(s, "POWER_SHUTDOWN") {
            Some(EventType::PowerShutdown)
        } else if str_eq(s, "POWER_SHUTTINGDOWN") {
            Some(EventType::PowerShuttingDown)
        } else if str_eq(s, "POWER_SLEEP") {
            Some(EventType::PowerSleep)
        } else if str_eq(s, "POWER_SLEEPING") {
            Some(EventType::PowerSleeping)
        } else if str_eq(s, "REGISTER_DATA_LISTENER") {
            Some(EventType::RegisterDataListener)
        } else if str_eq(s, "SETTINGS_UPDATED") {
            Some(EventType::SettingsUpdated)
        } else if str_eq(s, "SETTINGS_RESULT") {
            Some(EventType::SettingsResult)
        } else if str_eq(s, "UNREGISTER_DATA_LISTENER") {
            Some(EventType::UnregisterDataListener)
        } else if str_eq(s, "UPDATE_SETTINGS") {
            Some(EventType::UpdateSettings)
        } else if str_eq(s, "UNKNOWN") {
            Some(EventType::Unknown)
        } else {
            None
        };
        proof {
            match found {
                Some(e) => {
                    assert(e.wire_name() == s@);
                    lemma_event_type_names_distinct(choose|o: EventType| o.wire_name() == s@, e);
                },
                None => {
                    assert forall|o: EventType| o.wire_name() != s@ by {}
                },
            }
        }
        found
    }

    /// Decodes a wire name and fails closed: the kind for a name of the protocol, and
    /// an error for every other name.
    pub fn from_str(s: &str) -> (r: Result<EventType, ()>)
        ensures
            r == Self::spec_from_str(s@),
    {
        match Self::parse(s) {
            Some(e) => Ok(e),
            None => Err(()),
        }
    }
}

/// No two kinds share a wire name.
pub proof fn lemma_event_type_names_distinct(a: EventType, b: EventType)
    requires
        a.wire_name() == b.wire_name(),
    ensures
        a == b,
{
    reveal_strlit("APPLICATION_UPDATE");
    reveal_strlit("APPLICATION_UPDATING");
    reveal_strlit("DATA_GET");
    reveal_strlit("DATA_LISTENER_REGISTERED");
    reveal_strlit("DATA_LISTENER_UNREGISTERED");
    reveal_strlit("DATA_UPDATE");
    reveal_strlit("DIRECTORIES");
    reveal_strlit("ERROR");
    reveal_strlit("EXIT_APPLICATION");
    reveal_strlit("EXITING_APPLICATION");
    reveal_strlit("FILE");
    reveal_strlit("FILES");
    reveal_strlit("GET_DATA");
    reveal_strlit("GET_DIRECTORIES");
    reveal_strlit("GET_FILE");
    reveal_strlit("GET_FILES");
    reveal_strlit("GET_SETTINGS");
    reveal_strlit("KEYBOARD_KEY_PRESSED");
    reveal_strlit("KEYBOARD_KEYPRESS");
    reveal_strlit("KEYBOARD_TEXT");
    reveal_strlit("KEYBOARD_TEXT_SENT");
    reveal_strlit("MEDIA_CONTROL");
    reveal_strlit("NOTIFICATION");
    reveal_strlit("NOTIFICATION_SENT");
    reveal_strlit("OPEN");
    reveal_strlit("OPENED");
    reveal_strlit("POWER_HIBERNATE");
    reveal_strlit("POWER_HIBERNATING");
    reveal_strlit("POWER_LOCK");
    reveal_strlit("POWER_LOCKING");
    reveal_strlit("POWER_LOGGINGOUT");
    reveal_strlit("POWER_LOGOUT");
    reveal_strlit("POWER_RESTART");
    reveal_strlit("POWER_RESTARTING");
    reveal_strlit("POWER_SHUTDOWN");
    reveal_strlit("POWER_SHUTTINGDOWN");
    reveal_strlit("POWER_SLEEP");
    reveal_strlit("POWER_SLEEPING");
    reveal_strlit("REGISTER_DATA_LISTENER");
    reveal_strlit("SETTINGS_UPDATED");
    reveal_strlit("SETTINGS_RESULT");
    reveal_strlit("UNREGISTER_DATA_LISTENER");
    reveal_strlit("UPDATE_SETTINGS");
    reveal_strlit("UNKNOWN");
    // The length and the characters at two places tell all names apart.
    assert(a.wire_name().len() >= 4 && b.wire_name().len() >= 4);
    assert(a.wire_name()[0] != ' ' && b.wire_name()[0] != ' ');
    assert(a.wire_name().len() > 7 ==> a.wire_name()[7] != ' ');
    assert(b.wire_name().len() > 7 ==> b.wire_name()[7] != ' ');
}

/// Decoding the wire name of a kind gives that kind back, through either decoder.
pub proof fn law_event_type_round_trip(e: EventType)
    ensures
        EventType::spec_parse(e.wire_name()) == Some(e),
        EventType::spec_from_str(e.wire_name()) == Ok::<EventType, ()>(e),
{
    let found = choose|o: EventType| o.wire_name() == e.wire_name();
    lemma_event_type_names_distinct(found, e);
}

/// The decode fails closed. A name decodes to a kind only where it is that kind's
/// wire name, and a name that is no kind's wire name decodes to the failure, so that
/// no name outside the protocol is taken for an event.
pub proof fn law_event_type_decode_fails_closed(s: Seq<char>)
    ensures
        EventType::spec_from_str(s) matches Ok(e) ==> e.wire_name() == s,
        (forall|e: EventType| e.wire_name() != s) ==> EventType::spec_from_str(s) == Err::<
            EventType,
            (),
        >(()),
        EventType::spec_from_str(s) is Err ==> forall|e: EventType| e.wire_name() != s,
{
}

/// The reasons that an error frame can carry.
#[derive(Debug, Clone, Copy, PartialEq, Eq, Structural)]
pub enum EventSubtype {
    BadDirectory,
    BadFile,
    BadJson,
    BadKey,
    BadPath,
    BadRequest,
    BadToken,
    InvalidAction,
    ListenerAlreadyRegistered,
    ListenerNotRegistered,
    MissingAction,
    MissingBase,
    MissingKey,
    MissingModules,
    MissingPath,
    MissingPathUrl,
    MissingSetting,
    MissingText,
    MissingTitle,
    MissingToken,
    MissingValue,
    UnknownEvent,
}

impl EventSubtype {
    /// The name of this kind on the wire.
    pub open spec fn wire_name(self) -> Seq<char> {
        match self {
            EventSubtype::BadDirectory => "BAD_DIRECTORY"@,
            EventSubtype::BadFile => "BAD_FILE"@,
            EventSubtype::BadJson => "BAD_JSON"@,
            EventSubtype::BadKey => "MISSING_KEY"@,
            EventSubtype::BadPath => "BAD_PATH"@,
            EventSubtype::BadRequest => "BAD_REQUEST"@,
            EventSubtype::BadToken => "BAD_TOKEN"@,
            EventSubtype::InvalidAction => "INVALID_ACTION"@,
            EventSubtype::ListenerAlreadyRegistered => "LISTENER_ALREADY_REGISTERED"@,
            EventSubtype::ListenerNotRegistered => "LISTENER_NOT_REGISTERED"@,
            EventSubtype::MissingAction => "MISSING_ACTION"@,
            EventSubtype::MissingBase => "MISSING_BASE"@,
            EventSubtype::MissingKey => "MISSING_KEY"@,
            EventSubtype::MissingModules => "MISSING_MODULES"@,
            EventSubtype::MissingPath => "MISSING_PATH"@,
            EventSubtype::MissingPathUrl => "MISSING_PATH_URL"@,
            EventSubtype::MissingSetting => "MISSING_SETTING"@,
            EventSubtype::MissingText => "MISSING_TEXT"@,
            EventSubtype::MissingTitle => "MISSING_TITLE"@,
            EventSubtype::MissingToken => "MISSING_TOKEN"@,
            EventSubtype::MissingValue => "MISSING_VALUE"@,
            EventSubtype::UnknownEvent => "UNKNOWN_EVENT"@,
        }
    }

    /// The subtype that the decoder gives for the wire name of `self`: `BadKey` and
    /// `MissingKey` share one name, and the decoder gives `BadKey` for it.
    pub open spec fn canonical(self) -> EventSubtype {
        match self {
            EventSubtype::MissingKey => EventSubtype::BadKey,
            other => other,
        }
    }

    /// The subtype that a wire name stands for, where it stands for one.
    pub open spec fn spec_parse(s: Seq<char>) -> Option<EventSubtype> {
        if exists|e: EventSubtype| e.wire_name() == s {
            Some((choose|e: EventSubtype| e.wire_name() == s).canonical())
        } else {
            None
        }
    }

    /// What a wire name decodes to when unrecognised names fall back to `UnknownEvent`.
    pub open spec fn spec_from_str(s: Seq<char>) -> EventSubtype {
        match Self::spec_parse(s) {
            Some(e) => e,
            None => EventSubtype::UnknownEvent,
        }
    }

    /// The wire name as a static string.
    pub fn as_str(&self) -> (r: &'static str)
        ensures
            r@ == self.wire_name(),
    {
        match self {
            EventSubtype::BadDirectory => "BAD_DIRECTORY",
            EventSubtype::BadFile => "BAD_FILE",
            EventSubtype::BadJson => "BAD_JSON",
            EventSubtype::BadKey => "MISSING_KEY",
            EventSubtype::BadPath => "BAD_PATH",
            EventSubtype::BadRequest => "BAD_REQUEST",
            EventSubtype::BadToken => "BAD_TOKEN",
            EventSubtype::InvalidAction => "INVALID_ACTION",
            EventSubtype::ListenerAlreadyRegistered => "LISTENER_ALREADY_REGISTERED",
            EventSubtype::ListenerNotRegistered => "LISTENER_NOT_REGISTERED",
            EventSubtype::MissingAction => "MISSING_ACTION",
            EventSubtype::MissingBase => "MISSING_BASE",
            EventSubtype::MissingKey => "MISSING_KEY",
            EventSubtype::MissingModules => "MISSING_MODULES",
            EventSubtype::MissingPath => "MISSING_PATH",
            EventSubtype::MissingPathUrl => "MISSING_PATH_URL",
            EventSubtype::MissingSetting => "MISSING_SETTING",
            EventSubtype::MissingText => "MISSING_TEXT",
            EventSubtype::MissingTitle => "MISSING_TITLE",
            EventSubtype::MissingToken => "MISSING_TOKEN",
            EventSubtype::MissingValue => "MISSING_VALUE",
            EventSubtype::UnknownEvent => "UNKNOWN_EVENT",
        }
    }

    /// The wire name as an owned string.
    pub fn to_string(&self) -> (r: String)
        ensures
            r@ == self.wire_name(),
    {
        self.as_str().to_owned()
    }

    /// Decodes a wire name and fails closed: a name outside the protocol gives `None`.
    pub fn parse(s: &str) -> (r: Option<EventSubtype>)
        ensures
            r == Self::spec_parse(s@),
            r matches Some(e) ==> e.wire_name() == s@ && e != EventSubtype::MissingKey,
            r is None ==> forall|e: EventSubtype| e.wire_name() != s@,
    {
        let found = if str_eq(s, "BAD_DIRECTORY") {
            Some(EventSubtype::BadDirectory)
        } else if str_eq(s, "BAD_FILE") {
            Some(EventSubtype::BadFile)
        } else if str_eq(s, "BAD_JSON") {
            Some(EventSubtype::BadJson)
        } else if str_eq(s, "MISSING_KEY") {
            Some(EventSubtype::BadKey)
        } else if str_eq(s, "BAD_PATH") {
            Some(EventSubtype::BadPath)
        } else if str_eq(s, "BAD_REQUEST") {
            Some(EventSubtype::BadRequest)
        } else if str_eq(s, "BAD_TOKEN") {
            Some(EventSubtype::BadToken)
        } else if str_eq(s, "INVALID_ACTION") {
            Some(EventSubtype::InvalidAction)
        } else if str_eq(s, "LISTENER_ALREADY_REGISTERED") {
            Some(EventSubtype::ListenerAlreadyRegistered)
        } else if str_eq(s, "LISTENER_NOT_REGISTERED") {
            Some(EventSubtype::ListenerNotRegistered)
        } else if str_eq(s, "MISSING_ACTION") {
            Some(EventSubtype::MissingAction)
        } else if str_eq(s, "MISSING_BASE") {
            Some(EventSubtype::MissingBase)
        } else if str_eq(s, "MISSING_MODULES") {
            Some(EventSubtype::MissingModules)
        } else if str_eq(s, "MISSING_PATH") {
            Some(EventSubtype::MissingPath)
        } else if str_eq(s, "MISSING_PATH_URL") {
            Some(EventSubtype::MissingPathUrl)
        } else if str_eq(s, "MISSING_SETTING") {
            Some(EventSubtype::MissingSetting)
        } else if str_eq(s, "MISSING_TEXT") {
            Some(EventSubtype::MissingText)
        } else if str_eq(s, "MISSING_TITLE") {
            Some(EventSubtype::MissingTitle)
        } else if str_eq(s, "MISSING_TOKEN") {
            Some(EventSubtype::MissingToken)
        } else if str_eq(s, "MISSING_VALUE") {
            Some(EventSubtype::MissingValue)
        } else if str_eq(s, "UNKNOWN_EVENT") {
            Some(EventSubtype::UnknownEvent)
        } else {
            None
        };
        proof {
            match found {
                Some(e) => {
                    assert(e.wire_name() == s@);
                    lemma_event_subtype_names_distinct(choose|o: EventSubtype| o.wire_name() == s@, e);
                },
                None => {
                    assert forall|o: EventSubtype| o.wire_name() != s@ by {}
                },
            }
        }
        found
    }

    /// Decodes a wire name; a name outside the protocol decodes to `UnknownEvent`.
    pub fn from_str(s: &str) -> (r: Result<EventSubtype, ()>)
        ensures
            r == Ok::<EventSubtype, ()>(Self::spec_from_str(s@)),
    {
        match Self::parse(s) {
            Some(e) => Ok(e),
            None => Ok(EventSubtype::UnknownEvent),
        }
    }
}

/// Two subtypes share a wire name only if the decoder treats them as one.
pub proof fn lemma_event_subtype_names_distinct(a: EventSubtype, b: EventSubtype)
    requires
        a.wire_name() == b.wire_name(),
    ensures
        a.canonical() == b.canonical(),
{
    reveal_strlit("BAD_DIRECTORY");
    reveal_strlit("BAD_FILE");
    reveal_strlit("BAD_JSON");
    reveal_strlit("MISSING_KEY");
    reveal_strlit("BAD_PATH");
    reveal_strlit("BAD_REQUEST");
    reveal_strlit("BAD_TOKEN");
    reveal_strlit("INVALID_ACTION");
    reveal_strlit("LISTENER_ALREADY_REGISTERED");
    reveal_strlit("LISTENER_NOT_REGISTERED");
    reveal_strlit("MISSING_ACTION");
    reveal_strlit("MISSING_BASE");
    reveal_strlit("MISSING_MODULES");
    reveal_strlit("MISSING_PATH");
    reveal_strlit("MISSING_PATH_URL");
    reveal_strlit("MISSING_SETTING");
    reveal_strlit("MISSING_TEXT");
    reveal_strlit("MISSING_TITLE");
    reveal_strlit("MISSING_TOKEN");
    reveal_strlit("MISSING_VALUE");
    reveal_strlit("UNKNOWN_EVENT");
    // The length and the characters at two places tell all names apart.
    assert(a.wire_name().len() >= 8 && b.wire_name().len() >= 8);
    assert(a.wire_name()[4] != ' ' && b.wire_name()[4] != ' ');
    assert(a.wire_name().len() > 10 ==> a.wire_name()[10] != ' ');
    assert(b.wire_name().len() > 10 ==> b.wire_name()[10] != ' ');
}

/// Decoding the wire name of a subtype gives its canonical form back: the subtype
/// itself, except that `MissingKey` comes back as `BadKey`.
pub proof fn law_event_subtype_round_trip(e: EventSubtype)
    ensures
        EventSubtype::spec_parse(e.wire_name()) == Some(e.canonical()),
        EventSubtype::spec_from_str(e.wire_name()) == e.canonical(),
        e != EventSubtype::MissingKey ==> EventSubtype::spec_from_str(e.wire_name()) == e,
{
    let found = choose|o: EventSubtype| o.wire_name() == e.wire_name();
    lemma_event_subtype_names_distinct(found, e);
}

} // verus!
