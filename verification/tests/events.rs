use systembridge::event::{EventSubtype, EventType};

#[test]
fn event_type_names_are_the_wire_names() {
    assert_eq!(EventType::GetData.to_string(), "GET_DATA");
    assert_eq!(EventType::DataUpdate.as_str(), "DATA_UPDATE");
    assert_eq!(EventType::PowerLoggingOut.to_string(), "POWER_LOGGINGOUT");
    assert_eq!(EventType::PowerShuttingDown.to_string(), "POWER_SHUTTINGDOWN");
    assert_eq!(EventType::ExitingApplication.to_string(), "EXITING_APPLICATION");
    assert_eq!(EventType::Unknown.to_string(), "UNKNOWN");
}

#[test]
fn event_type_decodes_known_names() {
    assert_eq!(EventType::from_str("GET_DATA"), Ok(EventType::GetData));
    assert_eq!(EventType::from_str("REGISTER_DATA_LISTENER"), Ok(EventType::RegisterDataListener));
    assert_eq!(EventType::from_str("KEYBOARD_KEYPRESS"), Ok(EventType::KeyboardKeypress));
    assert_eq!(EventType::from_str("KEYBOARD_KEY_PRESSED"), Ok(EventType::KeyboardKeyPressed));
    assert_eq!(EventType::parse("UPDATE_SETTINGS"), Some(EventType::UpdateSettings));
}

#[test]
fn event_type_from_str_fails_closed() {
    assert_eq!(EventType::from_str("NO_SUCH_EVENT"), Err(()));
    assert_eq!(EventType::from_str(""), Err(()));
    assert_eq!(EventType::from_str("get_data"), Err(()));
    assert_eq!(EventType::from_str("GET_DATA "), Err(()));
    assert_eq!(EventType::from_str("BOGUS"), Err(()));
    assert_eq!(EventType::from_str("Unknown"), Err(()));
    assert_eq!(EventType::from_str("UNKNOWN"), Ok(EventType::Unknown));
}

#[test]
fn event_type_parse_fails_closed() {
    assert_eq!(EventType::parse("NO_SUCH_EVENT"), None);
    assert_eq!(EventType::parse("GET_DATA "), None);
    assert_eq!(EventType::parse("UNKNOWN"), Some(EventType::Unknown));
}

#[test]
fn every_event_type_round_trips() {
    let all = [
        EventType::ApplicationUpdate,
        EventType::ApplicationUpdating,
        EventType::DataGet,
        EventType::DataListenerRegistered,
        EventType::DataListenerUnregistered,
        EventType::DataUpdate,
        EventType::Directories,
        EventType::Error,
        EventType::ExitApplication,
        EventType::ExitingApplication,
        EventType::File,
        EventType::Files,
        EventType::GetData,
        EventType::GetDirectories,
        EventType::GetFile,
        EventType::GetFiles,
        EventType::GetSettings,
        EventType::KeyboardKeyPressed,
        EventType::KeyboardKeypress,
        EventType::KeyboardText,
        EventType::KeyboardTextSent,
        EventType::MediaControl,
        EventType::Notification,
        EventType::NotificationSent,
        EventType::Open,
        EventType::Opened,
        EventType::PowerHibernate,
        EventType::PowerHibernating,
        EventType::PowerLock,
        EventType::PowerLocking,
        EventType::PowerLoggingOut,
        EventType::PowerLogout,
        EventType::PowerRestart,
        EventType::PowerRestarting,
        EventType::PowerShutdown,
        EventType::PowerShuttingDown,
        EventType::PowerSleep,
        EventType::PowerSleeping,
        EventType::RegisterDataListener,
        EventType::SettingsUpdated,
        EventType::SettingsResult,
        EventType::UnregisterDataListener,
        EventType::UpdateSettings,
        EventType::Unknown,
    ];
    for kind in all {
        assert_eq!(EventType::parse(&kind.to_string()), Some(kind));
        assert_eq!(EventType::from_str(kind.as_str()), Ok(kind));
    }
}

#[test]
fn event_subtype_names_are_the_wire_names() {
    assert_eq!(EventSubtype::UnknownEvent.to_string(), "UNKNOWN_EVENT");
    assert_eq!(EventSubtype::BadToken.to_string(), "BAD_TOKEN");
    assert_eq!(EventSubtype::MissingModules.as_str(), "MISSING_MODULES");
    assert_eq!(EventSubtype::MissingPathUrl.as_str(), "MISSING_PATH_URL");
}

#[test]
fn bad_key_and_missing_key_share_a_name() {
    assert_eq!(EventSubtype::BadKey.to_string(), "MISSING_KEY");
    assert_eq!(EventSubtype::MissingKey.to_string(), "MISSING_KEY");
    assert_eq!(EventSubtype::from_str("MISSING_KEY"), Ok(EventSubtype::BadKey));
    assert_eq!(EventSubtype::parse("BAD_KEY"), None);
}

#[test]
fn event_subtype_falls_back_to_unknown_event() {
    assert_eq!(EventSubtype::from_str("NOPE"), Ok(EventSubtype::UnknownEvent));
    assert_eq!(EventSubtype::parse("NOPE"), None);
    assert_eq!(EventSubtype::from_str("UNKNOWN_EVENT"), Ok(EventSubtype::UnknownEvent));
}

#[test]
fn every_event_subtype_but_missing_key_round_trips() {
    let all = [
        EventSubtype::BadDirectory,
        EventSubtype::BadFile,
        EventSubtype::BadJson,
        EventSubtype::BadKey,
        EventSubtype::BadPath,
        EventSubtype::BadRequest,
        EventSubtype::BadToken,
        EventSubtype::InvalidAction,
        EventSubtype::ListenerAlreadyRegistered,
        EventSubtype::ListenerNotRegistered,
        EventSubtype::MissingAction,
        EventSubtype::MissingBase,
        EventSubtype::MissingModules,
        EventSubtype::MissingPath,
        EventSubtype::MissingPathUrl,
        EventSubtype::MissingSetting,
        EventSubtype::MissingText,
        EventSubtype::MissingTitle,
        EventSubtype::MissingToken,
        EventSubtype::MissingValue,
        EventSubtype::UnknownEvent,
    ];
    for subtype in all {
        assert_eq!(EventSubtype::from_str(subtype.as_str()), Ok(subtype));
    }
}
