use bryggio::logger::{should_write, LogLevel};
use bryggio::pub_sub::MessageParseError;

#[test]
fn test_ord() {
    assert!(LogLevel::Debug < LogLevel::Info);
    assert!(!(LogLevel::Debug > LogLevel::Info));
    assert!((LogLevel::Error > LogLevel::Info));
}

#[test]
fn level_names_round_trip() {
    for l in [LogLevel::Debug, LogLevel::Info, LogLevel::Warning, LogLevel::Error] {
        assert_eq!(LogLevel::from_name(l.name()).unwrap(), l);
    }
}

#[test]
fn unknown_level_name_is_invalid_subject() {
    match LogLevel::from_name("verbose") {
        Err(MessageParseError::InvalidSubject(s)) => assert_eq!(s.0, "verbose"),
        other => panic!("unexpected {:?}", other),
    }
}

#[test]
fn log_subject_of_level() {
    assert_eq!(LogLevel::Warning.main_subject().0, "log.warning");
    assert_eq!(LogLevel::Info.log_subject("actor.mash").0, "log.info.actor.mash");
}

#[test]
fn level_from_message_subject() {
    assert_eq!(LogLevel::from_msg_subject("log.error.supervisor").unwrap(), LogLevel::Error);
    let sub = LogLevel::Debug.log_subject("controller.mash");
    assert_eq!(LogLevel::from_msg_subject(&sub.0).unwrap(), LogLevel::Debug);
}

#[test]
fn message_subject_without_level_is_invalid() {
    match LogLevel::from_msg_subject("log") {
        Err(MessageParseError::InvalidSubject(s)) => assert_eq!(s.0, "log"),
        other => panic!("unexpected {:?}", other),
    }
    match LogLevel::from_msg_subject("log.loud.x") {
        Err(MessageParseError::InvalidSubject(s)) => assert_eq!(s.0, "loud"),
        other => panic!("unexpected {:?}", other),
    }
}

#[test]
fn is_debug_only_for_debug() {
    assert!(LogLevel::Debug.is_debug());
    assert!(!LogLevel::Info.is_debug());
    assert!(!LogLevel::Error.is_debug());
}

#[test]
fn threshold_filters_messages() {
    assert!(should_write(LogLevel::Info, LogLevel::Warning));
    assert!(!should_write(LogLevel::Info, LogLevel::Debug));
    assert!(should_write(LogLevel::Error, LogLevel::Error));
    assert!(!should_write(LogLevel::Error, LogLevel::Warning));
    assert!(should_write(LogLevel::Debug, LogLevel::Debug));
}
