use tracer::record::LogMessage;
use tracer::{LogLevel, Misuse};

#[test]
fn each_level_reads_as_its_name() {
    assert_eq!(LogLevel::INFO.to_string(), "INFO");
    assert_eq!(LogLevel::WARN.to_string(), "WARN");
    assert_eq!(LogLevel::ERROR.to_string(), "ERROR");
    assert_eq!(LogLevel::DEBUG.to_string(), "DEBUG");
}

#[test]
fn level_slices_match_owned_tags() {
    let levels = [LogLevel::INFO, LogLevel::WARN, LogLevel::ERROR, LogLevel::DEBUG];
    for level in levels {
        assert_eq!(level.as_str(), level.to_string());
    }
}

#[test]
fn levels_have_distinct_tags() {
    let levels = [LogLevel::INFO, LogLevel::WARN, LogLevel::ERROR, LogLevel::DEBUG];
    for (i, a) in levels.iter().enumerate() {
        for (j, b) in levels.iter().enumerate() {
            assert_eq!(a.as_str() == b.as_str(), i == j);
            assert_eq!(a == b, i == j);
        }
    }
}

#[test]
fn record_keeps_the_message_unchanged() {
    let record = LogMessage::new("disk at 91%\n\tretrying");
    assert_eq!(record.message, "disk at 91%\n\tretrying");
}

#[test]
fn payload_is_the_utf8_of_the_message() {
    let record = LogMessage::new("hello");
    assert_eq!(record.payload(), vec![104u8, 101, 108, 108, 111]);
}

#[test]
fn payload_of_multibyte_text_is_exact() {
    // U+00E9 is two bytes, U+20AC three, U+1F980 four.
    let record = LogMessage::new("\u{e9}\u{20ac}\u{1f980}");
    assert_eq!(
        record.payload(),
        vec![0xC3u8, 0xA9, 0xE2, 0x82, 0xAC, 0xF0, 0x9F, 0xA6, 0x80]
    );
}

#[test]
fn payload_of_empty_record_is_empty() {
    let record = LogMessage { message: String::new() };
    assert_eq!(record.payload(), Vec::<u8>::new());
}

#[test]
fn payload_keeps_control_characters() {
    let record = LogMessage::new("a\u{0}b\u{7f}");
    assert_eq!(record.payload(), vec![0x61u8, 0x00, 0x62, 0x7F]);
}

#[test]
fn cloned_record_has_the_same_payload() {
    let record = LogMessage::new("once");
    let copy = record.clone();
    assert_eq!(copy.message, record.message);
    assert_eq!(copy.payload(), record.payload());
}

#[test]
fn misuse_messages_are_fixed() {
    assert_eq!(Misuse::AlreadyInitialized.message(), "Tracer was already initialized.");
    assert_eq!(Misuse::NotInitialized.message(), "Tracer not initialized");
    assert_ne!(Misuse::AlreadyInitialized, Misuse::NotInitialized);
}
