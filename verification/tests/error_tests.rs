use nexsock::error::{generic, Error};

#[test]
fn io_error_has_kind_four() {
    let err = Error::Io("other".to_string());
    assert_eq!(err.kind(), 4);
}

#[test]
fn error_codes_follow_the_documented_table() {
    assert_eq!(Error::Tracing("t".into()).kind(), 5);
    assert_eq!(Error::Logging("l".into()).kind(), 6);
    assert_eq!(Error::Generic("g".into()).kind(), 8);
    assert_eq!(Error::ExpectedPayload.kind(), 9);
    assert_eq!(Error::FailedToGetPayload.kind(), 10);
    assert_eq!(Error::Config("c".into()).kind(), 11);
    assert_eq!(Error::OneShotSend("o".into()).kind(), 13);
    assert_eq!(Error::LockError.kind(), 0xFFFF);
    assert_eq!(Error::JoinHandle("j".into()).kind(), 0xFFFF);
    assert_eq!(Error::Dotenv("d".into()).kind(), 0xFFFF);
    let socket = Error::InvalidSocket {
        message: "m".into(),
        got: "g".into(),
        expected: "e".into(),
    };
    assert_eq!(socket.kind(), 0xFFFF);
}

#[test]
fn error_messages() {
    assert_eq!(Error::ExpectedPayload.message(), "Expected a payload to be present");
    assert_eq!(Error::FailedToGetPayload.message(), "Failed to parse payload");
    assert_eq!(Error::LockError.message(), "Would deadlock");
    assert_eq!(Error::Io("disk full".into()).message(), "disk full");
    let socket = Error::InvalidSocket {
        message: "Unable to clear the UNIX socket".into(),
        got: "50505".into(),
        expected: "<PATH>".into(),
    };
    assert_eq!(
        socket.message(),
        "Invalid Socket configuration, Unable to clear the UNIX socket. Found `50505` but expected `<PATH>`"
    );
}

#[test]
fn error_payload_carries_code_and_message() {
    let p = generic("No service found").to_payload();
    assert_eq!(p.code, 8);
    assert_eq!(p.message, "No service found");
    assert!(p.details.is_none());
}
