use extractous::{Error, error_from_status};

#[test]
fn status_one_is_an_io_error() {
    let e = error_from_status(1, "could not open".to_string());
    assert_eq!(e, Error::IoError("could not open".to_string()));
    assert_eq!(e.message(), "could not open");
}

#[test]
fn status_two_is_a_parse_error() {
    let e = error_from_status(2, "bad document".to_string());
    assert_eq!(e, Error::ParseError("bad document".to_string()));
    assert_eq!(e.message(), "bad document");
}

#[test]
fn any_other_status_is_unknown() {
    assert_eq!(
        error_from_status(0, "m".to_string()),
        Error::Unknown("m".to_string())
    );
    assert_eq!(
        error_from_status(3, "m".to_string()),
        Error::Unknown("m".to_string())
    );
    assert_eq!(
        error_from_status(-1, "m".to_string()),
        Error::Unknown("m".to_string())
    );
    assert_eq!(
        error_from_status(i8::MAX, "m".to_string()),
        Error::Unknown("m".to_string())
    );
}

#[test]
fn every_variant_carries_its_message() {
    assert_eq!(Error::Utf8Error("u".to_string()).message(), "u");
    assert_eq!(Error::JniError("j".to_string()).message(), "j");
    assert_eq!(Error::JniEnvCall("c".to_string()).message(), "c");
    assert_eq!(Error::Unknown("x".to_string()).message(), "x");
}
