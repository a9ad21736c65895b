use papi::{check, ErrorKind, PAPI_OK};

#[test]
fn check_accepts_ok() {
    assert_eq!(PAPI_OK, 0);
    assert_eq!(check(PAPI_OK), Ok(()));
}

#[test]
fn check_wraps_every_other_status() {
    assert_eq!(check(-1), Err(ErrorKind::PapiError(-1)));
    assert_eq!(check(1), Err(ErrorKind::PapiError(1)));
    assert_eq!(check(i32::MIN), Err(ErrorKind::PapiError(i32::MIN)));
    assert_eq!(check(i32::MAX), Err(ErrorKind::PapiError(i32::MAX)));
}

#[test]
fn papi_error_is_described_with_its_status() {
    assert_eq!(ErrorKind::PapiError(-7).to_string(), "PAPI error: -7");
    assert_eq!(ErrorKind::PapiError(0).to_string(), "PAPI error: 0");
    assert_eq!(ErrorKind::PapiError(9).to_string(), "PAPI error: 9");
    assert_eq!(ErrorKind::PapiError(10).to_string(), "PAPI error: 10");
    assert_eq!(ErrorKind::PapiError(117_440_512).to_string(), "PAPI error: 117440512");
}

#[test]
fn papi_error_is_described_at_the_ends_of_the_range() {
    assert_eq!(ErrorKind::PapiError(i32::MAX).to_string(), "PAPI error: 2147483647");
    assert_eq!(ErrorKind::PapiError(i32::MIN).to_string(), "PAPI error: -2147483648");
}

#[test]
fn decimal_text_agrees_with_std() {
    let mut code: i32 = -1_000_003;
    while code < 1_000_000 {
        assert_eq!(ErrorKind::PapiError(code).to_string(), format!("PAPI error: {}", code));
        code += 7919;
    }
}

#[test]
fn invalid_event_is_described_with_its_name() {
    assert_eq!(
        ErrorKind::InvalidEvent("UOPS_RETIRED:NONE").to_string(),
        "Invalid event: UOPS_RETIRED:NONE"
    );
}

#[test]
fn invalid_argument_is_described_with_its_message() {
    assert_eq!(
        ErrorKind::InvalidArgument(String::from("no such preset")).to_string(),
        "Invalid argument: no such preset"
    );
    assert_eq!(ErrorKind::InvalidArgument(String::new()).to_string(), "Invalid argument: ");
}

#[test]
fn out_of_hardware_counters_is_described_with_its_detail() {
    assert_eq!(
        ErrorKind::OutOfHardwareCounters("eight requested, four present").to_string(),
        "Out of hardware counters: eight requested, four present"
    );
}
