use wine_test_dummy::probe::ProbeOutcome;
use wine_test_dummy::probe::diagnostic_message;

#[test]
fn message_not_applicable() {
    let msg = diagnostic_message(&ProbeOutcome::NotApplicable);
    assert_eq!(msg, "Not running on Windows target");
}

#[test]
fn message_load_failed() {
    let msg = diagnostic_message(&ProbeOutcome::LoadFailed);
    assert_eq!(msg, "Failed to load ntdll.dll");
}

#[test]
fn message_not_detected() {
    let msg = diagnostic_message(&ProbeOutcome::NotDetected);
    assert_eq!(
        msg,
        "Not running under Wine (wine_get_version function not found in ntdll.dll)"
    );
}

#[test]
fn message_null_pointer() {
    let msg = diagnostic_message(&ProbeOutcome::NullPointer);
    assert_eq!(msg, "wine_get_version returned null pointer");
}

#[test]
fn message_invalid_text() {
    let msg = diagnostic_message(&ProbeOutcome::InvalidText);
    assert_eq!(msg, "Wine version string is not valid UTF-8");
}

#[test]
fn message_detected_has_version_verbatim() {
    let version = String::from("wine-9.0");
    let msg = diagnostic_message(&ProbeOutcome::Detected(version));
    assert_eq!(msg, "Running under Wine version: wine-9.0");
    assert!(msg.ends_with("wine-9.0"));
}

#[test]
fn message_detected_empty_version() {
    let version = String::new();
    let msg = diagnostic_message(&ProbeOutcome::Detected(version));
    assert_eq!(msg, "Running under Wine version: ");
}
