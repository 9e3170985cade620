use mdo_cdr::mime::output_extension;
use mdo_cdr::text::panic_summary;

#[test]
fn released_artifacts_get_the_extension_of_their_mime() {
    assert_eq!(output_extension("image/png"), Ok("png"));
    assert_eq!(output_extension("image/jpeg"), Ok("jpg"));
    assert_eq!(output_extension("application/mp4"), Ok("mp4"));
    assert_eq!(output_extension("audio/x-wav"), Ok("wav"));
    assert_eq!(output_extension("audio/opus"), Ok("ogg"));
    assert_eq!(output_extension("audio/x-m4a"), Ok("m4a"));
}

#[test]
fn unknown_mime_has_no_output_extension() {
    assert_eq!(output_extension("text/plain"), Err("Немає вихідного розширення для text/plain".to_string()));
    assert_eq!(output_extension("IMAGE/PNG"), Err("Немає вихідного розширення для IMAGE/PNG".to_string()));
}

#[test]
fn panic_summary_keeps_the_first_printable_line() {
    assert_eq!(panic_summary(Some("index out of bounds\nbacktrace")), "index out of bounds");
    assert_eq!(panic_summary(Some("windows line\r\nnext")), "windows line");
    assert_eq!(panic_summary(Some("tab\there")), "tab?here");
    assert_eq!(panic_summary(Some("byte é")), "byte ?");
}

#[test]
fn panic_summary_cuts_long_messages_and_names_missing_text() {
    let long = "x".repeat(100);
    let summary = panic_summary(Some(&long));
    assert_eq!(summary, format!("{}…", "x".repeat(80)));
    assert_eq!(panic_summary(Some(&"y".repeat(80))), "y".repeat(80));
    assert_eq!(panic_summary(Some("")), "empty panic message");
    assert_eq!(panic_summary(Some("\nsecond")), "empty panic message");
    assert_eq!(panic_summary(None), "panic with non-string payload");
}
