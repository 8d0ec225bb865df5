use capture_pipeline::capture::MicBackend;
use capture_pipeline::capture::backend_for;
use capture_pipeline::capture::mic_command;
use capture_pipeline::encode::append_escaped;
use capture_pipeline::encode::decimal_string;
use capture_pipeline::record::LogRecord;
use capture_pipeline::record::Source;

#[test]
fn decimal_renders_exactly() {
    assert_eq!(decimal_string(0), "0");
    assert_eq!(decimal_string(5), "5");
    assert_eq!(decimal_string(40), "40");
    assert_eq!(decimal_string(12345), "12345");
    assert_eq!(decimal_string(u32::MAX), "4294967295");
}

#[test]
fn escaping_leaves_plain_text_alone() {
    let mut out = String::new();
    append_escaped(&mut out, "plain text, no specials");
    assert_eq!(out, "plain text, no specials");
}

#[test]
fn escaping_handles_quotes_backslashes_and_controls() {
    let mut out = String::new();
    append_escaped(&mut out, "say \"hi\" \\ now\nline\ttab\rret");
    assert_eq!(out, "say \\\"hi\\\" \\\\ now\\nline\\ttab\\rret");

    let mut out = String::new();
    append_escaped(&mut out, "\u{1}\u{1f}");
    assert_eq!(out, "\\u0001\\u001f");
}

#[test]
fn escaping_empty_text_stays_empty() {
    let mut out = String::new();
    append_escaped(&mut out, "");
    assert_eq!(out, "");
}

#[test]
fn escaping_keeps_non_ascii_text() {
    let mut out = String::new();
    append_escaped(&mut out, "caf\u{e9} \u{1f600}");
    assert_eq!(out, "caf\u{e9} \u{1f600}");
}

#[test]
fn json_line_renders_exactly() {
    let r = LogRecord {
        timestamp: String::from("2024-01-01T00:00:00+00:00"),
        source: Source::Capture,
        text: String::from("hello"),
    };
    assert_eq!(
        r.json_line(),
        "{\"timestamp\":\"2024-01-01T00:00:00+00:00\",\"source\":\"capture\",\"text\":\"hello\"}"
    );
}

#[test]
fn json_line_parses_back_with_the_same_fields() {
    let r = LogRecord {
        timestamp: String::from("2024-06-30T12:34:56+00:00"),
        source: Source::Assistant,
        text: String::from("he said \"stop\"\nthen \\ left"),
    };
    let line = r.json_line();
    let v: serde_json::Value = serde_json::from_str(&line).unwrap();
    assert_eq!(v["timestamp"], "2024-06-30T12:34:56+00:00");
    assert_eq!(v["source"], "assistant");
    assert_eq!(v["text"], "he said \"stop\"\nthen \\ left");
}

#[test]
fn mic_command_for_linux() {
    let cmd = mic_command(MicBackend::Linux, 5);
    assert_eq!(cmd, vec!["arecord", "-d", "5", "-f", "cd", "-t", "wav", "-"]);
}

#[test]
fn mic_command_for_mac() {
    let cmd = mic_command(MicBackend::Mac, 5);
    assert_eq!(
        cmd,
        vec![
            "rec",
            "-q",
            "-c",
            "1",
            "-r",
            "16000",
            "-b",
            "16",
            "-e",
            "signed-integer",
            "-t",
            "wav",
            "-",
            "trim",
            "0",
            "5"
        ]
    );
}

#[test]
fn backend_name_selects_the_recorder() {
    assert_eq!(backend_for("mac"), MicBackend::Mac);
    assert_eq!(backend_for("linux"), MicBackend::Linux);
    assert_eq!(backend_for("anything else"), MicBackend::Linux);
}
