use debug_proxy::host::{HostAction, Outcome, WriteOutcome, WriteStage};
use debug_proxy::logger::{
    decimal, format_banner, format_block, format_response_title, marker,
    payload_text, DebugLogger, EventKind, HEAVY_RULE, LIGHT_RULE,
};
use debug_proxy::tmux::{Lifecycle, SetupStep, TmuxSession};
use serde_json::Value;

fn logger_for(name: &str) -> DebugLogger {
    let (mut setup, _) = TmuxSession::create(name);
    loop {
        match setup.advance(Outcome::Done) {
            SetupStep::Continue(next, _) => setup = next,
            SetupStep::Created(session) => return DebugLogger::new(session).0,
            SetupStep::Failed(error) => panic!("setup failed: {}", error),
        }
    }
}

fn message_of(action: HostAction) -> String {
    match action {
        HostAction::Write { path, message } => {
            assert_eq!(path, "/tmp/t.pipe");
            message
        }
        other => panic!("expected a write, got {:?}", other),
    }
}

fn lines_of(message: &str) -> Vec<String> {
    message.split('\n').map(|l| l.to_string()).collect()
}

fn looks_like_a_timestamp(stamp: &str) -> bool {
    let c: Vec<char> = stamp.chars().collect();
    c.len() == 24
        && c[4] == '-'
        && c[7] == '-'
        && c[10] == 'T'
        && c[13] == ':'
        && c[16] == ':'
        && c[19] == '.'
        && c[23] == 'Z'
        && [0, 1, 2, 3, 5, 6, 8, 9, 11, 12, 14, 15, 17, 18, 20, 21, 22]
            .iter()
            .all(|i| c[*i].is_ascii_digit())
}

fn body_of(message: &str) -> String {
    let lines = lines_of(message);
    lines[4..lines.len() - 1].join("\n")
}

fn format_json(value: &Value) -> String {
    body_of(&message_of(logger_for("t").log_event("payload", value)))
}

fn sample_object() -> Value {
    let mut inner = serde_json::Map::new();
    inner.insert("id".to_string(), Value::from(7));
    inner.insert("name".to_string(), Value::from("first \"item\"\nsecond line"));
    inner.insert("ratio".to_string(), Value::from(0.25));
    inner.insert("tags".to_string(), Value::Array(vec![Value::from("a"), Value::Null]));
    let mut outer = serde_json::Map::new();
    outer.insert("item".to_string(), Value::Object(inner));
    outer.insert("ok".to_string(), Value::Bool(true));
    outer.insert("count".to_string(), Value::from(-3));
    Value::Object(outer)
}

#[test]
fn rules_are_eighty_wide() {
    assert_eq!(HEAVY_RULE.chars().count(), 80);
    assert!(HEAVY_RULE.chars().all(|c| c == '═'));
    assert_eq!(LIGHT_RULE.chars().count(), 80);
    assert!(LIGHT_RULE.chars().all(|c| c == '─'));
}

#[test]
fn decimal_writes_numbers_without_padding() {
    assert_eq!(decimal(0), "0");
    assert_eq!(decimal(7), "7");
    assert_eq!(decimal(10), "10");
    assert_eq!(decimal(12), "12");
    assert_eq!(decimal(1000), "1000");
    assert_eq!(decimal(9876543210), "9876543210");
    assert_eq!(decimal(u64::MAX), "18446744073709551615");
}

#[test]
fn markers_show_kind_and_direction() {
    assert_eq!(marker(EventKind::Invoke), ">>> INVOKE");
    assert_eq!(marker(EventKind::Response), "<<< RESPONSE");
    assert_eq!(marker(EventKind::Event), "--> EVENT");
    assert_eq!(marker(EventKind::Error), "!!! ERROR");
}

#[test]
fn a_block_is_framed_exactly() {
    let block = format_block(EventKind::Invoke, "2024-05-01T12:00:00.000Z", "list_items", "{}");
    let expected = format!(
        "\n{}\n[2024-05-01T12:00:00.000Z] >>> INVOKE: list_items\n{}\n{{}}\n{}",
        "═".repeat(80),
        "─".repeat(80),
        "═".repeat(80)
    );
    assert_eq!(block, expected);
}

#[test]
fn each_kind_has_its_heading() {
    let stamp = "2024-05-01T12:00:00.000Z";
    let heading = |kind| lines_of(&format_block(kind, stamp, "x", "body"))[2].clone();
    assert_eq!(heading(EventKind::Invoke), "[2024-05-01T12:00:00.000Z] >>> INVOKE: x");
    assert_eq!(heading(EventKind::Response), "[2024-05-01T12:00:00.000Z] <<< RESPONSE: x");
    assert_eq!(heading(EventKind::Event), "[2024-05-01T12:00:00.000Z] --> EVENT: x");
    assert_eq!(heading(EventKind::Error), "[2024-05-01T12:00:00.000Z] !!! ERROR: x");
}

#[test]
fn a_response_title_carries_the_duration() {
    assert_eq!(format_response_title("list_items", 12), "list_items (12ms)");
    assert_eq!(format_response_title("save", 0), "save (0ms)");
    assert_eq!(format_response_title("", 1500), " (1500ms)");
}

#[test]
fn the_banner_names_session_time_and_legend() {
    let banner = format_banner("app-debug", "2024-05-01 12:00:00 UTC");
    let lines = lines_of(&banner);
    assert_eq!(lines.len(), 14);
    assert_eq!(lines[0], "");
    assert_eq!(lines[1], format!("╔{}╗", "═".repeat(78)));
    assert!(lines[2].contains("OPCODE DEBUG MODE"));
    assert_eq!(lines[4], format!("║  Session: app-debug{}║", " ".repeat(50)));
    assert_eq!(lines[5], format!("║  Started: 2024-05-01 12:00:00 UTC{}║", " ".repeat(43)));
    assert!(lines[7].starts_with("║  Legend:"));
    assert!(lines[8].contains(">>> INVOKE   - Frontend calling backend command"));
    assert!(lines[9].contains("<<< RESPONSE - Backend returning result"));
    assert!(lines[10].contains("--> EVENT    - Backend emitting event to frontend"));
    assert!(lines[11].contains("!!! ERROR    - Error occurred"));
    assert_eq!(lines[12], format!("╚{}╝", "═".repeat(78)));
    assert_eq!(lines[13], "");
}

#[test]
fn a_new_logger_writes_the_banner_first() {
    let (setup, _) = TmuxSession::create("t");
    let mut setup = setup;
    let session = loop {
        match setup.advance(Outcome::Done) {
            SetupStep::Continue(next, _) => setup = next,
            SetupStep::Created(session) => break session,
            SetupStep::Failed(error) => panic!("setup failed: {}", error),
        }
    };
    let (logger, banner) = DebugLogger::new(session);
    assert_eq!(logger.session().session_name(), "t");
    let text = message_of(banner);
    let lines = lines_of(&text);
    assert_eq!(lines[4], format!("║  Session: t{}║", " ".repeat(50)));
    let started = lines[5]
        .strip_prefix("║  Started: ")
        .and_then(|rest| rest.strip_suffix(&format!("{}║", " ".repeat(43))))
        .expect("the line that gives the start");
    // the time is written, not the pattern it was written with
    assert_eq!(started.len(), 23);
    assert!(started.ends_with(" UTC"));
    assert!(!started.contains('%'));
    assert!(started.chars().take(4).all(|c| c.is_ascii_digit()));
}

#[test]
fn pretty_printed_payload_parses_back_to_the_payload() {
    let payloads = vec![
        Value::Null,
        Value::Bool(false),
        Value::from(42),
        Value::from(1.5),
        Value::from("plain"),
        Value::Array(vec![]),
        Value::Object(serde_json::Map::new()),
        Value::Array(vec![Value::from(1), Value::from("two"), sample_object()]),
        sample_object(),
    ];
    for payload in payloads {
        let text = format_json(&payload);
        let parsed: Value = serde_json::from_str(&text).expect("the text is JSON");
        assert_eq!(parsed, payload);
    }
}

#[test]
fn payloads_are_printed_with_indentation() {
    assert_eq!(format_json(&Value::Object(serde_json::Map::new())), "{}");
    assert_eq!(format_json(&Value::Array(vec![Value::from(1), Value::from(2)])), "[\n  1,\n  2\n]");
    let mut object = serde_json::Map::new();
    object.insert("a".to_string(), Value::from("b"));
    assert_eq!(format_json(&Value::Object(object)), "{\n  \"a\": \"b\"\n}");
}

#[test]
fn a_payload_that_cannot_be_printed_falls_back() {
    let failure = serde_json::from_str::<Value>("{").unwrap_err();
    assert_eq!(payload_text(Err(failure), "{\"a\":1}".to_string()), "{\"a\":1}");
    assert_eq!(payload_text(Ok("{\n  \"a\": 1\n}".to_string()), "unused".to_string()), "{\n  \"a\": 1\n}");
}

#[test]
fn log_error_shows_command_and_message() {
    let logger = logger_for("t");
    let message = message_of(logger.log_error("save_file", "disk full"));
    let lines = lines_of(&message);
    assert_eq!(lines.len(), 6);
    assert_eq!(lines[0], "");
    assert_eq!(lines[1], HEAVY_RULE);
    assert!(lines[2].contains("!!! ERROR: save_file"));
    assert!(lines[2].ends_with("] !!! ERROR: save_file"));
    assert_eq!(lines[3], LIGHT_RULE);
    assert!(lines[4].contains("disk full"));
    assert_eq!(lines[4], "disk full");
    assert_eq!(lines[5], HEAVY_RULE);
}

#[test]
fn headings_carry_the_time_of_the_call() {
    let logger = logger_for("t");
    let message = message_of(logger.log_error("c", "e"));
    let heading = lines_of(&message)[2].clone();
    let stamp = heading
        .strip_prefix("[")
        .and_then(|rest| rest.strip_suffix("] !!! ERROR: c"))
        .expect("a heading with a timestamp");
    assert!(looks_like_a_timestamp(stamp), "not a timestamp: {}", stamp);
}

#[test]
fn log_invoke_frames_the_pretty_payload() {
    let logger = logger_for("t");
    let message = message_of(logger.log_invoke("list_items", &Value::Object(serde_json::Map::new())));
    assert!(message.contains("INVOKE: list_items"));
    let lines = lines_of(&message);
    assert!(lines[2].ends_with("] >>> INVOKE: list_items"));
    assert_eq!(lines[4], "{}");
    assert_eq!(lines.len(), 6);

    let message = message_of(logger.log_invoke("get", &sample_object()));
    let lines = lines_of(&message);
    let body = lines[4..lines.len() - 1].join("\n");
    assert_eq!(serde_json::from_str::<Value>(&body).unwrap(), sample_object());
    assert_eq!(lines[lines.len() - 1], HEAVY_RULE);
}

#[test]
fn log_response_appends_the_duration() {
    let logger = logger_for("t");
    let result = Value::Array(vec![Value::from("a"), Value::from("b")]);
    let message = message_of(logger.log_response("list_items", &result, 12));
    assert!(message.contains("RESPONSE: list_items (12ms)"));
    let lines = lines_of(&message);
    assert!(lines[2].ends_with("] <<< RESPONSE: list_items (12ms)"));
    assert_eq!(lines[4..8].join("\n"), "[\n  \"a\",\n  \"b\"\n]");
}

#[test]
fn log_event_frames_the_payload() {
    let logger = logger_for("t");
    let message = message_of(logger.log_event("progress", &Value::from(50)));
    let lines = lines_of(&message);
    assert!(lines[2].ends_with("] --> EVENT: progress"));
    assert_eq!(lines[4], "50");
}

#[test]
fn log_raw_adds_no_frame() {
    let logger = logger_for("t");
    assert_eq!(message_of(logger.log_raw("as it is")), "as it is");
    assert_eq!(message_of(logger.log_raw("")), "");
}

#[test]
fn a_failed_write_is_a_warning_only() {
    assert_eq!(DebugLogger::write_warning(WriteOutcome::Written), None);
    let failed = WriteOutcome::Failed { stage: WriteStage::Open, reason: "No such file".to_string() };
    assert_eq!(
        DebugLogger::write_warning(failed),
        Some("Failed to write debug log: Failed to open pipe: No such file".to_string())
    );
    let failed = WriteOutcome::Failed { stage: WriteStage::Flush, reason: "x".to_string() };
    assert_eq!(
        DebugLogger::write_warning(failed),
        Some("Failed to write debug log: Failed to flush pipe: x".to_string())
    );
}

#[test]
fn writes_one_after_the_other_give_whole_blocks() {
    let logger = logger_for("t");
    let count = 25;
    let mut stream = String::new();
    for i in 0..count {
        let mut params = serde_json::Map::new();
        params.insert("caller".to_string(), Value::from(i));
        let message = message_of(logger.log_invoke("ping", &Value::Object(params)));
        // what the host puts into the pipe: the message, then a line feed
        stream.push_str(&message);
        stream.push('\n');
    }
    let lines: Vec<&str> = stream.split('\n').collect();
    // each block: empty line, rule, heading, rule, three lines of body, rule
    assert_eq!(lines.len(), count * 8 + 1);
    assert_eq!(lines[count * 8], "");
    for i in 0..count {
        let block = &lines[i * 8..(i + 1) * 8];
        assert_eq!(block[0], "");
        assert_eq!(block[1], HEAVY_RULE);
        assert!(block[2].ends_with("] >>> INVOKE: ping"));
        assert_eq!(block[3], LIGHT_RULE);
        assert_eq!(block[4], "{");
        assert_eq!(block[5], format!("  \"caller\": {}", i));
        assert_eq!(block[6], "}");
        assert_eq!(block[7], HEAVY_RULE);
    }
}

#[test]
fn shutdown_takes_the_session_down() {
    let mut logger = logger_for("t");
    let (kill, remove) = logger.shutdown();
    assert_eq!(
        kill,
        HostAction::Run {
            program: "tmux".to_string(),
            args: vec!["kill-session".to_string(), "-t".to_string(), "t".to_string()],
            quiet: true,
        }
    );
    assert_eq!(remove, HostAction::RemoveFile { path: "/tmp/t.pipe".to_string() });
    assert_eq!(logger.finish_shutdown(Outcome::Failed("busy".to_string())), Err("Failed to remove pipe: busy".to_string()));
    assert_eq!(logger.session().lifecycle(), Lifecycle::Created);
    assert_eq!(logger.finish_shutdown(Outcome::Done), Ok(()));
    assert_eq!(logger.session().lifecycle(), Lifecycle::Destroyed);
}
