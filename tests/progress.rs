use hduino::error::ArduinoError;
use hduino::progress::{classify_line, compile_code, join_with_newlines, CompileLog, Stage};

#[test]
fn compiling_line_advances_by_five() {
    let (p, e) = classify_line("Compiling sketch...", 10);
    assert_eq!(p, 15);
    let e = e.unwrap();
    assert_eq!(e.stage, "compiling");
    assert_eq!(e.percent, 15);
    assert_eq!(e.message, "Compiling sketch...");
}

#[test]
fn compiling_ratchet_caps_at_eighty() {
    let (p, e) = classify_line("Compiling core...", 78);
    assert_eq!(p, 80);
    assert_eq!(e.unwrap().percent, 80);
    let (p, _) = classify_line("Compiling libraries...", 80);
    assert_eq!(p, 80);
}

#[test]
fn linking_line_reports_fixed_checkpoint() {
    let (p, e) = classify_line("Linking everything together...", 40);
    assert_eq!(p, 40);
    let e = e.unwrap();
    assert_eq!(e.percent, 85);
    assert_eq!(e.stage, "compiling");
    assert_eq!(e.message, "Linking...");
}

#[test]
fn other_lines_emit_nothing() {
    let (p, e) = classify_line("Sketch uses 924 bytes", 35);
    assert_eq!(p, 35);
    assert!(e.is_none());
    // the match is case-sensitive
    let (p, e) = classify_line("compiling lower case", 35);
    assert_eq!(p, 35);
    assert!(e.is_none());
}

#[test]
fn progress_never_decreases_over_a_build() {
    let mut log = CompileLog::new();
    let lines = [
        "Detecting libraries",
        "Compiling sketch...",
        "Compiling libraries...",
        "Linking everything together...",
        "Compiling core...",
        "noise",
    ];
    let mut last = log.percent;
    for l in lines.iter() {
        let e = log.record(l.to_string());
        assert!(log.percent >= last);
        if let Some(e) = e {
            assert!(e.percent == log.percent || e.percent == 85);
        }
        last = log.percent;
    }
    assert_eq!(log.percent, 25);
}

#[test]
fn failure_message_joins_every_line() {
    let mut log = CompileLog::new();
    log.record("Compiling sketch...".to_string());
    log.record("sketch.ino:3:1: error: expected ';' before '}' token".to_string());
    log.record("exit status 1".to_string());
    let (event, res) = compile_code(&log, false, "/tmp/build".to_string());
    assert_eq!(event.percent, 0);
    assert_eq!(event.message, "Compilation failed");
    match res {
        Err(ArduinoError::CompileFailed(m)) => {
            assert_eq!(
                m,
                "Compiling sketch...\nsketch.ino:3:1: error: expected ';' before '}' token\nexit status 1"
            );
            assert!(m.contains("error: expected ';'"));
        }
        _ => panic!("expected a compile failure"),
    }
}

#[test]
fn failure_with_no_output_is_empty() {
    let log = CompileLog::new();
    match compile_code(&log, false, String::new()).1 {
        Err(ArduinoError::CompileFailed(m)) => assert_eq!(m, ""),
        _ => panic!("expected a compile failure"),
    }
}

#[test]
fn successful_build_hands_back_directory() {
    let mut log = CompileLog::new();
    log.record("Compiling sketch...".to_string());
    let (event, res) = compile_code(&log, true, "/tmp/ws/build".to_string());
    assert_eq!(event.percent, 100);
    assert_eq!(event.message, "Compilation complete");
    assert_eq!(res, Ok("/tmp/ws/build".to_string()));
}

#[test]
fn start_event_is_ten_percent() {
    let e = CompileLog::start_event();
    assert_eq!(e.percent, 10);
    assert_eq!(e.stage, "compiling");
    assert_eq!(e.message, "Starting compilation...");
}

#[test]
fn join_single_and_empty() {
    assert_eq!(join_with_newlines(&vec![]), "");
    assert_eq!(join_with_newlines(&vec!["one".to_string()]), "one");
    assert_eq!(join_with_newlines(&vec!["a".to_string(), "".to_string(), "b".to_string()]), "a\n\nb");
}

#[test]
fn stage_labels() {
    assert_eq!(Stage::Initializing.label(), "initializing");
    assert_eq!(Stage::Uploading.label(), "uploading");
    assert_eq!(Stage::Installing.label(), "installing");
}

#[test]
fn error_messages() {
    assert_eq!(ArduinoError::CompileFailed("x".to_string()).message(), "Compilation failed: x");
    assert_eq!(ArduinoError::CliNotFound("y".to_string()).message(), "Arduino CLI not found: y");
    assert_eq!(ArduinoError::CoreInstallFailed("z".to_string()).message(), "Core installation failed: z");
    assert_eq!(ArduinoError::IoError("d".to_string()).message(), "IO error: d");
    assert_eq!(ArduinoError::TempDirError("t".to_string()).message(), "Temp directory error: t");
    assert_eq!(ArduinoError::UploadFailed("u".to_string()).message(), "Upload failed: u");
    assert_eq!(ArduinoError::CoreNotInstalled("c".to_string()).message(), "Core not installed: c");
    assert_eq!(ArduinoError::ShellError("s".to_string()).message(), "Shell error: s");
}
