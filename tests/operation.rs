use hduino::environment::{
    binary_name, bootstrap_event, bootstrap_plan, config_file_contents, get_arduino_cli_version, get_sidecar_path,
    local_executable, BootstrapStep,
};
use hduino::error::ArduinoError;
use hduino::operation::{
    compile_args, install_core, install_download_event, install_start_event, tool_args, upload_args, UploadPhase,
    UploadSession, UploadStep,
};

fn session() -> UploadSession {
    UploadSession::new(
        Some("/data/arduino-cli.yaml".to_string()),
        "demo:avr:uno".to_string(),
        "/dev/ttyACM0".to_string(),
        "/tmp/ws/build".to_string(),
        "/tmp/ws/sketch".to_string(),
    )
}

#[test]
fn compile_args_with_config_and_verbose() {
    let a = compile_args(&Some("/c.yaml".to_string()), "demo:avr:uno", "/b", "/s", true);
    assert_eq!(
        a,
        vec!["--config-file", "/c.yaml", "compile", "--fqbn", "demo:avr:uno", "--output-dir", "/b", "/s", "--verbose"]
    );
    let a = compile_args(&None, "demo:avr:uno", "/b", "/s", false);
    assert_eq!(a, vec!["compile", "--fqbn", "demo:avr:uno", "--output-dir", "/b", "/s"]);
}

#[test]
fn upload_and_listing_args() {
    let a = upload_args(&None, "demo:avr:uno", "COM3", "/b");
    assert_eq!(a, vec!["upload", "--fqbn", "demo:avr:uno", "--port", "COM3", "--input-dir", "/b"]);
    let words = vec!["core".to_string(), "list".to_string(), "--format".to_string(), "json".to_string()];
    let a = tool_args(&Some("/c".to_string()), &words);
    assert_eq!(a, vec!["--config-file", "/c", "core", "list", "--format", "json"]);
}

#[test]
fn failed_compile_never_uploads() {
    let mut s = session();
    let (start, args) = s.start();
    assert_eq!(start.percent, 5);
    assert_eq!(args[0], "--config-file");
    assert_eq!(args[2], "compile");
    assert!(!args.contains(&"--verbose".to_string()));
    let (events, step) = s.on_compile_exit(false, "sketch.ino:1: error: oops".to_string());
    assert_eq!(s.phase, UploadPhase::Done);
    assert_eq!(events.len(), 1);
    assert_eq!(events[0].percent, 0);
    match step {
        UploadStep::Finish(r) => {
            assert!(!r.success);
            assert_eq!(r.stage.as_deref(), Some("compile"));
            assert_eq!(r.error.as_deref(), Some("sketch.ino:1: error: oops"));
            assert!(r.message.is_none());
        }
        UploadStep::RunUpload(_) => panic!("upload after a failed compile"),
    }
}

#[test]
fn successful_compile_then_upload() {
    let mut s = session();
    s.start();
    let (events, step) = s.on_compile_exit(true, String::new());
    assert_eq!(s.phase, UploadPhase::Uploading);
    assert_eq!(events.len(), 2);
    assert_eq!(events[0].percent, 50);
    assert_eq!(events[1].percent, 55);
    assert_eq!(events[1].stage, "uploading");
    match step {
        UploadStep::RunUpload(args) => assert_eq!(
            args,
            vec![
                "--config-file",
                "/data/arduino-cli.yaml",
                "upload",
                "--fqbn",
                "demo:avr:uno",
                "--port",
                "/dev/ttyACM0",
                "--input-dir",
                "/tmp/ws/build"
            ]
        ),
        UploadStep::Finish(_) => panic!("expected an upload"),
    }
    let (e, r) = s.on_upload_exit(true, String::new());
    assert_eq!(e.percent, 100);
    assert!(r.success);
    assert_eq!(r.message.as_deref(), Some("Code uploaded successfully!"));
    assert_eq!(r.stage.as_deref(), Some("upload"));
    assert!(r.error.is_none());
}

#[test]
fn failed_upload_reports_upload_stage() {
    let mut s = session();
    s.start();
    s.on_compile_exit(true, String::new());
    let (e, r) = s.on_upload_exit(false, "no device on port".to_string());
    assert_eq!(e.percent, 0);
    assert_eq!(e.message, "Upload failed");
    assert!(!r.success);
    assert_eq!(r.stage.as_deref(), Some("upload"));
    assert_eq!(r.error.as_deref(), Some("no device on port"));
    assert_eq!(s.phase, UploadPhase::Done);
}

#[test]
fn install_success_message_names_core() {
    let start = install_start_event("demo:avr");
    assert_eq!(start.message, "Installing demo:avr...");
    assert_eq!(start.percent, 10);
    assert_eq!(install_download_event().percent, 30);
    let (e, r) = install_core(true, "demo:avr", String::new());
    assert_eq!(e.percent, 100);
    let m = r.unwrap();
    assert_eq!(m, "Successfully installed demo:avr");
    assert!(m.contains("demo:avr"));
}

#[test]
fn install_failure_keeps_tool_text() {
    let (e, r) = install_core(false, "demo:avr", "Error: platform not found".to_string());
    assert_eq!(e.percent, 0);
    assert_eq!(r, Err(ArduinoError::CoreInstallFailed("Error: platform not found".to_string())));
}

#[test]
fn executable_resolution_order() {
    let bundled = local_executable("/res/arduino-cli".to_string(), true, "/res/binaries/arduino-cli".to_string(), true);
    assert_eq!(bundled.as_deref(), Some("/res/arduino-cli"));
    let dev = local_executable("/res/arduino-cli".to_string(), false, "/res/binaries/arduino-cli".to_string(), true);
    assert_eq!(dev.as_deref(), Some("/res/binaries/arduino-cli"));
    assert!(local_executable("a".to_string(), false, "b".to_string(), false).is_none());
    assert_eq!(get_sidecar_path(dev, Some("/usr/bin/x")), Ok("/res/binaries/arduino-cli".to_string()));
    assert_eq!(get_sidecar_path(None, Some("  /usr/bin/arduino-cli\n")), Ok("/usr/bin/arduino-cli".to_string()));
    assert_eq!(
        get_sidecar_path(None, Some(" \n")),
        Err(ArduinoError::CliNotFound("arduino-cli sidecar not found".to_string()))
    );
    assert_eq!(
        get_sidecar_path(None, None),
        Err(ArduinoError::CliNotFound("arduino-cli sidecar not found".to_string()))
    );
    assert_eq!(binary_name(true), "arduino-cli.exe");
    assert_eq!(binary_name(false), "arduino-cli");
}

#[test]
fn version_text_is_trimmed() {
    assert_eq!(get_arduino_cli_version(true, "arduino-cli  Version: 1.0.4\n"), Ok("arduino-cli  Version: 1.0.4".to_string()));
    assert_eq!(get_arduino_cli_version(false, "x"), Err("Failed to get arduino-cli version".to_string()));
}

#[test]
fn config_points_directories_at_data_dir() {
    let c = config_file_contents("/home/u/data/arduino");
    assert!(c.starts_with("board_manager:\n  additional_urls: []\ndaemon:\n  port: \"50051\"\n"));
    assert!(c.contains("  data: /home/u/data/arduino\n"));
    assert!(c.contains("  downloads: /home/u/data/arduino/staging\n"));
    assert!(c.contains("  user: /home/u/data/arduino\n"));
    assert!(c.contains("  enable_unsafe_install: false\n"));
    assert!(c.contains("  addr: \":9090\"\n"));
    assert!(c.ends_with("updater:\n  enable_notification: false\n"));
}

#[test]
fn bootstrap_plans() {
    assert!(bootstrap_plan(true, true, true, true).is_empty());
    assert!(bootstrap_plan(false, false, true, true).is_empty());
    assert_eq!(bootstrap_plan(false, true, true, true), vec![BootstrapStep::Notify(10), BootstrapStep::Notify(50), BootstrapStep::CopyPackages, BootstrapStep::CopyIndex, BootstrapStep::Notify(100)]);
    assert_eq!(bootstrap_plan(false, true, false, true), vec![BootstrapStep::Notify(10), BootstrapStep::CopyIndex, BootstrapStep::Notify(100)]);
    assert_eq!(bootstrap_plan(false, true, false, false), vec![BootstrapStep::Notify(10), BootstrapStep::Notify(100)]);
}

#[test]
fn bootstrap_twice_copies_once() {
    let first = bootstrap_plan(false, true, true, true);
    assert!(first.contains(&BootstrapStep::CopyPackages));
    // the copied packages hold the marker, so the second run sees it
    let second = bootstrap_plan(true, true, true, true);
    assert!(second.is_empty());
}

#[test]
fn bootstrap_events() {
    let e = bootstrap_event(10);
    assert_eq!(e.stage, "initializing");
    assert_eq!(e.message, "Setting up Arduino environment...");
    assert_eq!(bootstrap_event(50).message, "Installing AVR core...");
    assert_eq!(bootstrap_event(100).message, "Arduino environment ready");
}
