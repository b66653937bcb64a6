use vstd::prelude::*;
use crate::error::ArduinoError;
use crate::progress::{CompileProgress, Stage};

verus! {

/// Name of the managed data directory under the application's data directory.
pub const DATA_DIR_NAME: &'static str = "arduino";

/// Name of the tool's configuration file inside the managed data directory.
pub const CONFIG_FILE_NAME: &'static str = "arduino-cli.yaml";

/// Path, under the managed data directory, whose presence shows that the
/// bundled platform packages have been materialized.
pub const BOOTSTRAP_MARKER: &'static str = "packages/arduino/hardware/avr";

/// Directory of the read-only bundled snapshot among the application's resources.
pub const BUNDLED_DATA_DIR: &'static str = "arduino-data";

/// Subdirectory holding platform packages, in the snapshot and in the data directory.
pub const PACKAGES_DIR: &'static str = "packages";

/// Subdirectory holding package index data, in the snapshot and in the data directory.
pub const PACKAGE_INDEX_DIR: &'static str = "package_index";

/// Development-build subdirectory of the resources that may hold the tool.
pub const DEV_BINARIES_DIR: &'static str = "binaries";

/// File name of the tool's executable on the host platform.
pub fn binary_name(windows: bool) -> (r: String)
    ensures
        windows ==> r@ == "arduino-cli.exe"@,
        !windows ==> r@ == "arduino-cli"@,
{
    if windows {
        String::from_str("arduino-cli.exe")
    } else {
        String::from_str("arduino-cli")
    }
}

/// The first of the two local candidates for the executable that exists:
/// the one beside the application's resources, then the development one.
pub fn local_executable(bundled: String, bundled_exists: bool, dev: String, dev_exists: bool) -> (r: Option<String>)
    ensures
        bundled_exists ==> r == Some(bundled),
        !bundled_exists && dev_exists ==> r == Some(dev),
        !bundled_exists && !dev_exists ==> r is None,
{
    if bundled_exists {
        Some(bundled)
    } else if dev_exists {
        Some(dev)
    } else {
        None
    }
}

/// `s` without leading and trailing whitespace.
pub uninterp spec fn trimmed(s: Seq<char>) -> Seq<char>;

/// Relies on `str::trim`: the text without leading and trailing white space,
/// as a function of the text alone.
#[verifier::external_body]
pub(crate) fn trim_text(s: &str) -> (r: String)
    ensures
        r@ == trimmed(s@),
{
    s.trim().to_string()
}

/// Resolves the executable: a local candidate if one exists, else the path
/// that the system's executable search printed (trimmed, when not empty),
/// else the tool is reported missing.
pub fn get_sidecar_path(local: Option<String>, search_output: Option<&str>) -> (r: Result<String, ArduinoError>)
    ensures
        local is Some ==> r == Ok::<String, ArduinoError>(local->Some_0),
        local is None && search_output is Some && trimmed(search_output->Some_0@).len() > 0
            ==> (r matches Ok(p) && p@ == trimmed(search_output->Some_0@)),
        local is None && (search_output is None || trimmed(search_output->Some_0@).len() == 0)
            ==> (r matches Err(ArduinoError::CliNotFound(m)) && m@ == "arduino-cli sidecar not found"@),
{
    if let Some(p) = local {
        return Ok(p);
    }
    if let Some(out) = search_output {
        let p = trim_text(out);
        if p.unicode_len() > 0 {
            return Ok(p);
        }
    }
    Err(ArduinoError::CliNotFound(String::from_str("arduino-cli sidecar not found")))
}

/// The version text that `version` printed, or a fixed failure message.
pub fn get_arduino_cli_version(success: bool, stdout: &str) -> (r: Result<String, String>)
    ensures
        success ==> (r matches Ok(v) && v@ == trimmed(stdout@)),
        !success ==> (r matches Err(e) && e@ == "Failed to get arduino-cli version"@),
{
    if success {
        Ok(trim_text(stdout))
    } else {
        Err(String::from_str("Failed to get arduino-cli version"))
    }
}

/// The default configuration, all directories under `data_dir`.
pub open spec fn config_text(d: Seq<char>) -> Seq<char> {
    "board_manager:\n  additional_urls: []\ndaemon:\n  port: \"50051\"\ndirectories:\n  data: "@ + d
        + "\n  downloads: "@ + d + "/staging\n  user: "@ + d
        + "\nlibrary:\n  enable_unsafe_install: false\nlogging:\n  file: \"\"\n  format: text\n  level: info\nmetrics:\n  addr: \":9090\"\n  enabled: false\noutput:\n  no_color: false\nsketch:\n  always_export_binaries: false\nupdater:\n  enable_notification: false\n"@
}

/// The configuration file written on first use: fixed defaults with the
/// data, downloads and user directories under `data_dir`.
pub fn config_file_contents(data_dir: &str) -> (r: String)
    ensures
        r@ == config_text(data_dir@),
{
    let mut r = String::from_str("board_manager:\n  additional_urls: []\ndaemon:\n  port: \"50051\"\ndirectories:\n  data: ");
    r.append(data_dir);
    r.append("\n  downloads: ");
    r.append(data_dir);
    r.append("/staging\n  user: ");
    r.append(data_dir);
    r.append("\nlibrary:\n  enable_unsafe_install: false\nlogging:\n  file: \"\"\n  format: text\n  level: info\nmetrics:\n  addr: \":9090\"\n  enabled: false\noutput:\n  no_color: false\nsketch:\n  always_export_binaries: false\nupdater:\n  enable_notification: false\n");
    r
}

/// One step of materializing the bundled snapshot.
#[derive(Debug, Clone, Copy, PartialEq, Eq)]
pub enum BootstrapStep {
    /// Report the environment setup at this percent.
    Notify(u8),
    /// Create the packages directory and copy the bundled packages into it.
    CopyPackages,
    /// Copy the bundled package index.
    CopyIndex,
}

/// The steps of a bootstrap: nothing when the marker is present or there is
/// no bundled snapshot; otherwise the milestones and a copy of each part of
/// the snapshot that exists.
pub open spec fn bootstrap_spec(marker_exists: bool, bundled_exists: bool, packages_exist: bool, index_exists: bool) -> Seq<BootstrapStep> {
    if marker_exists || !bundled_exists {
        Seq::empty()
    } else {
        seq![BootstrapStep::Notify(10)]
            + (if packages_exist { seq![BootstrapStep::Notify(50), BootstrapStep::CopyPackages] } else { Seq::empty() })
            + (if index_exists { seq![BootstrapStep::CopyIndex] } else { Seq::empty() })
            + seq![BootstrapStep::Notify(100)]
    }
}

/// Plans the first-run bootstrap from what exists on disk.
pub fn bootstrap_plan(marker_exists: bool, bundled_exists: bool, packages_exist: bool, index_exists: bool) -> (r: Vec<BootstrapStep>)
    ensures
        r@ == bootstrap_spec(marker_exists, bundled_exists, packages_exist, index_exists),
{
    let mut r: Vec<BootstrapStep> = Vec::new();
    if marker_exists || !bundled_exists {
        assert(r@ =~= bootstrap_spec(marker_exists, bundled_exists, packages_exist, index_exists));
        return r;
    }
    r.push(BootstrapStep::Notify(10));
    if packages_exist {
        r.push(BootstrapStep::Notify(50));
        r.push(BootstrapStep::CopyPackages);
    }
    if index_exists {
        r.push(BootstrapStep::CopyIndex);
    }
    r.push(BootstrapStep::Notify(100));
    assert(r@ =~= bootstrap_spec(marker_exists, bundled_exists, packages_exist, index_exists));
    r
}

/// The milestone message of a bootstrap notification.
pub open spec fn bootstrap_message(percent: u8) -> Seq<char> {
    if percent == 10 {
        "Setting up Arduino environment..."@
    } else if percent == 50 {
        "Installing AVR core..."@
    } else {
        "Arduino environment ready"@
    }
}

/// The event that a bootstrap notification shows.
pub fn bootstrap_event(percent: u8) -> (r: CompileProgress)
    requires
        percent <= 100,
    ensures
        r.is_event(Stage::Initializing, percent, bootstrap_message(percent)),
{
    let message = if percent == 10 {
        "Setting up Arduino environment..."
    } else if percent == 50 {
        "Installing AVR core..."
    } else {
        "Arduino environment ready"
    };
    CompileProgress::new(Stage::Initializing, percent, message)
}

/// The plan copies the bundled packages.
pub open spec fn copies_packages(plan: Seq<BootstrapStep>) -> bool {
    plan.contains(BootstrapStep::CopyPackages)
}

/// Bootstrapping is idempotent: once the marker exists the plan is empty,
/// and when a first run copied a snapshot whose packages hold the marker, a
/// second run against the same snapshot copies nothing, so the data is
/// copied at most once.
pub proof fn lemma_bootstrap_idempotent(
    marker_exists: bool,
    bundled_exists: bool,
    packages_exist: bool,
    index_exists: bool,
    snapshot_holds_marker: bool,
)
    ensures
        bootstrap_spec(true, bundled_exists, packages_exist, index_exists) == Seq::<BootstrapStep>::empty(),
        ({
            let first = bootstrap_spec(marker_exists, bundled_exists, packages_exist, index_exists);
            let marker_after = marker_exists || (copies_packages(first) && snapshot_holds_marker);
            let second = bootstrap_spec(marker_after, bundled_exists, packages_exist, index_exists);
            (copies_packages(first) && snapshot_holds_marker) ==> second.len() == 0
        }),
{
}

} // verus!
