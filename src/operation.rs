use vstd::prelude::*;
use crate::error::ArduinoError;
use crate::progress::{CompileProgress, Stage, string_views};

verus! {

/// Outcome of the combined compile-and-upload flow.
#[derive(Debug, Clone)]
pub struct UploadResult {
    pub success: bool,
    pub stage: Option<String>,
    pub message: Option<String>,
    pub error: Option<String>,
}

pub open spec fn opt_view(o: Option<String>) -> Option<Seq<char>> {
    match o {
        Some(s) => Some(s@),
        None => None,
    }
}

/// The leading arguments that point the tool at a configuration file.
pub open spec fn config_prefix(config: Option<Seq<char>>) -> Seq<Seq<char>> {
    match config {
        Some(c) => seq!["--config-file"@, c],
        None => Seq::empty(),
    }
}

fn push_arg(v: &mut Vec<String>, s: &str)
    ensures
        string_views(final(v)@) == string_views(old(v)@).push(s@),
{
    v.push(String::from_str(s));
    assert(string_views(v@) =~= string_views(old(v)@).push(s@));
}

/// A fresh argument list that starts with the configuration file, if any.
pub fn with_config(config: &Option<String>) -> (r: Vec<String>)
    ensures
        string_views(r@) == config_prefix(opt_view(*config)),
{
    let mut r: Vec<String> = Vec::new();
    if let Some(c) = config {
        push_arg(&mut r, "--config-file");
        push_arg(&mut r, c.as_str());
    }
    assert(string_views(r@) =~= config_prefix(opt_view(*config)));
    r
}

/// Arguments of a build of `sketch_dir` for `board` into `build_dir`.
pub open spec fn compile_args_spec(
    config: Option<Seq<char>>,
    board: Seq<char>,
    build_dir: Seq<char>,
    sketch_dir: Seq<char>,
    verbose: bool,
) -> Seq<Seq<char>> {
    config_prefix(config) + seq!["compile"@, "--fqbn"@, board, "--output-dir"@, build_dir, sketch_dir]
        + if verbose { seq!["--verbose"@] } else { Seq::empty() }
}

pub fn compile_args(config: &Option<String>, board: &str, build_dir: &str, sketch_dir: &str, verbose: bool) -> (r: Vec<String>)
    ensures
        string_views(r@) == compile_args_spec(opt_view(*config), board@, build_dir@, sketch_dir@, verbose),
{
    let mut r = with_config(config);
    push_arg(&mut r, "compile");
    push_arg(&mut r, "--fqbn");
    push_arg(&mut r, board);
    push_arg(&mut r, "--output-dir");
    push_arg(&mut r, build_dir);
    push_arg(&mut r, sketch_dir);
    if verbose {
        push_arg(&mut r, "--verbose");
    }
    assert(string_views(r@) =~= compile_args_spec(opt_view(*config), board@, build_dir@, sketch_dir@, verbose));
    r
}

/// Arguments of an upload of the build in `build_dir` to `port`.
pub open spec fn upload_args_spec(config: Option<Seq<char>>, board: Seq<char>, port: Seq<char>, build_dir: Seq<char>) -> Seq<Seq<char>> {
    config_prefix(config) + seq!["upload"@, "--fqbn"@, board, "--port"@, port, "--input-dir"@, build_dir]
}

pub fn upload_args(config: &Option<String>, board: &str, port: &str, build_dir: &str) -> (r: Vec<String>)
    ensures
        string_views(r@) == upload_args_spec(opt_view(*config), board@, port@, build_dir@),
{
    let mut r = with_config(config);
    push_arg(&mut r, "upload");
    push_arg(&mut r, "--fqbn");
    push_arg(&mut r, board);
    push_arg(&mut r, "--port");
    push_arg(&mut r, port);
    push_arg(&mut r, "--input-dir");
    push_arg(&mut r, build_dir);
    assert(string_views(r@) =~= upload_args_spec(opt_view(*config), board@, port@, build_dir@));
    r
}

/// Arguments of a structured listing: the configuration prefix, then `words`.
pub fn tool_args(config: &Option<String>, words: &Vec<String>) -> (r: Vec<String>)
    ensures
        string_views(r@) == config_prefix(opt_view(*config)) + string_views(words@),
{
    let mut r = with_config(config);
    let mut i: usize = 0;
    while i < words.len()
        invariant
            i <= words.len(),
            string_views(r@) == config_prefix(opt_view(*config)) + string_views(words@).take(i as int),
        decreases words.len() - i,
    {
        push_arg(&mut r, words[i].as_str());
        assert(string_views(words@).take(i + 1) =~= string_views(words@).take(i as int).push(words@[i as int]@));
        i = i + 1;
    }
    assert(string_views(words@).take(words.len() as int) =~= string_views(words@));
    r
}

/// Where the combined flow stands.
#[derive(Debug, Clone, Copy, PartialEq, Eq)]
pub enum UploadPhase {
    Ready,
    Compiling,
    Uploading,
    Done,
}

/// What the combined flow asks its driver to do after a compile has ended.
pub enum UploadStep {
    /// Run the upload with these arguments.
    RunUpload(Vec<String>),
    /// Stop with this result; no further tool runs.
    Finish(UploadResult),
}

/// The decisions of one compile-and-upload operation.  The driver runs the
/// tool as asked and hands back each exit status and diagnostic text.
pub struct UploadSession {
    pub config: Option<String>,
    pub board: String,
    pub port: String,
    pub build_dir: String,
    pub sketch_dir: String,
    pub phase: UploadPhase,
}

/// A failed phase: the phase's name and its full diagnostic text.
pub open spec fn is_failure(r: UploadResult, phase: Seq<char>, diagnostic: Seq<char>) -> bool {
    &&& !r.success
    &&& opt_view(r.stage) == Some(phase)
    &&& r.message is None
    &&& opt_view(r.error) == Some(diagnostic)
}

fn failure(phase: &str, diagnostic: String) -> (r: UploadResult)
    ensures
        is_failure(r, phase@, diagnostic@),
{
    UploadResult { success: false, stage: Some(String::from_str(phase)), message: None, error: Some(diagnostic) }
}

impl UploadSession {
    pub fn new(config: Option<String>, board: String, port: String, build_dir: String, sketch_dir: String) -> (r: UploadSession)
        ensures
            r.phase == UploadPhase::Ready,
            r.config == config,
            r.board == board,
            r.port == port,
            r.build_dir == build_dir,
            r.sketch_dir == sketch_dir,
    {
        UploadSession { config, board, port, build_dir, sketch_dir, phase: UploadPhase::Ready }
    }

    /// Starts the compile phase: the event to show and the tool arguments.
    pub fn start(&mut self) -> (r: (CompileProgress, Vec<String>))
        requires
            old(self).phase == UploadPhase::Ready,
        ensures
            final(self).phase == UploadPhase::Compiling,
            final(self).board == old(self).board,
            final(self).port == old(self).port,
            final(self).build_dir == old(self).build_dir,
            final(self).config == old(self).config,
            r.0.is_event(Stage::Compiling, 5, "Starting compilation..."@),
            string_views(r.1@) == compile_args_spec(
                opt_view(old(self).config),
                old(self).board@,
                old(self).build_dir@,
                old(self).sketch_dir@,
                false,
            ),
    {
        self.phase = UploadPhase::Compiling;
        let args = compile_args(&self.config, self.board.as_str(), self.build_dir.as_str(), self.sketch_dir.as_str(), false);
        (CompileProgress::new(Stage::Compiling, 5, "Starting compilation..."), args)
    }

    /// Decides after the compile phase.  A failed compile ends the flow with
    /// the compile diagnostic and never asks for an upload; a successful one
    /// asks for the upload of the build directory.
    pub fn on_compile_exit(&mut self, success: bool, diagnostic: String) -> (r: (Vec<CompileProgress>, UploadStep))
        requires
            old(self).phase == UploadPhase::Compiling,
        ensures
            final(self).board == old(self).board,
            final(self).port == old(self).port,
            final(self).build_dir == old(self).build_dir,
            final(self).config == old(self).config,
            !success ==> final(self).phase == UploadPhase::Done,
            !success ==> (r.1 matches UploadStep::Finish(res) && is_failure(res, "compile"@, diagnostic@)),
            !success ==> r.0@.len() == 1 && r.0@[0].is_event(Stage::Compiling, 0, "Compilation failed"@),
            success ==> final(self).phase == UploadPhase::Uploading,
            success ==> (r.1 matches UploadStep::RunUpload(args) && string_views(args@) == upload_args_spec(
                opt_view(old(self).config),
                old(self).board@,
                old(self).port@,
                old(self).build_dir@,
            )),
            success ==> r.0@.len() == 2
                && r.0@[0].is_event(Stage::Compiling, 50, "Compilation complete"@)
                && r.0@[1].is_event(Stage::Uploading, 55, "Starting upload..."@),
    {
        let mut events: Vec<CompileProgress> = Vec::new();
        if !success {
            self.phase = UploadPhase::Done;
            events.push(CompileProgress::new(Stage::Compiling, 0, "Compilation failed"));
            (events, UploadStep::Finish(failure("compile", diagnostic)))
        } else {
            self.phase = UploadPhase::Uploading;
            events.push(CompileProgress::new(Stage::Compiling, 50, "Compilation complete"));
            events.push(CompileProgress::new(Stage::Uploading, 55, "Starting upload..."));
            let args = upload_args(&self.config, self.board.as_str(), self.port.as_str(), self.build_dir.as_str());
            (events, UploadStep::RunUpload(args))
        }
    }

    /// Ends the flow after the upload phase.
    pub fn on_upload_exit(&mut self, success: bool, diagnostic: String) -> (r: (CompileProgress, UploadResult))
        requires
            old(self).phase == UploadPhase::Uploading,
        ensures
            final(self).phase == UploadPhase::Done,
            !success ==> is_failure(r.1, "upload"@, diagnostic@),
            !success ==> r.0.is_event(Stage::Uploading, 0, "Upload failed"@),
            success ==> r.1.success && opt_view(r.1.stage) == Some("upload"@)
                && opt_view(r.1.message) == Some("Code uploaded successfully!"@) && r.1.error is None,
            success ==> r.0.is_event(Stage::Uploading, 100, "Upload complete!"@),
    {
        self.phase = UploadPhase::Done;
        if !success {
            (CompileProgress::new(Stage::Uploading, 0, "Upload failed"), failure("upload", diagnostic))
        } else {
            let res = UploadResult {
                success: true,
                stage: Some(String::from_str("upload")),
                message: Some(String::from_str("Code uploaded successfully!")),
                error: None,
            };
            (CompileProgress::new(Stage::Uploading, 100, "Upload complete!"), res)
        }
    }
}

/// The event that announces the installation of a core.
pub fn install_start_event(core_id: &str) -> (r: CompileProgress)
    ensures
        r.is_event(Stage::Installing, 10, "Installing "@ + core_id@ + "..."@),
{
    let mut m = String::from_str("Installing ");
    m.append(core_id);
    m.append("...");
    CompileProgress::new(Stage::Installing, 10, m.as_str())
}

/// The event shown once the index refresh is over, whatever its outcome.
pub fn install_download_event() -> (r: CompileProgress)
    ensures
        r.is_event(Stage::Installing, 30, "Downloading core..."@),
{
    CompileProgress::new(Stage::Installing, 30, "Downloading core...")
}

/// Ends the installation of a core from the install command's outcome; the
/// index refresh before it is best effort and plays no part.
pub fn install_core(success: bool, core_id: &str, diagnostic: String) -> (r: (CompileProgress, Result<String, ArduinoError>))
    ensures
        success ==> r.0.is_event(Stage::Installing, 100, "Core installed successfully!"@),
        success ==> (r.1 matches Ok(m) && m@ == "Successfully installed "@ + core_id@),
        !success ==> r.0.is_event(Stage::Installing, 0, "Installation failed"@),
        !success ==> r.1 == Err::<String, ArduinoError>(ArduinoError::CoreInstallFailed(diagnostic)),
{
    if success {
        let mut m = String::from_str("Successfully installed ");
        m.append(core_id);
        (CompileProgress::new(Stage::Installing, 100, "Core installed successfully!"), Ok(m))
    } else {
        (CompileProgress::new(Stage::Installing, 0, "Installation failed"), Err(ArduinoError::CoreInstallFailed(diagnostic)))
    }
}

} // verus!
