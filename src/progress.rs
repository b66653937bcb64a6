use vstd::prelude::*;
use crate::error::ArduinoError;

verus! {

/// Phase of an operation that a progress event reports on.
#[derive(Debug, Clone, Copy, PartialEq, Eq)]
pub enum Stage {
    Initializing,
    Compiling,
    Uploading,
    Installing,
}

/// The name under which a stage is reported to the user interface.
pub open spec fn stage_label(s: Stage) -> Seq<char> {
    match s {
        Stage::Initializing => "initializing"@,
        Stage::Compiling => "compiling"@,
        Stage::Uploading => "uploading"@,
        Stage::Installing => "installing"@,
    }
}

impl Stage {
    pub fn label(&self) -> (r: String)
        ensures
            r@ == stage_label(*self),
    {
        match self {
            Stage::Initializing => String::from_str("initializing"),
            Stage::Compiling => String::from_str("compiling"),
            Stage::Uploading => String::from_str("uploading"),
            Stage::Installing => String::from_str("installing"),
        }
    }
}

/// A progress notification: stage name, percent in 0..=100, and a message.
#[derive(Debug, Clone)]
pub struct CompileProgress {
    pub stage: String,
    pub percent: u8,
    pub message: String,
}

impl CompileProgress {
    pub open spec fn is_event(&self, s: Stage, percent: u8, message: Seq<char>) -> bool {
        &&& self.stage@ == stage_label(s)
        &&& self.percent == percent
        &&& self.message@ == message
    }

    pub fn new(stage: Stage, percent: u8, message: &str) -> (r: CompileProgress)
        requires
            percent <= 100,
        ensures
            r.is_event(stage, percent, message@),
    {
        CompileProgress { stage: stage.label(), percent, message: String::from_str(message) }
    }
}

/// `pat` occurs as a contiguous run of `s`.
pub open spec fn has_substring(s: Seq<char>, pat: Seq<char>) -> bool {
    exists|i: int| 0 <= i && i + pat.len() <= s.len() && #[trigger] s.subrange(i, i + pat.len()) == pat
}

/// Relies on `str::contains` with a string pattern: true exactly when the
/// pattern occurs in the text.
#[verifier::external_body]
pub(crate) fn text_contains(s: &str, pat: &str) -> (r: bool)
    ensures
        r == has_substring(s@, pat@),
{
    s.contains(pat)
}

/// Percent at which a build starts reporting.
pub const COMPILE_START_PERCENT: u8 = 10;

/// Highest percent that the per-file ratchet reaches.
pub const COMPILE_RATCHET_CAP: u8 = 80;

/// Fixed checkpoint reported when linking starts.
pub const LINK_PERCENT: u8 = 85;

/// What one line of build output tells: the running percent after it, and
/// the event to emit, if any.
pub open spec fn classify_spec(line: Seq<char>, current: u8) -> (u8, Option<(u8, Seq<char>)>) {
    if has_substring(line, "Compiling"@) {
        let p = if current + 5 > 80 { 80u8 } else { (current + 5) as u8 };
        (p, Some((p, line)))
    } else if has_substring(line, "Linking"@) {
        (current, Some((85u8, "Linking..."@)))
    } else {
        (current, None)
    }
}

/// Classifies one line of verbose build output.  A line naming a compiled
/// unit advances the running percent by five, capped at eighty; a linking
/// line reports the fixed linking checkpoint; any other line changes nothing.
pub fn classify_line(line: &str, current: u8) -> (r: (u8, Option<CompileProgress>))
    ensures
        r.0 == classify_spec(line@, current).0,
        r.1 is Some <==> classify_spec(line@, current).1 is Some,
        r.1 is Some ==> r.1->Some_0.is_event(
            Stage::Compiling,
            classify_spec(line@, current).1->Some_0.0,
            classify_spec(line@, current).1->Some_0.1,
        ),
{
    if text_contains(line, "Compiling") {
        let p: u8 = if current > COMPILE_RATCHET_CAP - 5 { COMPILE_RATCHET_CAP } else { current + 5 };
        (p, Some(CompileProgress::new(Stage::Compiling, p, line)))
    } else if text_contains(line, "Linking") {
        (current, Some(CompileProgress::new(Stage::Compiling, LINK_PERCENT, "Linking...")))
    } else {
        (current, None)
    }
}

/// The running percent after feeding `lines` one by one, starting at `start`.
pub open spec fn percent_after(lines: Seq<Seq<char>>, start: u8) -> u8
    decreases lines.len(),
{
    if lines.len() == 0 {
        start
    } else {
        classify_spec(lines.last(), percent_after(lines.drop_last(), start)).0
    }
}

/// One line never lowers the running percent of a build that has not passed
/// the ratchet cap, never lifts it past the cap, and any event it yields
/// reports either the new running percent or the fixed linking checkpoint.
pub proof fn lemma_classify_monotone(line: Seq<char>, current: u8)
    requires
        current <= COMPILE_RATCHET_CAP,
    ensures
        classify_spec(line, current).0 >= current,
        classify_spec(line, current).0 <= COMPILE_RATCHET_CAP,
        classify_spec(line, current).1 matches Some(e) ==> (e.0 == classify_spec(line, current).0 || e.0 == LINK_PERCENT),
{
}

/// Over a build's output, the running percent never decreases: after a
/// longer prefix of the lines it is at least what it was after a shorter
/// one, and it stays within the start and the ratchet cap.
pub proof fn lemma_progress_monotone(lines: Seq<Seq<char>>, a: int, b: int)
    requires
        0 <= a <= b <= lines.len(),
    ensures
        percent_after(lines.take(a), COMPILE_START_PERCENT) <= percent_after(lines.take(b), COMPILE_START_PERCENT),
        COMPILE_START_PERCENT <= percent_after(lines.take(b), COMPILE_START_PERCENT) <= COMPILE_RATCHET_CAP,
    decreases b,
{
    if b == 0 {
        assert(lines.take(0) =~= Seq::<Seq<char>>::empty());
    } else {
        let prev = lines.take(b - 1);
        assert(lines.take(b).drop_last() =~= prev);
        if a == b {
            lemma_progress_monotone(lines, a - 1, b - 1);
        } else {
            lemma_progress_monotone(lines, a, b - 1);
        }
        lemma_classify_monotone(lines.take(b).last(), percent_after(prev, COMPILE_START_PERCENT));
    }
}

/// Lines joined with a single newline between neighbours.
pub open spec fn join_lines(lines: Seq<Seq<char>>) -> Seq<char>
    decreases lines.len(),
{
    if lines.len() == 0 {
        Seq::empty()
    } else if lines.len() == 1 {
        lines[0]
    } else {
        join_lines(lines.drop_last()) + seq!['\n'] + lines.last()
    }
}

pub open spec fn string_views(v: Seq<String>) -> Seq<Seq<char>> {
    v.map_values(|s: String| s@)
}

/// Joins lines with a newline between neighbours.
pub fn join_with_newlines(lines: &Vec<String>) -> (r: String)
    ensures
        r@ == join_lines(string_views(lines@)),
{
    let mut r = String::new();
    let mut i: usize = 0;
    while i < lines.len()
        invariant
            i <= lines.len(),
            r@ == join_lines(string_views(lines@).take(i as int)),
        decreases lines.len() - i,
    {
        let ghost before = string_views(lines@).take(i as int);
        if i > 0 {
            r.append("\n");
        }
        r.append(lines[i].as_str());
        proof {
            let after = string_views(lines@).take(i + 1);
            assert(after.drop_last() =~= before);
            assert(after.last() == lines@[i as int]@);
            if i == 0 {
                assert(after.len() == 1);
            } else {
                reveal_strlit("\n");
            }
        }
        i = i + 1;
    }
    assert(string_views(lines@).take(lines.len() as int) =~= string_views(lines@));
    r
}

/// The accumulating record of one build's diagnostic output: every line
/// seen, in order, and the running percent.
pub struct CompileLog {
    pub lines: Vec<String>,
    pub percent: u8,
}

impl CompileLog {
    pub open spec fn line_views(&self) -> Seq<Seq<char>> {
        string_views(self.lines@)
    }

    /// The state of a log: its percent is what its lines lead to from the start.
    pub open spec fn wf(&self) -> bool {
        self.percent == percent_after(self.line_views(), COMPILE_START_PERCENT)
    }

    pub fn new() -> (r: CompileLog)
        ensures
            r.lines@.len() == 0,
            r.percent == COMPILE_START_PERCENT,
            r.wf(),
    {
        CompileLog { lines: Vec::new(), percent: COMPILE_START_PERCENT }
    }

    /// The event announcing that a build starts.
    pub fn start_event() -> (r: CompileProgress)
        ensures
            r.is_event(Stage::Compiling, COMPILE_START_PERCENT, "Starting compilation..."@),
    {
        CompileProgress::new(Stage::Compiling, COMPILE_START_PERCENT, "Starting compilation...")
    }

    /// Retains `line` verbatim and classifies it against the running percent.
    pub fn record(&mut self, line: String) -> (r: Option<CompileProgress>)
        ensures
            final(self).line_views() == old(self).line_views().push(line@),
            final(self).percent == classify_spec(line@, old(self).percent).0,
            old(self).wf() ==> final(self).wf(),
            r is Some <==> classify_spec(line@, old(self).percent).1 is Some,
            r is Some ==> r->Some_0.is_event(
                Stage::Compiling,
                classify_spec(line@, old(self).percent).1->Some_0.0,
                classify_spec(line@, old(self).percent).1->Some_0.1,
            ),
    {
        let (p, event) = classify_line(line.as_str(), self.percent);
        self.percent = p;
        let ghost lv = line@;
        self.lines.push(line);
        proof {
            assert(self.line_views() =~= old(self).line_views().push(lv));
            assert(self.line_views().drop_last() =~= old(self).line_views());
        }
        event
    }

    /// The full diagnostic text: every retained line, newline-joined.
    pub fn failure_text(&self) -> (r: String)
        ensures
            r@ == join_lines(self.line_views()),
    {
        join_with_newlines(&self.lines)
    }
}

/// Ends a compile-only build: on failure the full diagnostic text becomes
/// the error and the percent drops to zero; on success the build directory
/// is handed to the caller.
pub fn compile_code(log: &CompileLog, success: bool, build_dir: String) -> (r: (CompileProgress, Result<String, ArduinoError>))
    ensures
        success ==> r.0.is_event(Stage::Compiling, 100, "Compilation complete"@),
        success ==> r.1 == Ok::<String, ArduinoError>(build_dir),
        !success ==> r.0.is_event(Stage::Compiling, 0, "Compilation failed"@),
        !success ==> (r.1 matches Err(ArduinoError::CompileFailed(m)) && m@ == join_lines(log.line_views())),
{
    if success {
        (CompileProgress::new(Stage::Compiling, 100, "Compilation complete"), Ok(build_dir))
    } else {
        let text = log.failure_text();
        (CompileProgress::new(Stage::Compiling, 0, "Compilation failed"), Err(ArduinoError::CompileFailed(text)))
    }
}

} // verus!
