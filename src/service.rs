//! The renderer service: finding a working `mmdc`, keeping it, and driving a
//! rendering run from its command line to its result.
//!
//! Starting processes is the caller's part. The service tells the caller
//! which candidate to probe next, which command line to run, and turns what
//! the caller observed into the answer.

use vstd::prelude::*;
use vstd::string::*;
use crate::models::{DiagramFormat, DiagramOptions, DiagramResult};
use crate::text::{
    decimal, decimal_text, join_texts, joined, opt_text, push_text, replace_text, replaced,
    str_equal, texts_view, trim_text, trimmed,
};

verus! {

/// The index of the first probe that found a working renderer.
pub open spec fn first_working(outcomes: Seq<bool>) -> Option<int>
    decreases outcomes.len(),
{
    if outcomes.len() == 0 {
        None
    } else {
        match first_working(outcomes.drop_last()) {
            Some(i) => Some(i),
            None => if outcomes.last() {
                Some(outcomes.len() - 1)
            } else {
                None
            },
        }
    }
}

/// The candidate that the probes settle on, if any: the first one that worked.
pub open spec fn resolved_candidate(candidates: Seq<Seq<char>>, outcomes: Seq<bool>) -> Option<
    Seq<char>,
> {
    match first_working(outcomes) {
        Some(i) => if i < candidates.len() {
            Some(candidates[i])
        } else {
            None
        },
        None => None,
    }
}

/// Once a prefix of the probes found a working renderer, later probes do not
/// change which one is first.
proof fn lemma_first_working_prefix(outcomes: Seq<bool>, k: int)
    requires
        0 <= k <= outcomes.len(),
        first_working(outcomes.subrange(0, k)) is Some,
    ensures
        first_working(outcomes) == first_working(outcomes.subrange(0, k)),
    decreases outcomes.len(),
{
    if k == outcomes.len() {
        assert(outcomes.subrange(0, k) =~= outcomes);
    } else {
        assert(outcomes.drop_last().subrange(0, k) =~= outcomes.subrange(0, k));
        lemma_first_working_prefix(outcomes.drop_last(), k);
    }
}

/// Whether any probe so far found a working renderer.
fn any_working(outcomes: &Vec<bool>) -> (r: bool)
    ensures
        r == first_working(outcomes@) is Some,
{
    let mut i: usize = 0;
    let mut found = false;
    while i < outcomes.len()
        invariant
            i <= outcomes@.len(),
            found == first_working(outcomes@.subrange(0, i as int)) is Some,
        decreases outcomes@.len() - i,
    {
        assert(outcomes@.subrange(0, i as int + 1).drop_last() =~= outcomes@.subrange(0, i as int));
        if outcomes[i] {
            found = true;
        }
        i = i + 1;
    }
    assert(outcomes@.subrange(0, outcomes@.len() as int) =~= outcomes@);
    found
}

/// The candidate to probe next, given what the probes so far found
/// (`outcomes[i]` tells whether candidate `i` worked): the next untried one,
/// or none once a probe succeeded or every candidate was tried.
pub fn next_probe(candidate_count: usize, outcomes: &Vec<bool>) -> (r: Option<usize>)
    ensures
        r == (if first_working(outcomes@) is None && outcomes@.len() < candidate_count {
            Some(outcomes@.len() as usize)
        } else {
            None
        }),
{
    if !any_working(outcomes) && outcomes.len() < candidate_count {
        Some(outcomes.len())
    } else {
        None
    }
}

/// The candidate that the probes settle on: the first one that worked.
pub fn find_mmdc_executable(candidates: &Vec<String>, outcomes: &Vec<bool>) -> (r: Option<String>)
    ensures
        opt_text(r) == resolved_candidate(texts_view(candidates@), outcomes@),
{
    let mut i: usize = 0;
    while i < outcomes.len()
        invariant
            i <= outcomes@.len(),
            first_working(outcomes@.subrange(0, i as int)) is None,
        decreases outcomes@.len() - i,
    {
        assert(outcomes@.subrange(0, i as int + 1).drop_last() =~= outcomes@.subrange(0, i as int));
        if outcomes[i] {
            proof {
                lemma_first_working_prefix(outcomes@, i as int + 1);
            }
            if i < candidates.len() {
                return Some(candidates[i].clone());
            } else {
                return None;
            }
        }
        i = i + 1;
    }
    assert(outcomes@.subrange(0, outcomes@.len() as int) =~= outcomes@);
    None
}

/// The answer when no candidate worked: every path that was tried, one per line.
pub open spec fn not_found_message(candidates: Seq<Seq<char>>) -> Seq<char> {
    "❌ mmdc not found. Attempted paths:\n"@ + joined(candidates, "\n"@)
}

/// What running a program once reported.
pub enum ProcessReport {
    /// The program could not be started or waited for.
    Failed { error: String },
    /// The program ran to its end, successfully or not.
    Exited { success: bool, stdout: String, stderr: String },
}

/// The answer of an availability check, given the kept path and the report of
/// running it with `--version`.
pub open spec fn availability(path: Option<Seq<char>>, report: ProcessReport) -> Result<
    Seq<char>,
    Seq<char>,
> {
    match path {
        None => Err("mmdc not available"@),
        Some(p) => match report {
            ProcessReport::Failed { error } => Err("❌ mmdc execution error: "@ + error@),
            ProcessReport::Exited { success, stdout, stderr } => if success {
                Ok("✅ mmdc found at "@ + p + ": "@ + trimmed(stdout@))
            } else {
                Err("❌ mmdc error at "@ + p + ": "@ + stderr@)
            },
        },
    }
}

pub open spec fn result_text(r: Result<String, String>) -> Result<Seq<char>, Seq<char>> {
    match r {
        Ok(s) => Ok(s@),
        Err(e) => Err(e@),
    }
}

/// A whole availability check from a given state: resolve when no path is
/// kept yet, then report on the kept path. Gives the new state and the answer.
pub open spec fn availability_check(
    state: Option<Seq<char>>,
    candidates: Seq<Seq<char>>,
    outcomes: Seq<bool>,
    report: ProcessReport,
) -> (Option<Seq<char>>, Result<Seq<char>, Seq<char>>) {
    match state {
        Some(p) => (Some(p), availability(Some(p), report)),
        None => match resolved_candidate(candidates, outcomes) {
            Some(p) => (Some(p), availability(Some(p), report)),
            None => (None, Err(not_found_message(candidates))),
        },
    }
}

/// Arguments that set the width, where one above zero is given.
pub open spec fn width_args(width: Option<u32>) -> Seq<Seq<char>> {
    match width {
        Some(w) => if w > 0 {
            seq!["-w"@, decimal(w as nat)]
        } else {
            seq![]
        },
        None => seq![],
    }
}

/// Arguments that set the height, where one above zero is given.
pub open spec fn height_args(height: Option<u32>) -> Seq<Seq<char>> {
    match height {
        Some(h) => if h > 0 {
            seq!["-H"@, decimal(h as nat)]
        } else {
            seq![]
        },
        None => seq![],
    }
}

/// Whether a background is passed on: not blank and not `transparent`.
pub open spec fn wants_background(background: Seq<char>) -> bool {
    trimmed(background).len() > 0 && background != "transparent"@
}

pub open spec fn background_args(background: Seq<char>) -> Seq<Seq<char>> {
    if wants_background(background) {
        seq!["-b"@, background]
    } else {
        seq![]
    }
}

pub open spec fn theme_args(theme: Option<Seq<char>>) -> Seq<Seq<char>> {
    match theme {
        Some(t) => seq!["-t"@, t],
        None => seq![],
    }
}

/// The command line of a rendering run: the source comes on standard input
/// (`-i -`), the image goes to `output_path`, and the optional settings follow.
pub open spec fn render_args(options: DiagramOptions, output_path: Seq<char>) -> Seq<Seq<char>> {
    seq!["-i"@, "-"@, "-o"@, output_path] + width_args(options.width) + height_args(options.height)
        + background_args(options.background@) + theme_args(opt_text(options.theme))
}

/// The arguments to give the renderer for one rendering run.
pub fn build_args(options: &DiagramOptions, output_path: &str) -> (r: Vec<String>)
    ensures
        texts_view(r@) == render_args(*options, output_path@),
{
    let mut args: Vec<String> = Vec::new();
    push_text(&mut args, String::from_str("-i"));
    push_text(&mut args, String::from_str("-"));
    push_text(&mut args, String::from_str("-o"));
    push_text(&mut args, String::from_str(output_path));
    let ghost base = texts_view(args@);
    assert(base =~= seq!["-i"@, "-"@, "-o"@, output_path@]);
    if let Some(width) = options.width {
        if width > 0 {
            push_text(&mut args, String::from_str("-w"));
            push_text(&mut args, decimal_text(width as u64));
        }
    }
    let ghost with_width = texts_view(args@);
    assert(with_width =~= base + width_args(options.width));
    if let Some(height) = options.height {
        if height > 0 {
            push_text(&mut args, String::from_str("-H"));
            push_text(&mut args, decimal_text(height as u64));
        }
    }
    let ghost with_height = texts_view(args@);
    assert(with_height =~= with_width + height_args(options.height));
    let blank = trim_text(options.background.as_str()).unicode_len() == 0;
    if !blank && !str_equal(options.background.as_str(), "transparent") {
        push_text(&mut args, String::from_str("-b"));
        push_text(&mut args, options.background.clone());
    }
    let ghost with_background = texts_view(args@);
    assert(with_background =~= with_height + background_args(options.background@));
    if let Some(theme) = &options.theme {
        push_text(&mut args, String::from_str("-t"));
        push_text(&mut args, theme.clone());
    }
    assert(texts_view(args@) =~= with_background + theme_args(opt_text(options.theme)));
    args
}

/// A number in decimal is never empty and holds no `-`.
proof fn lemma_decimal_has_no_dash(n: nat)
    ensures
        decimal(n).len() >= 1,
        forall|i: int| 0 <= i < decimal(n).len() ==> decimal(n)[i] != '-',
    decreases n,
{
    if n >= 10 {
        lemma_decimal_has_no_dash(n / 10);
    }
}

/// Each argument of a command line is a flag, the output path, or the value
/// that follows a flag.
proof fn lemma_render_arg_kinds(options: DiagramOptions, output_path: Seq<char>, i: int)
    requires
        0 <= i < render_args(options, output_path).len(),
    ensures
        ({
            let a = render_args(options, output_path)[i];
            ||| a == "-i"@
            ||| a == "-"@
            ||| a == "-o"@
            ||| a == output_path
            ||| (a == "-w"@ && (options.width matches Some(w) && w > 0))
            ||| (options.width matches Some(w) && a == decimal(w as nat))
            ||| a == "-H"@
            ||| (options.height matches Some(h) && a == decimal(h as nat))
            ||| a == "-b"@ && wants_background(options.background@)
            ||| a == options.background@ && wants_background(options.background@)
            ||| a == "-t"@
            ||| (options.theme matches Some(t) && a == t@)
        }),
{
    let base = seq!["-i"@, "-"@, "-o"@, output_path];
    let wa = width_args(options.width);
    let ha = height_args(options.height);
    let ba = background_args(options.background@);
    let ta = theme_args(opt_text(options.theme));
    let args = render_args(options, output_path);
    let n1 = base.len() as int;
    let n2 = n1 + wa.len();
    let n3 = n2 + ha.len();
    let n4 = n3 + ba.len();
    assert(args == base + wa + ha + ba + ta);
    if i < n1 {
        assert(args[i] == base[i]);
    } else if i < n2 {
        assert(args[i] == wa[i - n1]);
    } else if i < n3 {
        assert(args[i] == ha[i - n2]);
    } else if i < n4 {
        assert(args[i] == ba[i - n3]);
    } else {
        assert(args[i] == ta[i - n4]);
    }
}

/// The flags of the command line, written out.
proof fn lemma_flag_texts()
    ensures
        "-w"@.len() == 2 && "-w"@[0] == '-' && "-w"@[1] == 'w',
        "-b"@.len() == 2 && "-b"@[0] == '-' && "-b"@[1] == 'b',
        "-i"@.len() == 2 && "-i"@[1] == 'i',
        "-o"@.len() == 2 && "-o"@[1] == 'o',
        "-H"@.len() == 2 && "-H"@[1] == 'H',
        "-t"@.len() == 2 && "-t"@[1] == 't',
        "-"@.len() == 1,
{
    reveal_strlit("-w");
    reveal_strlit("-b");
    reveal_strlit("-i");
    reveal_strlit("-o");
    reveal_strlit("-H");
    reveal_strlit("-t");
    reveal_strlit("-");
}

/// Without a width above zero the command line holds no `-w` argument, as
/// long as the output path, the background and the theme are not `-w`
/// themselves.
pub proof fn lemma_no_width_flag(options: DiagramOptions, output_path: Seq<char>)
    requires
        options.width matches Some(w) ==> w == 0,
        output_path != "-w"@,
        options.background@ != "-w"@,
        options.theme matches Some(t) ==> t@ != "-w"@,
    ensures
        forall|i: int|
            0 <= i < render_args(options, output_path).len() ==> render_args(options, output_path)[i]
                != "-w"@,
{
    lemma_flag_texts();
    if let Some(w) = options.width {
        lemma_decimal_has_no_dash(w as nat);
    }
    if let Some(h) = options.height {
        lemma_decimal_has_no_dash(h as nat);
    }
    let args = render_args(options, output_path);
    assert forall|i: int| 0 <= i < args.len() implies args[i] != "-w"@ by {
        lemma_render_arg_kinds(options, output_path, i);
        if args[i] == "-w"@ {
            assert(args[i][0] == '-');
            assert(args[i][1] == 'w');
        }
    }
}

/// A blank or `transparent` background adds no `-b` argument, as long as the
/// output path and the theme are not `-b` themselves.
pub proof fn lemma_no_background_flag(options: DiagramOptions, output_path: Seq<char>)
    requires
        options.background@ == "transparent"@ || trimmed(options.background@).len() == 0,
        output_path != "-b"@,
        options.theme matches Some(t) ==> t@ != "-b"@,
    ensures
        forall|i: int|
            0 <= i < render_args(options, output_path).len() ==> render_args(options, output_path)[i]
                != "-b"@,
{
    lemma_flag_texts();
    if let Some(w) = options.width {
        lemma_decimal_has_no_dash(w as nat);
    }
    if let Some(h) = options.height {
        lemma_decimal_has_no_dash(h as nat);
    }
    let args = render_args(options, output_path);
    assert forall|i: int| 0 <= i < args.len() implies args[i] != "-b"@ by {
        lemma_render_arg_kinds(options, output_path, i);
        if args[i] == "-b"@ {
            assert(args[i][0] == '-');
            assert(args[i][1] == 'b');
        }
    }
}

/// Any background that is neither blank nor `transparent` is passed on
/// exactly as given, right after a `-b` argument.
pub proof fn lemma_background_flag(options: DiagramOptions, output_path: Seq<char>)
    requires
        trimmed(options.background@).len() > 0,
        options.background@ != "transparent"@,
    ensures
        exists|i: int|
            0 <= i && i + 1 < render_args(options, output_path).len() && #[trigger] render_args(
                options,
                output_path,
            )[i] == "-b"@ && render_args(options, output_path)[i + 1] == options.background@,
{
    let args = render_args(options, output_path);
    let i = (4 + width_args(options.width).len() + height_args(options.height).len()) as int;
    assert(args[i] == "-b"@);
    assert(args[i + 1] == options.background@);
}

/// A found executable is kept: once an availability check has found one, a
/// second check gives the same path and the same answer for the same report,
/// whatever a new round of probes would have found, so none is made.
pub proof fn lemma_availability_idempotent(
    state: Option<Seq<char>>,
    candidates: Seq<Seq<char>>,
    outcomes: Seq<bool>,
    report: ProcessReport,
    later_candidates: Seq<Seq<char>>,
    later_outcomes: Seq<bool>,
)
    ensures
        availability_check(state, candidates, outcomes, report).0 is Some ==> availability_check(
            availability_check(state, candidates, outcomes, report).0,
            later_candidates,
            later_outcomes,
            report,
        ) == availability_check(state, candidates, outcomes, report),
        state is Some ==> availability_check(state, candidates, outcomes, report).0 == state,
{
}

/// What the caller is to do next for a rendering request.
pub enum GenerationStep {
    /// The request is answered.
    Finished(DiagramResult),
    /// No renderer is known yet: probe the candidates, then call
    /// `resolve_and_generate`.
    Resolve,
    /// Run `program` with `args`, write the source to its standard input,
    /// close it, wait, and hand what happened to `finish_generation`.
    Spawn { program: String, args: Vec<String> },
}

/// The message of a request whose source is blank.
pub open spec fn empty_source_message() -> Seq<char> {
    "Empty mermaid code provided"@
}

/// The step that a rendering request leads to from a given state.
pub open spec fn generation_step_is(
    step: GenerationStep,
    state: Option<Seq<char>>,
    code: Seq<char>,
    options: DiagramOptions,
    output_path: Seq<char>,
) -> bool {
    if trimmed(code).len() == 0 {
        step matches GenerationStep::Finished(r) && r.is_error_of(empty_source_message(), 0)
    } else {
        match state {
            None => step is Resolve,
            Some(p) => step matches GenerationStep::Spawn { program, args } && program@ == p
                && texts_view(args@) == render_args(options, output_path),
        }
    }
}

/// How a rendering run ended, as the caller saw it.
pub enum RunOutcome {
    /// The renderer could not be started.
    SpawnFailed { error: String },
    /// Writing the source to the renderer's standard input failed.
    StdinFailed { error: String },
    /// Waiting for the renderer failed.
    WaitFailed { error: String },
    /// The renderer ended; `output_exists` and `file_size` tell what was on
    /// disk at the output path afterwards.
    Exited { success: bool, stderr: String, output_exists: bool, file_size: Option<u64> },
}

/// The result that a finished rendering run comes to.
pub open spec fn outcome_result_is(
    r: DiagramResult,
    outcome: RunOutcome,
    output_path: Seq<char>,
    elapsed: u64,
) -> bool {
    match outcome {
        RunOutcome::SpawnFailed { error } => r.is_error_of(
            "Failed to start mmdc: "@ + error@,
            elapsed,
        ),
        RunOutcome::StdinFailed { error } => r.is_error_of(
            "Failed to write to stdin: "@ + error@,
            elapsed,
        ),
        RunOutcome::WaitFailed { error } => r.is_error_of(
            "Command execution error: "@ + error@,
            elapsed,
        ),
        RunOutcome::Exited { success, stderr, output_exists, file_size } => if !success {
            r.is_error_of("mmdc error: "@ + stderr@, elapsed)
        } else if !output_exists {
            r.is_error_of("File was not created"@, elapsed)
        } else {
            r.is_success_of(output_path, elapsed, file_size)
        },
    }
}

/// Turns how a rendering run ended into its result: any failure to run, a
/// failing exit, or a successful exit without the output file is an error;
/// only a successful exit that left the file is a success.
pub fn finish_generation(outcome: RunOutcome, output_path: String, elapsed: u64) -> (r:
    DiagramResult)
    ensures
        outcome_result_is(r, outcome, output_path@, elapsed),
        r.wf(),
{
    match outcome {
        RunOutcome::SpawnFailed { error } => DiagramResult::error(
            String::from_str("Failed to start mmdc: ").concat(error.as_str()),
            elapsed,
        ),
        RunOutcome::StdinFailed { error } => DiagramResult::error(
            String::from_str("Failed to write to stdin: ").concat(error.as_str()),
            elapsed,
        ),
        RunOutcome::WaitFailed { error } => DiagramResult::error(
            String::from_str("Command execution error: ").concat(error.as_str()),
            elapsed,
        ),
        RunOutcome::Exited { success, stderr, output_exists, file_size } => {
            if !success {
                DiagramResult::error(String::from_str("mmdc error: ").concat(stderr.as_str()), elapsed)
            } else if !output_exists {
                DiagramResult::error(String::from_str("File was not created"), elapsed)
            } else {
                DiagramResult::success(output_path, elapsed, file_size)
            }
        },
    }
}

/// The background of a live preview: dark and light themes get their page
/// colour, any other theme a transparent background.
pub open spec fn preview_background(theme: Option<Seq<char>>) -> Seq<char> {
    match theme {
        Some(t) => if t == "dark"@ {
            "#0f0f23"@
        } else if t == "light"@ {
            "#ffffff"@
        } else {
            "transparent"@
        },
        None => "transparent"@,
    }
}

/// Options of a live preview: an 800 by 600 SVG in the given theme.
pub fn preview_options(theme: &Option<String>) -> (r: DiagramOptions)
    ensures
        r.format == DiagramFormat::Svg,
        r.width == Some(800u32),
        r.height == Some(600u32),
        r.background@ == preview_background(opt_text(*theme)),
        opt_text(r.theme) == opt_text(*theme),
{
    let background = match theme {
        Some(t) => if str_equal(t.as_str(), "dark") {
            "#0f0f23"
        } else if str_equal(t.as_str(), "light") {
            "#ffffff"
        } else {
            "transparent"
        },
        None => "transparent",
    };
    let theme_copy = match theme {
        Some(t) => Some(t.clone()),
        None => None,
    };
    DiagramOptions {
        format: DiagramFormat::Svg,
        width: Some(800),
        height: Some(600),
        background: String::from_str(background),
        theme: theme_copy,
    }
}

/// The attribute that gives a dark preview its page colour.
pub open spec fn dark_svg_tag() -> Seq<char> {
    "<svg style=\"background-color: #0f0f23\""@
}

/// A rendered preview as shown: with the dark theme the colour is written
/// into every `<svg` tag, since the renderer leaves the page transparent;
/// otherwise the image is kept as it is.
pub fn style_preview(svg: &str, theme: &Option<String>) -> (r: String)
    ensures
        r@ == (if opt_text(*theme) == Some("dark"@) {
            replaced(svg@, "<svg"@, dark_svg_tag())
        } else {
            svg@
        }),
{
    let dark = match theme {
        Some(t) => str_equal(t.as_str(), "dark"),
        None => false,
    };
    if dark {
        replace_text(svg, "<svg", "<svg style=\"background-color: #0f0f23\"")
    } else {
        String::from_str(svg)
    }
}

/// Renders diagrams through the `mmdc` command-line tool, keeping the path of
/// the executable once one was found to work.
pub struct MmdcService {
    mmdc_path: Option<String>,
}

impl View for MmdcService {
    type V = Option<Seq<char>>;

    /// The path of the executable in use, once one was found.
    closed spec fn view(&self) -> Option<Seq<char>> {
        opt_text(self.mmdc_path)
    }
}

impl MmdcService {
    pub fn new() -> (r: Self)
        ensures
            r@ is None,
    {
        MmdcService { mmdc_path: None }
    }

    /// Whether no working executable is known yet, so that the candidates
    /// have to be probed before the renderer can be used.
    pub fn needs_resolution(&self) -> (r: bool)
        ensures
            r == (self@ is None),
    {
        self.mmdc_path.is_none()
    }

    /// The path of the executable in use, once one was found.
    pub fn resolved_path(&self) -> (r: Option<String>)
        ensures
            opt_text(r) == self@,
    {
        self.mmdc_path.clone()
    }

    /// Keeps the first candidate that the probes found working
    /// (`outcomes[i]` tells whether `candidates[i]` worked). Fails, listing
    /// every candidate, when none did; no path is kept then.
    pub fn initialize(&mut self, candidates: &Vec<String>, outcomes: &Vec<bool>) -> (r: Result<
        (),
        String,
    >)
        ensures
            final(self)@ == resolved_candidate(texts_view(candidates@), outcomes@),
            r is Ok == (final(self)@ is Some),
            r matches Err(e) ==> e@ == not_found_message(texts_view(candidates@)),
    {
        self.mmdc_path = find_mmdc_executable(candidates, outcomes);
        if self.mmdc_path.is_some() {
            Ok(())
        } else {
            let listed = join_texts(candidates, "\n");
            Err(String::from_str("❌ mmdc not found. Attempted paths:\n").concat(listed.as_str()))
        }
    }

    /// The answer of an availability check, from the report of running the
    /// kept executable with `--version`: its path and the version it printed,
    /// or why it failed.
    pub fn check_availability(&self, report: &ProcessReport) -> (r: Result<String, String>)
        ensures
            result_text(r) == availability(self@, *report),
    {
        match &self.mmdc_path {
            None => Err(String::from_str("mmdc not available")),
            Some(path) => match report {
                ProcessReport::Failed { error } => Err(
                    String::from_str("❌ mmdc execution error: ").concat(error.as_str()),
                ),
                ProcessReport::Exited { success, stdout, stderr } => {
                    if *success {
                        let version = trim_text(stdout.as_str());
                        Ok(
                            String::from_str("✅ mmdc found at ").concat(path.as_str()).concat(
                                ": ",
                            ).concat(version.as_str()),
                        )
                    } else {
                        Err(
                            String::from_str("❌ mmdc error at ").concat(path.as_str()).concat(
                                ": ",
                            ).concat(stderr.as_str()),
                        )
                    }
                },
            },
        }
    }

    /// The first step of rendering `code` to `output_path`: a blank source is
    /// refused at once, before any process is started, with no time spent;
    /// without a known executable the candidates are to be probed first;
    /// otherwise the renderer is to be run with the command line of
    /// `render_args`.
    pub fn generate_diagram(&self, code: &str, options: &DiagramOptions, output_path: &str) -> (r:
        GenerationStep)
        ensures
            generation_step_is(r, self@, code@, *options, output_path@),
    {
        let source = trim_text(code);
        if source.unicode_len() == 0 {
            return GenerationStep::Finished(
                DiagramResult::error(String::from_str("Empty mermaid code provided"), 0),
            );
        }
        match &self.mmdc_path {
            None => GenerationStep::Resolve,
            Some(path) => GenerationStep::Spawn {
                program: path.clone(),
                args: build_args(options, output_path),
            },
        }
    }

    /// Goes on with a rendering request once the candidates were probed: keeps
    /// the executable found as `initialize` does; when none worked, the
    /// request fails with the list of candidates and no time spent.
    pub fn resolve_and_generate(
        &mut self,
        candidates: &Vec<String>,
        outcomes: &Vec<bool>,
        code: &str,
        options: &DiagramOptions,
        output_path: &str,
    ) -> (r: GenerationStep)
        ensures
            final(self)@ == resolved_candidate(texts_view(candidates@), outcomes@),
            final(self)@ is None && trimmed(code@).len() > 0 ==> (r matches GenerationStep::Finished(
                d,
            ) && d.is_error_of(not_found_message(texts_view(candidates@)), 0)),
            final(self)@ is Some || trimmed(code@).len() == 0 ==> generation_step_is(
                r,
                final(self)@,
                code@,
                *options,
                output_path@,
            ),
    {
        match self.initialize(candidates, outcomes) {
            Err(e) => {
                let step = self.generate_diagram(code, options, output_path);
                if let GenerationStep::Finished(_) = step {
                    step
                } else {
                    GenerationStep::Finished(DiagramResult::error(e, 0))
                }
            },
            Ok(()) => self.generate_diagram(code, options, output_path),
        }
    }
}

impl Default for MmdcService {
    fn default() -> (r: Self)
        ensures
            r@ is None,
    {
        MmdcService::new()
    }
}

} // verus!
