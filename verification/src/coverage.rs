//! A coverage run: the instrumenter is built from source, the tests are
//! built and the binaries they announce are found, each binary is run under
//! the instrumenter, and the reports are merged into one, which the publishing
//! variant also uploads.
//!
//! The run is a state machine. It names the command to run next; the caller
//! runs it and reports how it ended; the machine then names the next one, or
//! the code to exit with. The first command that fails ends the run with its
//! own exit code.

use crate::cargo::{add_features, augmented, augments, dangling, feature_in_force};
use crate::command::{invocations, plain, Invocation, InvocationView};
use crate::scan::{binaries_in, names_view, test_binaries, ScanError};
use crate::text::{chars_of, copy_all, copy_text, join, text_of, texts};
use crate::utils::{console_of, settle, Outcome, Stdout, StdoutView};
use vstd::prelude::*;
use vstd::string::*;

verus! {

/// What the user asked of a coverage run.
#[derive(Debug, Clone, PartialEq, Eq)]
pub struct Options {
    /// Where the merged report goes; `target/kcov` where none is given.
    pub merge_into: Option<String>,
    /// The libraries that the instrumenter needs are installed already.
    pub no_sudo: bool,
    /// The instrumenter is to verify the binaries it runs.
    pub verify: bool,
    /// The tests are built without keeping dead code.
    pub no_link_dead_code: bool,
    /// Arguments for the test build.
    pub args: Vec<String>,
    /// Arguments for the instrumenter, for every binary it records.
    pub kcov_args: Vec<String>,
    /// Patterns that the instrumenter leaves out, separated by commas.
    pub exclude_pattern: Option<String>,
}

/// What a run takes from its surroundings, read once before it starts.
#[derive(Debug, Clone, PartialEq, Eq)]
pub struct Surroundings {
    /// The compiler flags in force, if any.
    pub rustflags: Option<String>,
    /// The search path for dynamic libraries in force, if any.
    pub library_path: Option<String>,
    /// The directory the run starts in.
    pub current_dir: String,
}

/// All that a run depends on.
#[derive(Debug, Clone, PartialEq, Eq)]
pub struct Settings {
    pub use_sudo: bool,
    pub verify: bool,
    pub link_dead_code: bool,
    /// Arguments for the test build, the feature worked in already.
    pub test_args: Vec<String>,
    /// A secret that the merge may echo; its output is then printed masked.
    pub secret: Option<String>,
    /// Arguments for the merge, ahead of the directories.
    pub merge_args: Vec<String>,
    pub merge_dir: String,
    pub exclude_pattern: Option<String>,
    pub kcov_args: Vec<String>,
    pub around: Surroundings,
}

/// The model of [`Settings`].
pub struct SettingsView {
    pub use_sudo: bool,
    pub verify: bool,
    pub link_dead_code: bool,
    pub test_args: Seq<Seq<char>>,
    pub secret: Option<Seq<char>>,
    pub merge_args: Seq<Seq<char>>,
    pub merge_dir: Seq<char>,
    pub exclude_pattern: Option<Seq<char>>,
    pub kcov_args: Seq<Seq<char>>,
    pub rustflags: Option<Seq<char>>,
    pub library_path: Option<Seq<char>>,
    pub current_dir: Seq<char>,
}

impl View for Settings {
    type V = SettingsView;

    open spec fn view(&self) -> SettingsView {
        SettingsView {
            use_sudo: self.use_sudo,
            verify: self.verify,
            link_dead_code: self.link_dead_code,
            test_args: texts(self.test_args@),
            secret: text_of(self.secret),
            merge_args: texts(self.merge_args@),
            merge_dir: self.merge_dir@,
            exclude_pattern: text_of(self.exclude_pattern),
            kcov_args: texts(self.kcov_args@),
            rustflags: text_of(self.around.rustflags),
            library_path: text_of(self.around.library_path),
            current_dir: self.around.current_dir@,
        }
    }
}

/// Why a publishing run could not be set up.
#[derive(Debug, Clone, Copy, PartialEq, Eq, Structural)]
pub enum SetupError {
    /// The job has no identifier to publish under.
    MissingJobId,
}

/// Where a run stands.
#[derive(Debug, Clone, Copy, PartialEq, Eq, Structural)]
pub enum Stage {
    /// Nothing has been run yet.
    Idle,
    /// The step of the given index of building the instrumenter is running.
    Bootstrapping(usize),
    /// Earlier build results are being removed, since the flags changed.
    Cleaning,
    /// The test build is running.
    Building,
    /// The binary of the given index is running under the instrumenter.
    Recording(usize),
    /// The reports are being merged and, in the publishing variant, uploaded.
    Merging,
    /// Every command has succeeded.
    Done,
    /// A command has failed with the given code.
    Failed(i32),
    /// The output of the test build could not be read.
    Faulted(ScanError),
}

/// A run of the coverage pipeline.
#[derive(Debug, PartialEq, Eq)]
pub struct Pipeline {
    settings: Settings,
    stage: Stage,
    binaries: Vec<String>,
}

/// The model of a [`Pipeline`].
pub struct PipelineView {
    pub settings: SettingsView,
    pub stage: Stage,
    /// The test binaries found, in the order the build announced them.
    pub binaries: Seq<Seq<char>>,
}

/// What the caller is to do next.
#[derive(Debug, Clone, PartialEq, Eq)]
pub enum Action {
    /// Run the command and report how it ended.
    Run(Invocation),
    /// End with the given exit code.
    Exit(i32),
    /// Give up: the output of the test build could not be read.
    Fault(ScanError),
}

/// The model of an [`Action`].
pub enum ActionView {
    Run(InvocationView),
    Exit(i32),
    Fault(ScanError),
}

impl View for Action {
    type V = ActionView;

    open spec fn view(&self) -> ActionView {
        match self {
            Action::Run(invocation) => ActionView::Run(invocation@),
            Action::Exit(code) => ActionView::Exit(*code),
            Action::Fault(error) => ActionView::Fault(*error),
        }
    }
}

/// What follows the end of a command.
#[derive(Debug, Clone, PartialEq, Eq)]
pub struct Step {
    /// The bytes to write to the console before anything else is done.
    pub console: Vec<u8>,
    pub action: Action,
}

/// How one command ended.
pub struct Exit {
    pub code: i32,
    pub stdout: Seq<char>,
}

/// The path of the instrumenter once it is built: `kcov-master/build/src/kcov`
/// below the directory the run started in.
pub open spec fn kcov(current_dir: Seq<char>) -> Seq<char> {
    current_dir + (if current_dir.len() > 0 && current_dir.last() != '/' {
        "/"@
    } else {
        Seq::empty()
    }) + "kcov-master/build/src/kcov"@
}

/// The same command, run in the directory `dir`.
pub open spec fn within(dir: Seq<char>, invocation: InvocationView) -> InvocationView {
    InvocationView { dir: Some(dir), ..invocation }
}

/// The command that installs the libraries the instrumenter is built on, and
/// one more where the instrumenter is to verify.
pub open spec fn install_invocation(verify: bool) -> InvocationView {
    plain(
        "sudo"@,
        seq![
            "apt-get"@,
            "install"@,
            "libcurl4-openssl-dev"@,
            "libelf-dev"@,
            "libdw-dev"@,
            "cmake"@,
        ] + (if verify {
            seq!["binutils-dev"@]
        } else {
            Seq::empty()
        }),
    )
}

/// The commands that fetch the source of the instrumenter, unpack it and
/// build it in a directory of its own.
pub open spec fn fetch_invocations() -> Seq<InvocationView> {
    seq![
        plain("wget"@, seq!["https://github.com/SimonKagstrom/kcov/archive/master.zip"@]),
        plain("unzip"@, seq!["-o"@, "master.zip"@]),
        plain("mkdir"@, seq!["-p"@, "kcov-master/build"@]),
        within("kcov-master/build"@, plain("cmake"@, seq![".."@])),
        within("kcov-master/build"@, plain("make"@, Seq::empty())),
    ]
}

/// The commands that build the instrumenter, in order: the install step where
/// the caller lets the run install, then the fetch and build steps.
pub open spec fn bootstrap(use_sudo: bool, verify: bool) -> Seq<InvocationView> {
    (if use_sudo {
        seq![install_invocation(verify)]
    } else {
        Seq::empty()
    }) + fetch_invocations()
}

/// The command that removes earlier build results.
pub open spec fn clean_invocation() -> InvocationView {
    plain("cargo"@, seq!["clean"@, "-v"@])
}

/// The compiler flags for a build that keeps dead code.
pub open spec fn dead_code_flags(rustflags: Option<Seq<char>>) -> Seq<char> {
    (match rustflags {
        Some(flags) => flags,
        None => Seq::empty(),
    }) + " -C link-dead-code"@
}

/// The test build: `cargo test` with the arguments given, its output
/// captured, and with the flags that keep dead code where that is asked for.
pub open spec fn build_invocation(settings: SettingsView) -> InvocationView {
    InvocationView {
        program: "cargo"@,
        args: seq!["test"@] + settings.test_args,
        env: if settings.link_dead_code {
            seq![("RUSTFLAGS"@, dead_code_flags(settings.rustflags))]
        } else {
            Seq::empty()
        },
        dir: None,
        stdout: StdoutView::Capture,
    }
}

/// The search path under which the binaries find their dynamic libraries:
/// the path in force, a colon where that is not empty, and
/// `target/debug/deps`.
pub open spec fn library_path(existing: Option<Seq<char>>) -> Seq<char> {
    match existing {
        Some(path) => if path.len() > 0 {
            path + ":"@ + "target/debug/deps"@
        } else {
            "target/debug/deps"@
        },
        None => "target/debug/deps"@,
    }
}

/// The argument that names what the instrumenter leaves out: always
/// `/.cargo`, then the caller's own patterns after a comma.
pub open spec fn exclude_argument(extra: Option<Seq<char>>) -> Seq<char> {
    match extra {
        Some(patterns) => "--exclude-pattern=/.cargo"@ + ","@ + patterns,
        None => "--exclude-pattern=/.cargo"@,
    }
}

/// The directory that receives the report on one binary.
pub open spec fn report_dir(binary: Seq<char>) -> Seq<char> {
    "target/kcov-"@ + binary
}

/// The report directories of a list of binaries, in order.
pub open spec fn report_dirs(binaries: Seq<Seq<char>>) -> Seq<Seq<char>> {
    Seq::new(binaries.len(), |i: int| report_dir(binaries[i]))
}

/// The command that records one binary: the instrumenter with the caller's
/// own arguments, `--verify` where asked for, the exclusions, the report
/// directory of the binary and the binary itself.
pub open spec fn record_invocation(settings: SettingsView, binary: Seq<char>) -> InvocationView {
    InvocationView {
        program: kcov(settings.current_dir),
        args: settings.kcov_args + (if settings.verify {
            seq!["--verify"@]
        } else {
            Seq::empty()
        }) + seq![
            exclude_argument(settings.exclude_pattern),
            report_dir(binary),
            "target/debug/"@ + binary,
        ],
        env: seq![("LD_LIBRARY_PATH"@, library_path(settings.library_path))],
        dir: None,
        stdout: StdoutView::Inherit,
    }
}

/// The command that merges the reports: the instrumenter with `--merge`, the
/// arguments of the merge, the directory of the merged report and every
/// report directory in the order of the binaries. Where the settings hold a
/// secret its output is printed masked.
pub open spec fn merge_invocation(settings: SettingsView, binaries: Seq<Seq<char>>) -> InvocationView {
    InvocationView {
        program: kcov(settings.current_dir),
        args: seq!["--merge"@] + settings.merge_args + seq![settings.merge_dir] + report_dirs(
            binaries,
        ),
        env: Seq::empty(),
        dir: None,
        stdout: match settings.secret {
            Some(secret) => StdoutView::Redact(secret),
            None => StdoutView::Inherit,
        },
    }
}

/// The settings of a run that records coverage and keeps the merged report.
pub open spec fn coverage_settings(
    version: Seq<char>,
    options: Options,
    feature: Seq<char>,
    around: Surroundings,
) -> SettingsView {
    SettingsView {
        use_sudo: !options.no_sudo,
        verify: options.verify,
        link_dead_code: !options.no_link_dead_code,
        test_args: augmented(texts(options.args@), version, feature),
        secret: None,
        merge_args: Seq::empty(),
        merge_dir: match options.merge_into {
            Some(dir) => dir@,
            None => "target/kcov"@,
        },
        exclude_pattern: text_of(options.exclude_pattern),
        kcov_args: texts(options.kcov_args@),
        rustflags: text_of(around.rustflags),
        library_path: text_of(around.library_path),
        current_dir: around.current_dir@,
    }
}

/// The settings of a run that also uploads the merged report under the
/// identifier of the job: the merge is told the identifier, and since the
/// instrumenter may echo it, the identifier is the secret of the run.
pub open spec fn coveralls_settings(
    version: Seq<char>,
    options: Options,
    feature: Seq<char>,
    around: Surroundings,
    job_id: Seq<char>,
) -> SettingsView {
    SettingsView {
        secret: Some(job_id),
        merge_args: seq!["--coveralls-id="@ + job_id],
        ..coverage_settings(version, options, feature, around)
    }
}

/// A run that has not begun.
pub open spec fn fresh(settings: SettingsView) -> PipelineView {
    PipelineView { settings, stage: Stage::Idle, binaries: Seq::empty() }
}

impl PipelineView {
    /// The commands that build the instrumenter for this run.
    pub open spec fn bootstrap(self) -> Seq<InvocationView> {
        bootstrap(self.settings.use_sudo, self.settings.verify)
    }

    /// The indices that the stage holds are in range.
    pub open spec fn wf(self) -> bool {
        match self.stage {
            Stage::Bootstrapping(k) => k < self.bootstrap().len(),
            Stage::Recording(i) => i < self.binaries.len(),
            _ => true,
        }
    }

    /// A command is running.
    pub open spec fn active(self) -> bool {
        match self.stage {
            Stage::Bootstrapping(_) | Stage::Cleaning | Stage::Building | Stage::Recording(_)
            | Stage::Merging => true,
            _ => false,
        }
    }

    /// The command that is running.
    pub open spec fn running(self) -> InvocationView
        recommends
            self.wf(),
            self.active(),
    {
        match self.stage {
            Stage::Bootstrapping(k) => self.bootstrap()[k as int],
            Stage::Cleaning => clean_invocation(),
            Stage::Building => build_invocation(self.settings),
            Stage::Recording(i) => record_invocation(self.settings, self.binaries[i as int]),
            _ => merge_invocation(self.settings, self.binaries),
        }
    }

    /// What the caller is to do in this stage.
    pub open spec fn action(self) -> ActionView
        recommends
            self.wf(),
            self.stage != Stage::Idle,
    {
        match self.stage {
            Stage::Done => ActionView::Exit(0),
            Stage::Failed(code) => ActionView::Exit(code),
            Stage::Faulted(error) => ActionView::Fault(error),
            _ => ActionView::Run(self.running()),
        }
    }

    /// The run in the given stage.
    pub open spec fn at(self, stage: Stage) -> PipelineView {
        PipelineView { stage, ..self }
    }

    /// The run once it has begun: the first step of building the instrumenter
    /// is running.
    pub open spec fn begun(self) -> PipelineView {
        self.at(Stage::Bootstrapping(0))
    }

    /// The run once the test build has succeeded and its output has been
    /// read: it holds the binaries found and records the first of them, or
    /// merges at once where there is none; it is at fault where the output
    /// could not be read.
    pub open spec fn scanned(self, found: Result<Seq<Seq<char>>, ScanError>) -> PipelineView {
        match found {
            Ok(names) => PipelineView {
                settings: self.settings,
                stage: if names.len() > 0 {
                    Stage::Recording(0)
                } else {
                    Stage::Merging
                },
                binaries: names,
            },
            Err(error) => self.at(Stage::Faulted(error)),
        }
    }

    /// The run once the running command has succeeded with the given output.
    pub open spec fn succeeded(self, stdout: Seq<char>) -> PipelineView {
        match self.stage {
            Stage::Bootstrapping(k) => if k + 1 < self.bootstrap().len() {
                self.at(Stage::Bootstrapping((k + 1) as usize))
            } else if self.settings.link_dead_code {
                self.at(Stage::Cleaning)
            } else {
                self.at(Stage::Building)
            },
            Stage::Cleaning => self.at(Stage::Building),
            Stage::Building => self.scanned(binaries_in(stdout)),
            Stage::Recording(i) => if i + 1 < self.binaries.len() {
                self.at(Stage::Recording((i + 1) as usize))
            } else {
                self.at(Stage::Merging)
            },
            Stage::Merging => self.at(Stage::Done),
            _ => self,
        }
    }

    /// The run once the running command has ended: failed for good with the
    /// code of a command that fails, and one stage further else. A run in
    /// which no command is running stays as it is.
    pub open spec fn advance(self, code: i32, stdout: Seq<char>) -> PipelineView {
        if !self.active() {
            self
        } else if code != 0 {
            self.at(Stage::Failed(code))
        } else {
            self.succeeded(stdout)
        }
    }

    /// The run once one command after the other has ended as `exits` says.
    pub open spec fn after(self, exits: Seq<Exit>) -> PipelineView
        decreases exits.len(),
    {
        if exits.len() == 0 {
            self
        } else {
            self.after(exits.drop_last()).advance(exits.last().code, exits.last().stdout)
        }
    }
}

/// Building the instrumenter takes five commands, and one more to install.
pub proof fn lemma_bootstrap_len(use_sudo: bool, verify: bool)
    ensures
        bootstrap(use_sudo, verify).len() == (if use_sudo {
            6nat
        } else {
            5nat
        }),
{
}

/// A failing command ends the run: the run has failed with the code of that
/// command, the caller is told to exit with it, and whatever is reported
/// later changes nothing and runs nothing.
pub proof fn law_failure_ends_run(run: PipelineView, code: i32, stdout: Seq<char>, later: Seq<Exit>)
    requires
        run.active(),
        code != 0,
    ensures
        run.advance(code, stdout).stage == Stage::Failed(code),
        run.advance(code, stdout).action() == ActionView::Exit(code),
        run.advance(code, stdout).after(later) == run.advance(code, stdout),
        !run.advance(code, stdout).after(later).active(),
    decreases later.len(),
{
    if later.len() > 0 {
        law_failure_ends_run(run, code, stdout, later.drop_last());
    }
}

/// Exit `k` is the first that reports a failure.
pub open spec fn first_failure(exits: Seq<Exit>, k: int) -> bool {
    0 <= k < exits.len() && exits[k].code != 0 && forall|j: int|
        0 <= j < k ==> (#[trigger] exits[j]).code == 0
}

/// A run fails with the exit code of the first command that failed, and
/// with no other: while a command is running every command before it has
/// succeeded, and a run that has failed with a code has been told of a first
/// failure with just that code.
pub proof fn law_exit_code_is_first_failure(run: PipelineView, exits: Seq<Exit>)
    requires
        run.active(),
    ensures
        run.after(exits).active() ==> forall|j: int|
            0 <= j < exits.len() ==> (#[trigger] exits[j]).code == 0,
        forall|code: i32|
            run.after(exits).stage == Stage::Failed(code) ==> exists|k: int|
                first_failure(exits, k) && exits[k].code == code,
    decreases exits.len(),
{
    if exits.len() > 0 {
        let earlier = exits.drop_last();
        let before = run.after(earlier);
        law_exit_code_is_first_failure(run, earlier);
        assert forall|code: i32| run.after(exits).stage == Stage::Failed(code) implies exists|
            k: int,
        |
            first_failure(exits, k) && exits[k].code == code by {
            if before.active() {
                assert forall|j: int| 0 <= j < exits.len() - 1 implies (#[trigger] exits[j]).code
                    == 0 by {
                    assert(earlier[j] == exits[j]);
                }
                assert(first_failure(exits, exits.len() - 1));
            } else {
                let k = choose|k: int| first_failure(earlier, k) && earlier[k].code == code;
                assert forall|j: int| 0 <= j < k implies (#[trigger] exits[j]).code == 0 by {
                    assert(earlier[j] == exits[j]);
                }
                assert(earlier[k] == exits[k]);
                assert(first_failure(exits, k));
            }
        }
        if run.after(exits).active() {
            assert forall|j: int| 0 <= j < exits.len() implies (#[trigger] exits[j]).code == 0 by {
                if j < exits.len() - 1 {
                    assert(earlier[j] == exits[j]);
                }
            }
        }
    }
}

/// Each binary has a report directory of its own: two binaries with the same
/// report directory are the same binary.
pub proof fn law_report_dirs_differ(one: Seq<char>, other: Seq<char>)
    requires
        report_dir(one) == report_dir(other),
    ensures
        one == other,
{
    let head = "target/kcov-"@;
    assert(one =~= report_dir(one).skip(head.len() as int));
    assert(other =~= report_dir(other).skip(head.len() as int));
}

/// Where every command succeeds, a run that is recording the first of its
/// `n` binaries is recording binary `k` after `k` more commands, for every
/// `k` below `n`, and merging after `n`.
proof fn lemma_recording_in_order(run: PipelineView, exits: Seq<Exit>)
    requires
        run.stage == Stage::Recording(0),
        run.wf(),
        run.binaries.len() <= usize::MAX,
        exits.len() <= run.binaries.len(),
        forall|k: int| 0 <= k < exits.len() ==> (#[trigger] exits[k]).code == 0,
    ensures
        run.after(exits) == run.at(
            if exits.len() < run.binaries.len() {
                Stage::Recording(exits.len() as usize)
            } else {
                Stage::Merging
            },
        ),
    decreases exits.len(),
{
    if exits.len() > 0 {
        lemma_recording_in_order(run, exits.drop_last());
        assert(exits.last() == exits[exits.len() - 1]);
    } else {
        assert(run.at(Stage::Recording(0)) == run);
    }
}

/// Once a run has taken in the binaries that its test build announced, and
/// as long as every command succeeds, each binary is recorded exactly once,
/// in the order announced; then the reports are merged by one command that
/// names their directories in that same order; then the run ends with code
/// zero.
///
/// `exits` holds how the commands after the test build ended: after the
/// first `k` of them binary `k` is being recorded, after `n` of them the
/// merge is running, and after all `n + 1` the run is done.
pub proof fn law_records_then_merges(run: PipelineView, names: Seq<Seq<char>>, exits: Seq<Exit>)
    requires
        names.len() < usize::MAX,
        exits.len() == names.len() + 1,
        forall|k: int| 0 <= k < exits.len() ==> (#[trigger] exits[k]).code == 0,
    ensures
        forall|k: int|
            0 <= k < names.len() ==> (#[trigger] run.scanned(Ok(names)).after(
                exits.take(k),
            )).action() == ActionView::Run(record_invocation(run.settings, names[k])),
        run.scanned(Ok(names)).after(exits.take(names.len() as int)).action() == ActionView::Run(
            merge_invocation(run.settings, names),
        ),
        run.scanned(Ok(names)).after(exits).action() == ActionView::Exit(0),
        run.scanned(Ok(names)).after(exits).stage == Stage::Done,
{
    let n = names.len() as int;
    let begun = run.scanned(Ok(names));
    assert forall|k: int| 0 <= k <= n implies (#[trigger] begun.after(exits.take(k))) == begun.at(
        if k < n {
            Stage::Recording(k as usize)
        } else {
            Stage::Merging
        },
    ) by {
        if n > 0 {
            lemma_recording_in_order(begun, exits.take(k));
        } else {
            assert(exits.take(k) =~= Seq::<Exit>::empty());
            assert(begun.at(Stage::Merging) == begun);
        }
    }
    assert(begun.after(exits) == begun.at(Stage::Done)) by {
        assert(exits.drop_last() =~= exits.take(n));
        assert(exits.last() == exits[n]);
        assert(begun.after(exits.take(n)) == begun.at(Stage::Merging));
    }
}

/// The path of the instrumenter below `current_dir`.
pub fn kcov_path(current_dir: &str) -> (path: String)
    ensures
        path@ == kcov(current_dir@),
{
    let letters = chars_of(current_dir);
    let n: usize = letters.len();
    if n > 0 && letters[n - 1] != '/' {
        join(current_dir, "/").concat("kcov-master/build/src/kcov")
    } else {
        proof {
            assert(current_dir@ + Seq::<char>::empty() =~= current_dir@);
        }
        join(current_dir, "kcov-master/build/src/kcov")
    }
}

/// The commands that build the instrumenter, in order. With `use_sudo` they
/// begin by installing the libraries it is built on, with one more library
/// where it is to verify.
pub fn build_kcov(use_sudo: bool, verify: bool) -> (steps: Vec<Invocation>)
    ensures
        invocations(steps@) == bootstrap(use_sudo, verify),
{
    let mut steps: Vec<Invocation> = Vec::new();
    if use_sudo {
        let mut args: Vec<String> = Vec::new();
        args.push("apt-get".to_owned());
        args.push("install".to_owned());
        args.push("libcurl4-openssl-dev".to_owned());
        args.push("libelf-dev".to_owned());
        args.push("libdw-dev".to_owned());
        args.push("cmake".to_owned());
        if verify {
            args.push("binutils-dev".to_owned());
        }
        proof {
            assert(texts(args@) =~= install_invocation(verify).args);
        }
        steps.push(Invocation::new("sudo", args));
    }
    let ghost head = invocations(steps@);
    proof {
        assert(head =~= if use_sudo {
            seq![install_invocation(verify)]
        } else {
            Seq::empty()
        });
    }
    let mut wget: Vec<String> = Vec::new();
    wget.push("https://github.com/SimonKagstrom/kcov/archive/master.zip".to_owned());
    let mut unzip: Vec<String> = Vec::new();
    unzip.push("-o".to_owned());
    unzip.push("master.zip".to_owned());
    let mut mkdir: Vec<String> = Vec::new();
    mkdir.push("-p".to_owned());
    mkdir.push("kcov-master/build".to_owned());
    let mut cmake: Vec<String> = Vec::new();
    cmake.push("..".to_owned());
    proof {
        assert(texts(wget@) =~= seq![
            "https://github.com/SimonKagstrom/kcov/archive/master.zip"@,
        ]);
        assert(texts(unzip@) =~= seq!["-o"@, "master.zip"@]);
        assert(texts(mkdir@) =~= seq!["-p"@, "kcov-master/build"@]);
        assert(texts(cmake@) =~= seq![".."@]);
        assert(texts(Seq::<String>::empty()) =~= Seq::<Seq<char>>::empty());
    }
    steps.push(Invocation::new("wget", wget));
    steps.push(Invocation::new("unzip", unzip));
    steps.push(Invocation::new("mkdir", mkdir));
    let mut configure = Invocation::new("cmake", cmake);
    configure.dir = Some("kcov-master/build".to_owned());
    steps.push(configure);
    let mut make = Invocation::new("make", Vec::new());
    make.dir = Some("kcov-master/build".to_owned());
    steps.push(make);
    proof {
        assert(invocations(steps@) =~= head + fetch_invocations());
    }
    steps
}

/// The library search path for the binaries that are recorded.
pub fn search_path(existing: &Option<String>) -> (path: String)
    ensures
        path@ == library_path(text_of(*existing)),
{
    match existing {
        Some(path) => if !path.as_str().is_empty() {
            join(path.as_str(), ":").concat("target/debug/deps")
        } else {
            "target/debug/deps".to_owned()
        },
        None => "target/debug/deps".to_owned(),
    }
}

/// The argument that tells the instrumenter what to leave out.
pub fn exclusions(extra: &Option<String>) -> (argument: String)
    ensures
        argument@ == exclude_argument(text_of(*extra)),
{
    match extra {
        Some(patterns) => join("--exclude-pattern=/.cargo", ",").concat(patterns.as_str()),
        None => "--exclude-pattern=/.cargo".to_owned(),
    }
}

impl Settings {
    /// The command that removes earlier build results.
    pub fn clean(&self) -> (out: Invocation)
        ensures
            out@ == clean_invocation(),
    {
        let mut args: Vec<String> = Vec::new();
        args.push("clean".to_owned());
        args.push("-v".to_owned());
        proof {
            assert(texts(args@) =~= seq!["clean"@, "-v"@]);
        }
        Invocation::new("cargo", args)
    }

    /// The test build.
    pub fn build(&self) -> (out: Invocation)
        ensures
            out@ == build_invocation(self@),
    {
        let mut args: Vec<String> = Vec::new();
        args.push("test".to_owned());
        let mut rest = copy_all(self.test_args.as_slice());
        args.append(&mut rest);
        let mut env: Vec<(String, String)> = Vec::new();
        if self.link_dead_code {
            let flags: String = match &self.around.rustflags {
                Some(flags) => join(flags.as_str(), " -C link-dead-code"),
                None => join("", " -C link-dead-code"),
            };
            proof {
                reveal_strlit("");
                assert(flags@ =~= dead_code_flags(self@.rustflags));
            }
            env.push(("RUSTFLAGS".to_owned(), flags));
        }
        let out = Invocation {
            program: "cargo".to_owned(),
            args,
            env,
            dir: None,
            stdout: Stdout::Capture,
        };
        proof {
            assert(out@.args =~= build_invocation(self@).args);
            assert(out@.env =~= build_invocation(self@).env);
        }
        out
    }

    /// The command that records `binary`.
    pub fn record(&self, binary: &str) -> (out: Invocation)
        ensures
            out@ == record_invocation(self@, binary@),
    {
        let mut args = copy_all(self.kcov_args.as_slice());
        if self.verify {
            args.push("--verify".to_owned());
        }
        args.push(exclusions(&self.exclude_pattern));
        args.push(join("target/kcov-", binary));
        args.push(join("target/debug/", binary));
        let mut env: Vec<(String, String)> = Vec::new();
        env.push(("LD_LIBRARY_PATH".to_owned(), search_path(&self.around.library_path)));
        let out = Invocation {
            program: kcov_path(self.around.current_dir.as_str()),
            args,
            env,
            dir: None,
            stdout: Stdout::Inherit,
        };
        proof {
            assert(out@.args =~= record_invocation(self@, binary@).args);
            assert(out@.env =~= record_invocation(self@, binary@).env);
        }
        out
    }

    /// The command that merges the reports on `binaries`.
    pub fn merge(&self, binaries: &[String]) -> (out: Invocation)
        ensures
            out@ == merge_invocation(self@, texts(binaries@)),
    {
        let mut args: Vec<String> = Vec::new();
        args.push("--merge".to_owned());
        let mut given = copy_all(self.merge_args.as_slice());
        args.append(&mut given);
        args.push(self.merge_dir.clone());
        let ghost head = texts(args@);
        let n: usize = binaries.len();
        let mut k: usize = 0;
        while k < n
            invariant
                n == binaries@.len(),
                k <= n,
                texts(args@) == head + report_dirs(texts(binaries@)).take(k as int),
            decreases n - k,
        {
            let ghost so_far = texts(args@);
            args.push(join("target/kcov-", binaries[k].as_str()));
            proof {
                assert(texts(args@) =~= so_far.push(report_dir(binaries@[k as int]@)));
                assert(report_dirs(texts(binaries@)).take(k + 1) =~= report_dirs(
                    texts(binaries@),
                ).take(k as int).push(report_dir(binaries@[k as int]@)));
            }
            k += 1;
        }
        let out = Invocation {
            program: kcov_path(self.around.current_dir.as_str()),
            args,
            env: Vec::new(),
            dir: None,
            stdout: match &self.secret {
                Some(secret) => Stdout::Redact(secret.clone()),
                None => Stdout::Inherit,
            },
        };
        proof {
            assert(report_dirs(texts(binaries@)).take(n as int) =~= report_dirs(texts(binaries@)));
            assert(head =~= seq!["--merge"@] + self@.merge_args + seq![self@.merge_dir]);
            assert(out@.args =~= merge_invocation(self@, texts(binaries@)).args);
            assert(out@.env =~= merge_invocation(self@, texts(binaries@)).env);
        }
        out
    }
}

impl View for Pipeline {
    type V = PipelineView;

    closed spec fn view(&self) -> PipelineView {
        PipelineView {
            settings: self.settings@,
            stage: self.stage,
            binaries: texts(self.binaries@),
        }
    }
}

impl Pipeline {
    /// The indices that the stage holds are in range, at all times.
    #[verifier::type_invariant]
    spec fn in_range(self) -> bool {
        self@.wf()
    }

    /// Where the run stands.
    pub fn stage(&self) -> (stage: Stage)
        ensures
            stage == self@.stage,
    {
        self.stage
    }

    /// The test binaries found so far.
    pub fn binaries(&self) -> (names: Vec<String>)
        ensures
            texts(names@) == self@.binaries,
    {
        copy_all(self.binaries.as_slice())
    }

    /// Whether a command is running.
    pub fn is_active(&self) -> (b: bool)
        ensures
            b == self@.active(),
    {
        match self.stage {
            Stage::Bootstrapping(_) | Stage::Cleaning | Stage::Building | Stage::Recording(_)
            | Stage::Merging => true,
            _ => false,
        }
    }

    /// How the output of the running command is treated.
    fn mode(&self) -> (mode: Stdout)
        requires
            self@.active(),
        ensures
            mode@ == self@.running().stdout,
    {
        proof {
            use_type_invariant(self);
        }
        match self.stage {
            Stage::Building => Stdout::Capture,
            Stage::Merging => match &self.settings.secret {
                Some(secret) => Stdout::Redact(secret.clone()),
                None => Stdout::Inherit,
            },
            Stage::Bootstrapping(k) => {
                proof {
                    lemma_bootstrap_len(self@.settings.use_sudo, self@.settings.verify);
                }
                Stdout::Inherit
            },
            _ => Stdout::Inherit,
        }
    }

    /// What the caller is to do in the stage the run is in.
    fn current(&self) -> (action: Action)
        requires
            self@.stage != Stage::Idle,
        ensures
            action@ == self@.action(),
    {
        proof {
            use_type_invariant(self);
        }
        match self.stage {
            Stage::Bootstrapping(k) => {
                let steps = build_kcov(self.settings.use_sudo, self.settings.verify);
                Action::Run(steps[k].copy())
            },
            Stage::Cleaning => Action::Run(self.settings.clean()),
            Stage::Building => Action::Run(self.settings.build()),
            Stage::Recording(i) => Action::Run(self.settings.record(self.binaries[i].as_str())),
            Stage::Merging => Action::Run(self.settings.merge(self.binaries.as_slice())),
            Stage::Done => Action::Exit(0),
            Stage::Failed(code) => Action::Exit(code),
            Stage::Faulted(error) => Action::Fault(error),
            Stage::Idle => Action::Exit(0),
        }
    }

    /// Begins the run: the first step of building the instrumenter is to be
    /// run.
    pub fn start(&mut self) -> (action: Action)
        requires
            old(self)@.stage == Stage::Idle,
        ensures
            final(self)@ == old(self)@.begun(),
            final(self)@.wf(),
            action@ == final(self)@.action(),
            action@ == ActionView::Run(old(self)@.bootstrap()[0]),
    {
        proof {
            lemma_bootstrap_len(self@.settings.use_sudo, self@.settings.verify);
        }
        self.stage = Stage::Bootstrapping(0);
        self.current()
    }

    /// Takes in what was read from the output of the test build: the
    /// binaries are kept and the first of them is to be recorded; where
    /// there is none the merge is to be run at once; where the output could
    /// not be read the caller is told so.
    pub fn scanned(&mut self, found: Result<Vec<String>, ScanError>) -> (action: Action)
        requires
            old(self)@.stage == Stage::Building,
        ensures
            final(self)@ == old(self)@.scanned(names_view(found)),
            final(self)@.wf(),
            action@ == final(self)@.action(),
    {
        match found {
            Ok(names) => {
                let first = if names.len() > 0 {
                    Stage::Recording(0)
                } else {
                    Stage::Merging
                };
                self.binaries = names;
                self.stage = first;
            },
            Err(error) => {
                self.stage = Stage::Faulted(error);
            },
        }
        self.current()
    }

    /// Takes in how the running command ended, with exit code `code` and
    /// having written `stdout`, and says what to print and what to do next.
    pub fn step(&mut self, code: i32, stdout: &str) -> (step: Step)
        requires
            old(self)@.active(),
        ensures
            final(self)@ == old(self)@.advance(code, stdout@),
            final(self)@.wf(),
            step.action@ == final(self)@.action(),
            step.console@ == console_of(
                old(self)@.running().stdout,
                code,
                stdout.spec_bytes(),
            ),
    {
        proof {
            use_type_invariant(&*self);
        }
        let mode = self.mode();
        let report = settle(&mode, code, stdout);
        let action = match report.outcome {
            Outcome::Abort(failed) => {
                self.stage = Stage::Failed(failed);
                Action::Exit(failed)
            },
            Outcome::Proceed => {
                match self.stage {
                    Stage::Bootstrapping(k) => {
                        let steps: usize = if self.settings.use_sudo {
                            6
                        } else {
                            5
                        };
                        proof {
                            lemma_bootstrap_len(self@.settings.use_sudo, self@.settings.verify);
                        }
                        if k + 1 < steps {
                            self.stage = Stage::Bootstrapping(k + 1);
                        } else if self.settings.link_dead_code {
                            self.stage = Stage::Cleaning;
                        } else {
                            self.stage = Stage::Building;
                        }
                        self.current()
                    },
                    Stage::Cleaning => {
                        self.stage = Stage::Building;
                        self.current()
                    },
                    Stage::Building => self.scanned(test_binaries(stdout)),
                    Stage::Recording(i) => {
                        let found: usize = self.binaries.len();
                        if i + 1 < found {
                            self.stage = Stage::Recording(i + 1);
                        } else {
                            self.stage = Stage::Merging;
                        }
                        self.current()
                    },
                    _ => {
                        self.stage = Stage::Done;
                        Action::Exit(0)
                    },
                }
            },
        };
        Step { console: report.console, action }
    }
}

/// A run with the given settings, not begun.
pub fn raw_coverage(settings: Settings) -> (run: Pipeline)
    ensures
        run@ == fresh(settings@),
        run@.wf(),
{
    let run = Pipeline { settings, stage: Stage::Idle, binaries: Vec::new() };
    proof {
        assert(texts(run.binaries@) =~= Seq::empty());
    }
    run
}

/// A run that records the coverage of the tests and keeps the merged report.
/// The feature of a nightly toolchain is worked into the arguments of the
/// test build as [`add_features`] does it.
pub fn coverage(
    version: &str,
    options: Options,
    nightly_feature: Option<&str>,
    around: Surroundings,
) -> (run: Pipeline)
    requires
        augments(version@, feature_in_force(nightly_feature)) ==> !dangling(texts(options.args@)),
    ensures
        run@ == fresh(
            coverage_settings(version@, options, feature_in_force(nightly_feature), around),
        ),
        run@.wf(),
{
    let mut cargo_args = copy_all(options.args.as_slice());
    add_features(&mut cargo_args, version, nightly_feature);
    let merge_dir: String = match &options.merge_into {
        Some(dir) => dir.clone(),
        None => "target/kcov".to_owned(),
    };
    let settings = Settings {
        use_sudo: !options.no_sudo,
        verify: options.verify,
        link_dead_code: !options.no_link_dead_code,
        test_args: cargo_args,
        secret: None,
        merge_args: Vec::new(),
        merge_dir,
        exclude_pattern: copy_text(&options.exclude_pattern),
        kcov_args: copy_all(options.kcov_args.as_slice()),
        around,
    };
    proof {
        assert(settings@.merge_args =~= Seq::empty());
    }
    raw_coverage(settings)
}

/// A run that records the coverage of the tests and uploads the merged
/// report under the identifier of the job. Without an identifier there is no
/// run, and nothing has been run.
pub fn coveralls(
    version: &str,
    options: Options,
    nightly_feature: Option<&str>,
    around: Surroundings,
    job_id: Option<&str>,
) -> (run: Result<Pipeline, SetupError>)
    requires
        job_id is Some && augments(version@, feature_in_force(nightly_feature)) ==> !dangling(
            texts(options.args@),
        ),
    ensures
        job_id is None ==> run == Err::<Pipeline, SetupError>(SetupError::MissingJobId),
        job_id matches Some(id) ==> run matches Ok(begun) && begun@.wf() && begun@ == fresh(
            coveralls_settings(version@, options, feature_in_force(nightly_feature), around, id@),
        ),
{
    let id: &str = match job_id {
        Some(id) => id,
        None => {
            return Err(SetupError::MissingJobId);
        },
    };
    let mut cargo_args = copy_all(options.args.as_slice());
    add_features(&mut cargo_args, version, nightly_feature);
    let merge_dir: String = match &options.merge_into {
        Some(dir) => dir.clone(),
        None => "target/kcov".to_owned(),
    };
    let mut merge_args: Vec<String> = Vec::new();
    merge_args.push(join("--coveralls-id=", id));
    let settings = Settings {
        use_sudo: !options.no_sudo,
        verify: options.verify,
        link_dead_code: !options.no_link_dead_code,
        test_args: cargo_args,
        secret: Some(id.to_owned()),
        merge_args,
        merge_dir,
        exclude_pattern: copy_text(&options.exclude_pattern),
        kcov_args: copy_all(options.kcov_args.as_slice()),
        around,
    };
    proof {
        assert(settings@.merge_args =~= seq!["--coveralls-id="@ + id@]);
    }
    Ok(raw_coverage(settings))
}

} // verus!
