//! The bootstrap-and-invoke sequence of a package installation, as an
//! explicit state machine.
//!
//! The machine decides; the caller acts.  Each [`Action`] returned by
//! [`InstallFlow::start`] or [`InstallFlow::step`] names one piece of outside
//! work (an existence check, a directory creation, a manifest write, the
//! package-manager subprocess); the caller performs it and feeds the outcome
//! back as an [`Event`].  Infrastructure failures end the run with an error;
//! a package manager that launched but exited unsuccessfully ends the run
//! with an ordinary result whose `success` flag is false.

use vstd::prelude::*;
use vstd::string::*;
use crate::workspace::bootstrap_manifest;
use crate::workspace::bootstrap_manifest_text;

verus! {

/// What the package-manager subprocess produced after it launched and
/// exited: whether its exit status was a success, and its captured standard
/// error text.
pub struct ToolOutput {
    pub success: bool,
    pub stderr: String,
}

/// The outcome reported to the caller when the subprocess ran to completion:
/// a success flag and a human-readable message.
#[derive(Debug)]
pub struct InstallResult {
    pub success: bool,
    pub message: String,
}

/// An infrastructure failure that aborts the installation; each variant
/// carries the failing step's own error text.
#[derive(Debug)]
pub enum InstallError {
    /// The host environment could not supply the base directory.
    Configuration(String),
    /// The workspace directory could not be created.
    CreateDir(String),
    /// The bootstrap manifest could not be written.
    WriteManifest(String),
    /// The package-manager subprocess could not be launched.
    Launch(String),
}

impl InstallError {
    /// The message for this error: the failing step's fixed prefix, then the
    /// step's own error text.
    pub open spec fn message_text(&self) -> Seq<char> {
        match self {
            InstallError::Configuration(d) => "Failed to get app data directory: "@ + d@,
            InstallError::CreateDir(d) => "Failed to create directory: "@ + d@,
            InstallError::WriteManifest(d) => "Failed to create package.json: "@ + d@,
            InstallError::Launch(d) => "Failed to execute npm install: "@ + d@,
        }
    }

    /// Renders the error as its descriptive message.
    pub fn message(&self) -> (r: String)
        ensures
            r@ == self.message_text(),
    {
        match self {
            InstallError::Configuration(d) => {
                "Failed to get app data directory: ".to_owned().concat(d.as_str())
            },
            InstallError::CreateDir(d) => {
                "Failed to create directory: ".to_owned().concat(d.as_str())
            },
            InstallError::WriteManifest(d) => {
                "Failed to create package.json: ".to_owned().concat(d.as_str())
            },
            InstallError::Launch(d) => {
                "Failed to execute npm install: ".to_owned().concat(d.as_str())
            },
        }
    }
}

/// The message reported when the package manager installed `package`.
pub open spec fn success_message_text(package: Seq<char>) -> Seq<char> {
    "Successfully installed "@ + package
}

/// The message reported when the package manager exited unsuccessfully for
/// `package` with standard error text `stderr`.
pub open spec fn failure_message_text(package: Seq<char>, stderr: Seq<char>) -> Seq<char> {
    "Failed to install "@ + package + ": "@ + stderr
}

/// Classifies what the subprocess produced: a successful exit yields a
/// success result, an unsuccessful exit yields a failure result carrying the
/// captured standard error text.  Neither is an error of the operation.
pub fn classify_outcome(package: &str, output: &ToolOutput) -> (r: InstallResult)
    ensures
        r.success == output.success,
        output.success ==> r.message@ == success_message_text(package@),
        !output.success ==> r.message@ == failure_message_text(package@, output.stderr@),
{
    if output.success {
        InstallResult {
            success: true,
            message: "Successfully installed ".to_owned().concat(package),
        }
    } else {
        InstallResult {
            success: false,
            message: "Failed to install ".to_owned().concat(package).concat(": ").concat(
                output.stderr.as_str(),
            ),
        }
    }
}

/// Where the installation sequence stands: which piece of outside work the
/// machine is waiting on.
#[derive(Clone, Copy, PartialEq, Eq, Structural)]
pub enum Phase {
    /// Waiting to hear whether the workspace directory exists.
    CheckingWorkspace,
    /// Waiting for the workspace directory to be created.
    CreatingWorkspace,
    /// Waiting to hear whether the manifest file exists.
    CheckingManifest,
    /// Waiting for the bootstrap manifest to be written.
    WritingManifest,
    /// Waiting for the package-manager subprocess to finish.
    AwaitingInstaller,
    /// The run is over; no further event is expected.
    Done,
}

/// The outcome of one piece of outside work, fed back into the machine.
pub enum Event {
    /// Answer to an existence check.
    Exists(bool),
    /// Outcome of creating the workspace directory; the error carries the
    /// failure's own text.
    Created(Result<(), String>),
    /// Outcome of writing the bootstrap manifest.
    Wrote(Result<(), String>),
    /// Outcome of the subprocess: what it produced once it exited, or the
    /// launch failure's own text if it never launched.
    Ran(Result<ToolOutput, String>),
}

/// One piece of outside work the caller must perform next, or the finished
/// outcome of the run.
pub enum Action {
    /// Check whether the workspace directory exists.
    CheckWorkspace,
    /// Create the workspace directory, parents included.
    CreateWorkspace,
    /// Check whether the manifest file exists.
    CheckManifest,
    /// Write this document to the manifest path.
    WriteManifest(String),
    /// Run the package manager's install command for this package, with the
    /// workspace as working directory.
    RunInstaller(String),
    /// The run is over with this outcome.
    Finish(Result<InstallResult, InstallError>),
}

/// The shape of an [`Action`], with its payload forgotten.
#[derive(Clone, Copy, PartialEq, Eq, Structural)]
pub enum ActionKind {
    CheckWorkspace,
    CreateWorkspace,
    CheckManifest,
    WriteManifest,
    RunInstaller,
    Finish,
}

/// The shape of `a`.
pub open spec fn kind_of(a: Action) -> ActionKind {
    match a {
        Action::CheckWorkspace => ActionKind::CheckWorkspace,
        Action::CreateWorkspace => ActionKind::CreateWorkspace,
        Action::CheckManifest => ActionKind::CheckManifest,
        Action::WriteManifest(_) => ActionKind::WriteManifest,
        Action::RunInstaller(_) => ActionKind::RunInstaller,
        Action::Finish(_) => ActionKind::Finish,
    }
}

/// Whether `e` is the kind of event the machine expects while in phase `p`:
/// the answer to the piece of outside work that the phase is waiting on.
pub open spec fn expected_event(p: Phase, e: Event) -> bool {
    match p {
        Phase::CheckingWorkspace => e is Exists,
        Phase::CreatingWorkspace => e is Created,
        Phase::CheckingManifest => e is Exists,
        Phase::WritingManifest => e is Wrote,
        Phase::AwaitingInstaller => e is Ran,
        Phase::Done => false,
    }
}

/// The phase the machine moves to when event `e` arrives in phase `p`.
/// An existing workspace skips the whole bootstrap; a failing piece of
/// infrastructure ends the run at once.
pub open spec fn phase_after(p: Phase, e: Event) -> Phase {
    match p {
        Phase::CheckingWorkspace => if (e matches Event::Exists(present) && present) {
            Phase::AwaitingInstaller
        } else {
            Phase::CreatingWorkspace
        },
        Phase::CreatingWorkspace => if (e matches Event::Created(r) && r is Err) {
            Phase::Done
        } else {
            Phase::CheckingManifest
        },
        Phase::CheckingManifest => if (e matches Event::Exists(present) && present) {
            Phase::AwaitingInstaller
        } else {
            Phase::WritingManifest
        },
        Phase::WritingManifest => if (e matches Event::Wrote(r) && r is Err) {
            Phase::Done
        } else {
            Phase::AwaitingInstaller
        },
        Phase::AwaitingInstaller => Phase::Done,
        Phase::Done => Phase::Done,
    }
}

/// The shape of the action the machine returns when event `e` arrives in
/// phase `p`.
pub open spec fn action_kind_after(p: Phase, e: Event) -> ActionKind {
    match p {
        Phase::CheckingWorkspace => if (e matches Event::Exists(present) && present) {
            ActionKind::RunInstaller
        } else {
            ActionKind::CreateWorkspace
        },
        Phase::CreatingWorkspace => if (e matches Event::Created(r) && r is Err) {
            ActionKind::Finish
        } else {
            ActionKind::CheckManifest
        },
        Phase::CheckingManifest => if (e matches Event::Exists(present) && present) {
            ActionKind::RunInstaller
        } else {
            ActionKind::WriteManifest
        },
        Phase::WritingManifest => if (e matches Event::Wrote(r) && r is Err) {
            ActionKind::Finish
        } else {
            ActionKind::RunInstaller
        },
        Phase::AwaitingInstaller => ActionKind::Finish,
        Phase::Done => ActionKind::Finish,
    }
}

/// Whether a finished outcome `r` is the one owed after event `e` arrived in
/// phase `p`, for the package named `package`: infrastructure failures carry
/// the failing step's error text under that step's variant, and a subprocess
/// that exited is classified as [`classify_outcome`] does.
pub open spec fn finish_matches(
    p: Phase,
    package: Seq<char>,
    e: Event,
    r: Result<InstallResult, InstallError>,
) -> bool {
    match p {
        Phase::CreatingWorkspace => {
            &&& e matches Event::Created(Err(d))
            &&& r matches Err(InstallError::CreateDir(d2)) && d2@ == d@
        },
        Phase::WritingManifest => {
            &&& e matches Event::Wrote(Err(d))
            &&& r matches Err(InstallError::WriteManifest(d2)) && d2@ == d@
        },
        Phase::AwaitingInstaller => match e {
            Event::Ran(Ok(out)) => {
                &&& r matches Ok(res)
                &&& res.success == out.success
                &&& out.success ==> res.message@ == success_message_text(package)
                &&& !out.success ==> res.message@ == failure_message_text(package, out.stderr@)
            },
            Event::Ran(Err(d)) => r matches Err(InstallError::Launch(d2)) && d2@ == d@,
            _ => false,
        },
        _ => false,
    }
}

/// The two-tier outcome taxonomy of a finished run: when the subprocess
/// launched and exited, the run finishes with an ordinary result, never an
/// error, whatever the exit status was, and the result's flag is the exit
/// status's success; when the subprocess failed to launch, the run finishes
/// with a propagated launch error, never a structured result.
pub proof fn lemma_exit_status_is_data_launch_failure_is_error(
    package: Seq<char>,
    e: Event,
    r: Result<InstallResult, InstallError>,
)
    requires
        finish_matches(Phase::AwaitingInstaller, package, e, r),
    ensures
        e matches Event::Ran(o) ==> (o is Ok <==> r is Ok),
        e matches Event::Ran(o) ==> (o matches Ok(out) ==> (r matches Ok(res) && res.success
            == out.success)),
        e matches Event::Ran(o) ==> (o is Err ==> (r matches Err(err) && err is Launch)),
{
}

/// The shapes of the actions a run returns for the events in `events`, in
/// order, starting from phase `p`: the shape of the action for the first
/// event, then those of the rest of the run from the phase it moved to.
pub open spec fn run_action_kinds(p: Phase, events: Seq<Event>) -> Seq<ActionKind>
    decreases events.len(),
{
    if events.len() == 0 {
        Seq::empty()
    } else {
        seq![action_kind_after(p, events[0])] + run_action_kinds(
            phase_after(p, events[0]),
            events.skip(1),
        )
    }
}

/// The shapes of every action of a whole run driven by `events`: the
/// workspace check that `start` returns, then the actions the events bring.
pub open spec fn install_run_kinds(events: Seq<Event>) -> Seq<ActionKind> {
    seq![ActionKind::CheckWorkspace] + run_action_kinds(Phase::CheckingWorkspace, events)
}

/// The events of a run against a base directory that has never held a
/// workspace, on which every piece of infrastructure succeeds: the
/// workspace is absent, its creation succeeds, the manifest is absent, its
/// write succeeds, and the subprocess ends with `outcome`.
pub open spec fn fresh_run_events(outcome: Result<ToolOutput, String>) -> Seq<Event> {
    seq![
        Event::Exists(false),
        Event::Created(Ok(())),
        Event::Exists(false),
        Event::Wrote(Ok(())),
        Event::Ran(outcome),
    ]
}

proof fn lemma_run_unfold(p: Phase, events: Seq<Event>)
    requires
        events.len() > 0,
    ensures
        run_action_kinds(p, events) == seq![action_kind_after(p, events[0])]
            + run_action_kinds(phase_after(p, events[0]), events.skip(1)),
{
}

/// On a base directory that has never held a workspace, an installation run
/// whose infrastructure succeeds bootstraps exactly once: it creates the
/// workspace once and writes the manifest once, both before the one
/// subprocess invocation, whatever the subprocess then does — the whole
/// run's actions are the workspace check, the creation, the manifest check,
/// the manifest write, the invocation, and the finish, each exactly once
/// and in that order.
pub proof fn lemma_fresh_run_bootstraps_once(outcome: Result<ToolOutput, String>)
    ensures
        install_run_kinds(fresh_run_events(outcome)) == seq![
            ActionKind::CheckWorkspace,
            ActionKind::CreateWorkspace,
            ActionKind::CheckManifest,
            ActionKind::WriteManifest,
            ActionKind::RunInstaller,
            ActionKind::Finish,
        ],
{
    let events = fresh_run_events(outcome);
    let e4 = seq![Event::Ran(outcome)];
    assert(run_action_kinds(Phase::AwaitingInstaller, e4) =~= seq![ActionKind::Finish]) by {
        lemma_run_unfold(Phase::AwaitingInstaller, e4);
        assert(e4.skip(1) =~= Seq::<Event>::empty());
    }
    let e3 = seq![Event::Wrote(Ok(())), Event::Ran(outcome)];
    assert(run_action_kinds(Phase::WritingManifest, e3) =~= seq![
        ActionKind::RunInstaller,
        ActionKind::Finish,
    ]) by {
        lemma_run_unfold(Phase::WritingManifest, e3);
        assert(e3.skip(1) =~= e4);
    }
    let e2 = seq![Event::Exists(false), Event::Wrote(Ok(())), Event::Ran(outcome)];
    assert(run_action_kinds(Phase::CheckingManifest, e2) =~= seq![
        ActionKind::WriteManifest,
        ActionKind::RunInstaller,
        ActionKind::Finish,
    ]) by {
        lemma_run_unfold(Phase::CheckingManifest, e2);
        assert(e2.skip(1) =~= e3);
    }
    let e1 = seq![
        Event::Created(Ok(())),
        Event::Exists(false),
        Event::Wrote(Ok(())),
        Event::Ran(outcome),
    ];
    assert(run_action_kinds(Phase::CreatingWorkspace, e1) =~= seq![
        ActionKind::CheckManifest,
        ActionKind::WriteManifest,
        ActionKind::RunInstaller,
        ActionKind::Finish,
    ]) by {
        lemma_run_unfold(Phase::CreatingWorkspace, e1);
        assert(e1.skip(1) =~= e2);
    }
    assert(run_action_kinds(Phase::CheckingWorkspace, events) =~= seq![
        ActionKind::CreateWorkspace,
        ActionKind::CheckManifest,
        ActionKind::WriteManifest,
        ActionKind::RunInstaller,
        ActionKind::Finish,
    ]) by {
        lemma_run_unfold(Phase::CheckingWorkspace, events);
        assert(events.skip(1) =~= e1);
    }
    assert(install_run_kinds(events) =~= seq![
        ActionKind::CheckWorkspace,
        ActionKind::CreateWorkspace,
        ActionKind::CheckManifest,
        ActionKind::WriteManifest,
        ActionKind::RunInstaller,
        ActionKind::Finish,
    ]);
}

/// The events of a run against an already initialized workspace: the
/// workspace is present, and the subprocess ends with `outcome`.
pub open spec fn repeat_run_events(outcome: Result<ToolOutput, String>) -> Seq<Event> {
    seq![Event::Exists(true), Event::Ran(outcome)]
}

/// Installing into an already initialized workspace touches nothing of the
/// bootstrap: the run's actions are the workspace check, the subprocess
/// invocation and the finish alone — in particular the run never rewrites
/// the manifest and never creates a directory, whatever the subprocess then
/// does.
pub proof fn lemma_repeat_run_writes_no_bootstrap(outcome: Result<ToolOutput, String>)
    ensures
        install_run_kinds(repeat_run_events(outcome)) == seq![
            ActionKind::CheckWorkspace,
            ActionKind::RunInstaller,
            ActionKind::Finish,
        ],
        !install_run_kinds(repeat_run_events(outcome)).contains(ActionKind::WriteManifest),
        !install_run_kinds(repeat_run_events(outcome)).contains(ActionKind::CreateWorkspace),
        !install_run_kinds(repeat_run_events(outcome)).contains(ActionKind::CheckManifest),
{
    let events = repeat_run_events(outcome);
    let e1 = seq![Event::Ran(outcome)];
    assert(run_action_kinds(Phase::AwaitingInstaller, e1) =~= seq![ActionKind::Finish]) by {
        lemma_run_unfold(Phase::AwaitingInstaller, e1);
        assert(e1.skip(1) =~= Seq::<Event>::empty());
    }
    assert(run_action_kinds(Phase::CheckingWorkspace, events) =~= seq![
        ActionKind::RunInstaller,
        ActionKind::Finish,
    ]) by {
        lemma_run_unfold(Phase::CheckingWorkspace, events);
        assert(events.skip(1) =~= e1);
    }
    let ks = install_run_kinds(events);
    assert(ks =~= seq![ActionKind::CheckWorkspace, ActionKind::RunInstaller, ActionKind::Finish]);
    assert forall|i: int| 0 <= i < ks.len() implies ks[i] != ActionKind::WriteManifest && ks[i]
        != ActionKind::CreateWorkspace && ks[i] != ActionKind::CheckManifest by {
        assert(i == 0 || i == 1 || i == 2);
    }
}

/// The installation sequence for one package: the package name and the phase
/// the run stands in.
pub struct InstallFlow {
    pub package: String,
    pub phase: Phase,
}

impl InstallFlow {
    /// Begins an installation run for `package`.  The first piece of outside
    /// work is always the workspace existence check.
    pub fn start(package: String) -> (r: (InstallFlow, Action))
        ensures
            r.0.package == package,
            r.0.phase == Phase::CheckingWorkspace,
            r.1 == Action::CheckWorkspace,
    {
        (InstallFlow { package, phase: Phase::CheckingWorkspace }, Action::CheckWorkspace)
    }

    /// Feeds the outcome of the last piece of outside work into the machine
    /// and returns the next piece, or the finished outcome of the run.
    ///
    /// A manifest write always writes the fixed bootstrap document; the
    /// installer is always run for the package the flow was started with.
    pub fn step(&mut self, event: Event) -> (a: Action)
        requires
            expected_event(old(self).phase, event),
        ensures
            final(self).package == old(self).package,
            final(self).phase == phase_after(old(self).phase, event),
            kind_of(a) == action_kind_after(old(self).phase, event),
            a matches Action::WriteManifest(doc) ==> doc@ == bootstrap_manifest_text(),
            a matches Action::RunInstaller(p) ==> p@ == old(self).package@,
            a matches Action::Finish(r) ==> finish_matches(
                old(self).phase,
                old(self).package@,
                event,
                r,
            ),
    {
        let phase = self.phase;
        match (phase, event) {
            (Phase::CheckingWorkspace, Event::Exists(true)) => {
                self.phase = Phase::AwaitingInstaller;
                Action::RunInstaller(self.package.clone())
            },
            (Phase::CheckingWorkspace, Event::Exists(false)) => {
                self.phase = Phase::CreatingWorkspace;
                Action::CreateWorkspace
            },
            (Phase::CreatingWorkspace, Event::Created(Ok(()))) => {
                self.phase = Phase::CheckingManifest;
                Action::CheckManifest
            },
            (Phase::CreatingWorkspace, Event::Created(Err(d))) => {
                self.phase = Phase::Done;
                Action::Finish(Err(InstallError::CreateDir(d)))
            },
            (Phase::CheckingManifest, Event::Exists(true)) => {
                self.phase = Phase::AwaitingInstaller;
                Action::RunInstaller(self.package.clone())
            },
            (Phase::CheckingManifest, Event::Exists(false)) => {
                self.phase = Phase::WritingManifest;
                Action::WriteManifest(bootstrap_manifest())
            },
            (Phase::WritingManifest, Event::Wrote(Ok(()))) => {
                self.phase = Phase::AwaitingInstaller;
                Action::RunInstaller(self.package.clone())
            },
            (Phase::WritingManifest, Event::Wrote(Err(d))) => {
                self.phase = Phase::Done;
                Action::Finish(Err(InstallError::WriteManifest(d)))
            },
            (Phase::AwaitingInstaller, Event::Ran(Ok(out))) => {
                self.phase = Phase::Done;
                Action::Finish(Ok(classify_outcome(self.package.as_str(), &out)))
            },
            (Phase::AwaitingInstaller, Event::Ran(Err(d))) => {
                self.phase = Phase::Done;
                Action::Finish(Err(InstallError::Launch(d)))
            },
            _ => unreached(),
        }
    }
}

} // verus!
