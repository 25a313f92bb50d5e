//! The rebuild runner: check staleness, compile, run the fresh artifact.
//!
//! The runner is a state machine that performs no I/O itself. A state of
//! [`Rebuild`] tells the driver what has to happen next; the driver does it
//! and reports the result through the transition of that state:
//!
//! * `Idle`: read the modification times of the artifact and of the sources,
//!   then call [`Idle::on_mod_times`].
//! * `Rebuilding`: run the compiler with the arguments of the invocation and
//!   wait for it, then call [`Rebuilding::on_compiled`].
//! * `Respawning`: run the program with the arguments and wait for it, then
//!   call [`Respawning::on_exit`].
//! * `ReturnToCaller`: hand control back; nothing was done.
//! * `TerminatedFailure`, `TerminatedSuccess`: end the process with
//!   [`Rebuild::exit_code`].
//!
//! A compiler or a child that cannot be started, or cannot be waited for, is
//! a fault of the environment and no event of the runner: the driver aborts.
//!
//! The first element of a process's argument sequence is taken to be the
//! path of the running artifact. Nothing enforces this: it is a convention of
//! the environment that the caller vouches for.

use crate::edition::RustEdition;
use crate::invocation::{flags_tokens, CompilerInvocation, CompilerInvocationView};
use crate::logging::LogLevel;
use crate::staleness::{is_stale, needs_rebuild};
use vstd::prelude::*;
use vstd::string::StringExecFns;

verus! {

/// The artifact path is known, its staleness is not.
#[derive(Debug, PartialEq, Eq)]
pub struct Idle {
    /// The path of the running artifact.
    pub artifact: String,
    /// The edition to compile for.
    pub edition: RustEdition,
    /// The sources; the first one is the primary source.
    pub sources: Vec<String>,
    /// Extra compiler flags, each with its value where it has one.
    pub flags: Vec<(String, Option<String>)>,
}

/// The artifact is stale and the compiler has to run.
#[derive(Debug, PartialEq, Eq)]
pub struct Rebuilding {
    /// The compiler run that brings the artifact up to date.
    pub invocation: CompilerInvocation,
}

/// The artifact was rebuilt and has to run in place of this process.
#[derive(Debug, PartialEq, Eq)]
pub struct Respawning {
    /// The rebuilt artifact.
    pub program: String,
    /// The arguments of the child process.
    pub args: Vec<String>,
}

/// The states of the rebuild runner.
#[derive(Debug, PartialEq, Eq)]
pub enum Rebuild {
    Idle(Idle),
    Rebuilding(Rebuilding),
    Respawning(Respawning),
    /// Nothing to do: the caller goes on. The only end that is not the end
    /// of the process.
    ReturnToCaller,
    /// The compiler reported a failure.
    TerminatedFailure,
    /// The rebuilt artifact ran to completion.
    TerminatedSuccess,
}

/// [`Idle`] as plain values.
pub struct IdleView {
    pub artifact: Seq<char>,
    pub edition: RustEdition,
    pub sources: Seq<Seq<char>>,
    pub flags: Seq<(Seq<char>, Option<Seq<char>>)>,
}

/// [`Rebuilding`] as plain values.
pub struct RebuildingView {
    pub invocation: CompilerInvocationView,
}

/// [`Respawning`] as plain values.
pub struct RespawningView {
    pub program: Seq<char>,
    pub args: Seq<Seq<char>>,
}

/// [`Rebuild`] as plain values. The transitions of the runner are defined
/// on these.
pub enum RebuildView {
    Idle(IdleView),
    Rebuilding(RebuildingView),
    Respawning(RespawningView),
    ReturnToCaller,
    TerminatedFailure,
    TerminatedSuccess,
}

impl View for Idle {
    type V = IdleView;

    open spec fn view(&self) -> IdleView {
        IdleView {
            artifact: self.artifact@,
            edition: self.edition,
            sources: self.sources.deep_view(),
            flags: self.flags.deep_view(),
        }
    }
}

impl View for Rebuilding {
    type V = RebuildingView;

    open spec fn view(&self) -> RebuildingView {
        RebuildingView { invocation: self.invocation@ }
    }
}

impl View for Respawning {
    type V = RespawningView;

    open spec fn view(&self) -> RespawningView {
        RespawningView { program: self.program@, args: self.args.deep_view() }
    }
}

impl View for Rebuild {
    type V = RebuildView;

    open spec fn view(&self) -> RebuildView {
        match self {
            Rebuild::Idle(idle) => RebuildView::Idle(idle@),
            Rebuild::Rebuilding(rebuilding) => RebuildView::Rebuilding(rebuilding@),
            Rebuild::Respawning(respawning) => RebuildView::Respawning(respawning@),
            Rebuild::ReturnToCaller => RebuildView::ReturnToCaller,
            Rebuild::TerminatedFailure => RebuildView::TerminatedFailure,
            Rebuild::TerminatedSuccess => RebuildView::TerminatedSuccess,
        }
    }
}

/// The flags of a rebuild that names none: maximum optimization, no value.
pub open spec fn default_flags() -> Seq<(Seq<char>, Option<Seq<char>>)> {
    seq![("-O"@, None)]
}

/// The state in which a run begins. `self_path` is the first element of the
/// argument sequence; a process without one cannot know its own artifact and
/// has nothing to do.
pub open spec fn start(
    self_path: Option<Seq<char>>,
    edition: RustEdition,
    sources: Seq<Seq<char>>,
    flags: Seq<(Seq<char>, Option<Seq<char>>)>,
) -> RebuildView {
    match self_path {
        Some(artifact) => RebuildView::Idle(IdleView { artifact, edition, sources, flags }),
        None => RebuildView::ReturnToCaller,
    }
}

impl IdleView {
    /// The compiler run that rebuilds the artifact: the caller's flags, the
    /// artifact as output and the primary source as the only input.
    pub open spec fn invocation(self) -> CompilerInvocationView
        recommends
            self.sources.len() > 0,
    {
        CompilerInvocationView {
            flags: self.flags,
            edition: self.edition,
            output: self.artifact,
            input: self.sources[0],
        }
    }

    /// A fresh artifact is left alone; anything else is rebuilt.
    pub open spec fn on_mod_times(
        self,
        artifact_time: Option<i128>,
        source_times: Seq<Option<i128>>,
    ) -> RebuildView {
        if is_stale(artifact_time, source_times) {
            RebuildView::Rebuilding(RebuildingView { invocation: self.invocation() })
        } else {
            RebuildView::ReturnToCaller
        }
    }
}

impl RebuildingView {
    /// After a failed compiler run nothing is started; after a successful
    /// one the rebuilt artifact runs with the remaining arguments, unchanged
    /// and in order.
    pub open spec fn on_compiled(self, success: bool, remaining: Seq<Seq<char>>) -> RebuildView {
        if success {
            RebuildView::Respawning(RespawningView { program: self.invocation.output, args: remaining })
        } else {
            RebuildView::TerminatedFailure
        }
    }
}

impl RespawningView {
    /// Once the child has run to completion the run has succeeded, whatever
    /// the child's own exit code was.
    pub open spec fn on_exit(self, code: Option<i32>) -> RebuildView {
        RebuildView::TerminatedSuccess
    }
}

impl RebuildView {
    /// The driver has to start a process in this state.
    pub open spec fn invokes_process(self) -> bool {
        self is Rebuilding || self is Respawning
    }

    /// No transition leaves this state.
    pub open spec fn is_final(self) -> bool {
        self is ReturnToCaller || self is TerminatedFailure || self is TerminatedSuccess
    }

    /// The code with which the process ends in this state.
    pub open spec fn exit_code(self) -> Option<i32> {
        match self {
            RebuildView::TerminatedFailure => Some(1i32),
            RebuildView::TerminatedSuccess => Some(0i32),
            _ => None,
        }
    }

    /// The log line that entering this state calls for.
    pub open spec fn notice(self) -> Option<(LogLevel, Seq<char>)> {
        match self {
            RebuildView::TerminatedFailure => Some((LogLevel::ERROR, "Build failed"@)),
            RebuildView::Respawning(_) => Some((LogLevel::INFO, "Build successful"@)),
            _ => None,
        }
    }
}

/// Begins a run with the newest edition and maximum optimization.
///
/// `self_path` is the first element of the process's argument sequence, which
/// must be the path of the running artifact. The first source is the primary
/// source.
pub fn rebuild(self_path: Option<String>, sources: Vec<String>) -> (next: Rebuild)
    ensures
        next@ == start(
            self_path.deep_view(),
            RustEdition::newest(),
            sources.deep_view(),
            default_flags(),
        ),
        self_path is None ==> next@ == RebuildView::ReturnToCaller,
{
    rebuild_edition(self_path, RustEdition::R2024, sources)
}

/// Begins a run with the given edition and maximum optimization.
///
/// `self_path` is the first element of the process's argument sequence, which
/// must be the path of the running artifact. The first source is the primary
/// source.
pub fn rebuild_edition(
    self_path: Option<String>,
    edition: RustEdition,
    sources: Vec<String>,
) -> (next: Rebuild)
    ensures
        next@ == start(self_path.deep_view(), edition, sources.deep_view(), default_flags()),
        self_path is None ==> next@ == RebuildView::ReturnToCaller,
{
    let mut flags: Vec<(String, Option<String>)> = Vec::new();
    flags.push((String::from_str("-O"), None));
    assert(flags.deep_view() =~= default_flags());
    rebuild_edition_args(self_path, edition, sources, flags)
}

/// Begins a run with the given edition and no flags but the given ones.
///
/// `self_path` is the first element of the process's argument sequence, which
/// must be the path of the running artifact. The first source is the primary
/// source.
pub fn rebuild_edition_args(
    self_path: Option<String>,
    edition: RustEdition,
    sources: Vec<String>,
    rustc_args: Vec<(String, Option<String>)>,
) -> (next: Rebuild)
    ensures
        next@ == start(self_path.deep_view(), edition, sources.deep_view(), rustc_args.deep_view()),
        self_path is None ==> next@ == RebuildView::ReturnToCaller,
{
    match self_path {
        Some(artifact) => Rebuild::Idle(Idle { artifact, edition, sources, flags: rustc_args }),
        None => Rebuild::ReturnToCaller,
    }
}

impl Idle {
    /// Takes the modification time of the artifact and those of the sources,
    /// in the order of the sources, and decides whether the compiler runs.
    ///
    /// A rebuild needs a primary source.
    pub fn on_mod_times(
        self,
        artifact_time: Option<i128>,
        source_times: &[Option<i128>],
    ) -> (next: Rebuild)
        requires
            is_stale(artifact_time, source_times@) ==> self@.sources.len() > 0,
        ensures
            next@ == self@.on_mod_times(artifact_time, source_times@),
    {
        if !needs_rebuild(artifact_time, source_times) {
            return Rebuild::ReturnToCaller;
        }
        let input = self.sources[0].clone();
        Rebuild::Rebuilding(
            Rebuilding {
                invocation: CompilerInvocation {
                    flags: self.flags,
                    edition: self.edition,
                    output: self.artifact,
                    input,
                },
            },
        )
    }
}

impl Rebuilding {
    /// Takes the compiler's verdict and the arguments that follow the
    /// artifact path in the process's argument sequence.
    pub fn on_compiled(self, success: bool, remaining: Vec<String>) -> (next: Rebuild)
        ensures
            next@ == self@.on_compiled(success, remaining.deep_view()),
            !success ==> next@ == RebuildView::TerminatedFailure,
    {
        if success {
            Rebuild::Respawning(Respawning { program: self.invocation.output, args: remaining })
        } else {
            Rebuild::TerminatedFailure
        }
    }
}

impl Respawning {
    /// Takes the exit code of the child, if it had one.
    pub fn on_exit(self, code: Option<i32>) -> (next: Rebuild)
        ensures
            next@ == self@.on_exit(code),
            next@ == RebuildView::TerminatedSuccess,
    {
        Rebuild::TerminatedSuccess
    }
}

impl Rebuild {
    /// The code with which the process ends; `None` where it does not end.
    pub fn exit_code(&self) -> (code: Option<i32>)
        ensures
            code == self@.exit_code(),
    {
        match self {
            Rebuild::TerminatedFailure => Some(1),
            Rebuild::TerminatedSuccess => Some(0),
            _ => None,
        }
    }

    /// The log line that the driver writes on entering the state.
    pub fn notice(&self) -> (notice: Option<(LogLevel, &'static str)>)
        ensures
            match notice {
                Some((level, text)) => self@.notice() == Some((level, text@)),
                None => self@.notice() is None,
            },
    {
        match self {
            Rebuild::TerminatedFailure => Some((LogLevel::ERROR, "Build failed")),
            Rebuild::Respawning(_) => Some((LogLevel::INFO, "Build successful")),
            _ => None,
        }
    }
}

/// A process without arguments does not know its artifact: the run ends at
/// once, hands control back and starts no process.
pub proof fn no_arguments_no_process(
    edition: RustEdition,
    sources: Seq<Seq<char>>,
    flags: Seq<(Seq<char>, Option<Seq<char>>)>,
)
    ensures
        start(None, edition, sources, flags) == RebuildView::ReturnToCaller,
        !start(None, edition, sources, flags).invokes_process(),
        start(None, edition, sources, flags).exit_code() is None,
{
}

/// A stale artifact is compiled from the primary source alone. The argument
/// list consists of the caller's flags, the edition, the consumed first
/// argument as output and the first source as input, and of nothing else: no
/// other source reaches the compiler.
pub proof fn stale_artifact_compiles_primary_only(
    self_path: Seq<char>,
    edition: RustEdition,
    sources: Seq<Seq<char>>,
    flags: Seq<(Seq<char>, Option<Seq<char>>)>,
    artifact_time: Option<i128>,
    source_times: Seq<Option<i128>>,
)
    requires
        is_stale(artifact_time, source_times),
        sources.len() > 0,
    ensures
        start(Some(self_path), edition, sources, flags) matches RebuildView::Idle(idle)
            && idle.on_mod_times(artifact_time, source_times) matches RebuildView::Rebuilding(
            rebuilding,
        ) && {
            let args = rebuilding.invocation.args();
            &&& rebuilding.invocation.output == self_path
            &&& rebuilding.invocation.input == sources[0]
            &&& args == flags_tokens(flags) + seq![
                "--edition"@,
                edition.token(),
                "-o"@,
                self_path,
                sources[0],
            ]
            &&& args.len() == flags_tokens(flags).len() + 5
            &&& args[args.len() - 2] == self_path
            &&& args.last() == sources[0]
        },
{
}

/// A failed compiler run ends the process with exit code 1, whatever the
/// remaining arguments are; no child is started.
pub proof fn failed_compile_terminates(rebuilding: RebuildingView, remaining: Seq<Seq<char>>)
    ensures
        rebuilding.on_compiled(false, remaining) == RebuildView::TerminatedFailure,
        rebuilding.on_compiled(false, remaining).exit_code() == Some(1i32),
        !rebuilding.on_compiled(false, remaining).invokes_process(),
        rebuilding.on_compiled(false, remaining).is_final(),
{
}

/// Every end but the return to the caller is the end of the process, with
/// code 0 or 1, and no end asks for a process.
pub proof fn ends_of_a_run(state: RebuildView)
    ensures
        state.is_final() ==> !state.invokes_process(),
        state.exit_code() is Some <==> state.is_final() && !(state is ReturnToCaller),
        state.exit_code() matches Some(code) ==> code == 0 || code == 1,
{
}

/// After a successful compiler run the rebuilt artifact is what was compiled
/// to, it receives the remaining arguments as they are, and the run ends
/// with exit code 0 whatever the child returns.
pub proof fn successful_compile_respawns(
    rebuilding: RebuildingView,
    remaining: Seq<Seq<char>>,
    code: Option<i32>,
)
    ensures
        rebuilding.on_compiled(true, remaining) matches RebuildView::Respawning(respawning)
            && respawning.program == rebuilding.invocation.output
            && respawning.args == remaining
            && respawning.on_exit(code).exit_code() == Some(0i32),
{
}

} // verus!
