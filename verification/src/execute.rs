//! Embeddable command execution.
//!
//! A command line that can be represented faithfully as direct process invocations, each with a
//! filter of its own, is run that way. Every other one is run unchanged by the platform shell.

use crate::chain::{self, execute_direct_plan, ChainRun, ChainStep, ChainStepView, ChainView};
use crate::failure::{
    self, decode_process_output, map_embedded_error, map_process_error, BeforeStartError,
    EmbeddedError, ErrorView, ExecuteError,
};
use crate::plan::{self, parse_direct_plan, PlanView};
use crate::platform::{self, Platform};
use crate::process::{
    CancellationToken, IoFailure, ProcessControl, ProcessError, ProcessOutput,
};
use crate::route::{self, classify_commands, FilterRoute};
use crate::runner::{self, passthrough_record, CapturedRun, CapturedView, UsageRecord};
use std::path::PathBuf;
use vstd::prelude::*;
use vstd::slice::slice_subrange;

verus! {

/// The bytes that are kept of each output stream unless the options say otherwise.
pub const DEFAULT_OUTPUT_LIMIT: usize = 10 * 1024 * 1024;

/// `std::path::PathBuf`: the working directory of an execution, carried to the child.
#[verifier::external_type_specification]
#[verifier::external_body]
pub struct ExPathBuf(std::path::PathBuf);

/// `PathBuf::clone`: the same path.
pub assume_specification[ <std::path::PathBuf as Clone>::clone ](path: &std::path::PathBuf) -> (
    same: std::path::PathBuf)
    ensures
        same == *path,
;

/// A copy of an optional directory.
fn copy_directory(directory: &Option<PathBuf>) -> (copy: Option<PathBuf>)
    ensures
        copy == *directory,
{
    match directory {
        Some(path) => Some(path.clone()),
        None => None,
    }
}

/// Another handle of an optional signal.
fn copy_signal(signal: &Option<CancellationToken>) -> (copy: Option<CancellationToken>)
    ensures
        copy == *signal,
{
    match signal {
        Some(token) => Some(token.clone()),
        None => None,
    }
}

/// Options controlling an embedded command execution.
#[derive(Debug)]
pub struct ExecuteOptions {
    /// Directory in which the child command runs. The process's current directory is used when
    /// this is not set.
    pub cwd: Option<PathBuf>,
    /// Record the execution in the usage history. This defaults to false, so that embedding has
    /// no unexpected persistence side effects.
    pub tracking: bool,
    /// Maximum wall-clock duration of the complete execution, in nanoseconds.
    pub timeout: Option<u128>,
    /// Optional signal that allows another thread to cancel the execution.
    pub cancellation: Option<CancellationToken>,
    /// Maximum bytes retained independently for stdout and stderr. Additional bytes are drained
    /// and discarded, so that children cannot block on full pipes.
    pub output_limit: usize,
}

impl Default for ExecuteOptions {
    fn default() -> (options: Self)
        ensures
            options == (ExecuteOptions {
                cwd: None,
                tracking: false,
                timeout: None,
                cancellation: None,
                output_limit: DEFAULT_OUTPUT_LIMIT,
            }),
    {
        ExecuteOptions {
            cwd: None,
            tracking: false,
            timeout: None,
            cancellation: None,
            output_limit: DEFAULT_OUTPUT_LIMIT,
        }
    }
}

impl Clone for ExecuteOptions {
    /// The same options: a signal is shared with the copy.
    fn clone(&self) -> (same: Self)
        ensures
            same == *self,
    {
        ExecuteOptions {
            cwd: copy_directory(&self.cwd),
            tracking: self.tracking,
            timeout: self.timeout,
            cancellation: copy_signal(&self.cancellation),
            output_limit: self.output_limit,
        }
    }
}

impl ExecuteOptions {
    /// Runs the command in `cwd`.
    pub fn with_cwd(self, cwd: PathBuf) -> (options: Self)
        ensures
            options == (ExecuteOptions { cwd: Some(cwd), ..self }),
    {
        ExecuteOptions { cwd: Some(cwd), ..self }
    }

    /// Records the execution, or not.
    pub fn with_tracking(self, tracking: bool) -> (options: Self)
        ensures
            options == (ExecuteOptions { tracking, ..self }),
    {
        ExecuteOptions { tracking, ..self }
    }

    /// Stops the execution after `timeout` nanoseconds.
    pub fn with_timeout(self, timeout: u128) -> (options: Self)
        ensures
            options == (ExecuteOptions { timeout: Some(timeout), ..self }),
    {
        ExecuteOptions { timeout: Some(timeout), ..self }
    }

    /// Stops the execution once `cancellation` is raised.
    pub fn with_cancellation(self, cancellation: CancellationToken) -> (options: Self)
        ensures
            options == (ExecuteOptions { cancellation: Some(cancellation), ..self }),
    {
        ExecuteOptions { cancellation: Some(cancellation), ..self }
    }

    /// Keeps at most `output_limit` bytes of each output stream.
    pub fn with_output_limit(self, output_limit: usize) -> (options: Self)
        ensures
            options == (ExecuteOptions { output_limit, ..self }),
    {
        ExecuteOptions { output_limit, ..self }
    }
}

/// How a command was handled.
#[derive(Debug, Clone, Copy, PartialEq, Eq)]
pub enum ExecutionRoute {
    /// A filter executed the native command directly.
    Filtered { tool: &'static str },
    /// A supported native command was executed directly, but its raw output was kept, as when
    /// the command itself failed.
    DirectPassthrough { tool: &'static str },
    /// The original command was executed unchanged by the platform shell.
    ShellPassthrough,
}

/// The mathematical counterpart of [`ExecutionRoute`].
pub enum RouteView {
    Filtered { tool: Seq<char> },
    DirectPassthrough { tool: Seq<char> },
    ShellPassthrough,
}

impl View for ExecutionRoute {
    type V = RouteView;

    open spec fn view(&self) -> RouteView {
        match *self {
            ExecutionRoute::Filtered { tool } => RouteView::Filtered { tool: tool@ },
            ExecutionRoute::DirectPassthrough { tool } => RouteView::DirectPassthrough {
                tool: tool@,
            },
            ExecutionRoute::ShellPassthrough => RouteView::ShellPassthrough,
        }
    }
}

/// Captured output and status of an embedded command execution.
#[derive(Debug, Clone, PartialEq, Eq)]
pub struct ExecutionResult {
    pub stdout: String,
    pub stderr: String,
    pub exit_code: i32,
    pub route: ExecutionRoute,
    pub stdout_truncated: bool,
    pub stderr_truncated: bool,
}

/// The mathematical counterpart of [`ExecutionResult`].
#[verifier::ext_equal]
pub struct ResultView {
    pub stdout: Seq<char>,
    pub stderr: Seq<char>,
    pub exit_code: i32,
    pub route: RouteView,
    pub stdout_truncated: bool,
    pub stderr_truncated: bool,
}

impl View for ExecutionResult {
    type V = ResultView;

    open spec fn view(&self) -> ResultView {
        ResultView {
            stdout: self.stdout@,
            stderr: self.stderr@,
            exit_code: self.exit_code,
            route: self.route@,
            stdout_truncated: self.stdout_truncated,
            stderr_truncated: self.stderr_truncated,
        }
    }
}

impl ExecutionResult {
    /// Whether the command succeeded.
    pub fn success(&self) -> (success: bool)
        ensures
            success == (self@.exit_code == 0),
    {
        self.exit_code == 0
    }

    /// Whether the output went through a filter.
    pub fn filtered(&self) -> (filtered: bool)
        ensures
            filtered == (self@.route is Filtered),
    {
        match self.route {
            ExecutionRoute::Filtered { .. } => true,
            _ => false,
        }
    }
}

/// What came of an execution.
pub open spec fn outcome_view(outcome: Result<ExecutionResult, ExecuteError>) -> Result<
    ResultView,
    ErrorView,
> {
    match outcome {
        Ok(result) => Ok(result@),
        Err(error) => Err(error@),
    }
}

/// The result that a captured run of `tool` makes.
pub open spec fn captured_result(run: CapturedView, tool: Seq<char>) -> ResultView {
    ResultView {
        stdout: run.stdout,
        stderr: run.stderr,
        exit_code: run.exit_code,
        route: if run.filtered {
            RouteView::Filtered { tool }
        } else {
            RouteView::DirectPassthrough { tool }
        },
        stdout_truncated: run.stdout_truncated,
        stderr_truncated: run.stderr_truncated,
    }
}

/// The result that a captured run of `tool` makes.
pub fn execution_from_capture(captured: CapturedRun, tool: &'static str) -> (
    result: ExecutionResult)
    ensures
        result@.stdout == captured@.stdout,
        result@.stderr == captured@.stderr,
        result@.exit_code == captured@.exit_code,
        result@.stdout_truncated == captured@.stdout_truncated,
        result@.stderr_truncated == captured@.stderr_truncated,
        captured@.filtered ==> result@.route == (RouteView::Filtered { tool: tool@ }),
        !captured@.filtered ==> result@.route == (RouteView::DirectPassthrough { tool: tool@ }),
        result@ == captured_result(captured@, tool@),
{
    ExecutionResult {
        stdout: captured.stdout,
        stderr: captured.stderr,
        exit_code: captured.exit_code,
        stdout_truncated: captured.stdout_truncated,
        stderr_truncated: captured.stderr_truncated,
        route: if captured.filtered {
            ExecutionRoute::Filtered { tool }
        } else {
            ExecutionRoute::DirectPassthrough { tool }
        },
    }
}

/// The name under which a filter reports its results.
pub open spec fn tool_of(route: FilterRoute) -> Seq<char> {
    match route {
        FilterRoute::Wc => "wc"@,
        FilterRoute::Git(_) => "git"@,
        FilterRoute::Cargo(_) => "cargo"@,
        FilterRoute::Test => "test"@,
    }
}

/// How many words of a command name the filter: the tool, and the subcommand where the filter
/// depends on it.
pub open spec fn leading_words(route: FilterRoute) -> int {
    match route {
        FilterRoute::Git(_) => 2,
        FilterRoute::Cargo(_) => 2,
        _ => 1,
    }
}

/// A command that is to be run through a filter.
pub struct FilteredCommand<'a> {
    pub route: FilterRoute,
    /// The complete command.
    pub words: &'a [String],
    /// The program.
    pub tool: &'a str,
    /// The arguments behind the words that name the filter.
    pub args: &'a [String],
}

/// The command that `words` and their filter make.
pub fn execute_filtered<'a>(route: FilterRoute, words: &'a [String]) -> (command: FilteredCommand<
    'a,
>)
    requires
        leading_words(route) <= words@.len(),
    ensures
        command.route == route,
        command.words.deep_view() == words.deep_view(),
        command.tool@ == words.deep_view()[0],
        command.args.deep_view() == words.deep_view().skip(leading_words(route)),
{
    let skipped: usize = match route {
        FilterRoute::Git(_) => 2,
        FilterRoute::Cargo(_) => 2,
        _ => 1,
    };
    let args = slice_subrange(words, skipped, words.len());
    assert(args.deep_view() == words.deep_view().skip(leading_words(route)));
    FilteredCommand { route, words, tool: words[0].as_str(), args }
}

/// What a filtered command comes to, once it has run or failed.
pub open spec fn filtered_outcome(
    route: FilterRoute,
    outcome: Result<CapturedRun, EmbeddedError>,
) -> Result<ResultView, ErrorView> {
    match outcome {
        Ok(run) => Ok(captured_result(run@, tool_of(route))),
        Err(error) => Err(failure::embedded_failure(error)),
    }
}

/// What a filtered command comes to, once it has run or failed.
pub fn finish_filtered_command(
    route: FilterRoute,
    outcome: Result<CapturedRun, EmbeddedError>,
) -> (result: Result<ExecutionResult, ExecuteError>)
    ensures
        outcome_view(result) == filtered_outcome(route, outcome),
        outcome matches Err(EmbeddedError::Process(error)) ==> {
            &&& result matches Err(result)
            &&& failure::keeps_output(error, result@)
        },
{
    let tool = match route {
        FilterRoute::Wc => "wc",
        FilterRoute::Git(_) => "git",
        FilterRoute::Cargo(_) => "cargo",
        FilterRoute::Test => "test",
    };
    match outcome {
        Ok(run) => Ok(execution_from_capture(run, tool)),
        Err(error) => Err(map_embedded_error(error)),
    }
}

/// What the platform shell is started with.
pub struct ShellCommand<'a> {
    pub program: &'static str,
    /// The argument before the command line.
    pub flag: &'static str,
    /// The command line, as one argument.
    pub command: &'a str,
    /// The directory it runs in.
    pub directory: &'a PathBuf,
}

/// What the shell of `platform` is started with to run `command`, unchanged, in `directory`.
pub fn shell_command<'a>(
    platform: Platform,
    command: &'a str,
    directory: &'a PathBuf,
) -> (shell: ShellCommand<'a>)
    ensures
        (shell.program@, shell.flag@) == platform::shell_of(platform),
        shell.command@ == command@,
        *shell.directory == *directory,
{
    let (program, flag) = platform.shell();
    ShellCommand { program, flag, command, directory }
}

/// The result of a shell command whose output reads `stdout` and `stderr`.
pub open spec fn shell_result(
    stdout: Seq<char>,
    stderr: Seq<char>,
    output: ProcessOutput,
) -> ResultView {
    ResultView {
        stdout,
        stderr,
        exit_code: output.status,
        route: RouteView::ShellPassthrough,
        stdout_truncated: output.stdout_truncated,
        stderr_truncated: output.stderr_truncated,
    }
}

/// The result of a shell command, with its output as text.
pub fn execution_from_shell(stdout: String, stderr: String, output: &ProcessOutput) -> (
    result: ExecutionResult)
    ensures
        result@.stdout == stdout@,
        result@.stderr == stderr@,
        result@.exit_code == output.status,
        result@.route is ShellPassthrough,
        result@.stdout_truncated == output.stdout_truncated,
        result@.stderr_truncated == output.stderr_truncated,
        result@ == shell_result(stdout@, stderr@, *output),
{
    ExecutionResult {
        stdout,
        stderr,
        exit_code: output.status,
        route: ExecutionRoute::ShellPassthrough,
        stdout_truncated: output.stdout_truncated,
        stderr_truncated: output.stderr_truncated,
    }
}

/// What a shell command comes to, once it has run or failed.
pub open spec fn shell_outcome(outcome: Result<ProcessOutput, ProcessError>) -> Result<
    ResultView,
    ErrorView,
> {
    match outcome {
        Ok(output) => Ok(
            shell_result(
                failure::lossy_text(output.stdout@),
                failure::lossy_text(output.stderr@),
                output,
            ),
        ),
        Err(error) => Err(failure::process_failure(error)),
    }
}

/// What a shell command comes to, once it has run or failed.
pub fn execute_shell(outcome: Result<ProcessOutput, ProcessError>) -> (result: Result<
    ExecutionResult,
    ExecuteError,
>)
    ensures
        outcome_view(result) == shell_outcome(outcome),
        outcome matches Ok(output) ==> {
            &&& result matches Ok(result)
            &&& failure::reads_as(output.stdout@, result@.stdout)
            &&& failure::reads_as(output.stderr@, result@.stderr)
        },
        outcome matches Err(error) ==> {
            &&& result matches Err(result)
            &&& failure::keeps_output(error, result@)
        },
{
    match outcome {
        Ok(output) => {
            let stdout = decode_process_output(output.stdout.as_slice());
            let stderr = decode_process_output(output.stderr.as_slice());
            Ok(execution_from_shell(stdout, stderr, &output))
        },
        Err(error) => Err(map_process_error(error)),
    }
}

/// What an execution waits for.
#[derive(Debug)]
pub enum Stage {
    /// The current directory, in which the command is to run.
    Directory,
    /// The command of a chain that is to run now, through its filter.
    Direct(ChainRun),
    /// The complete command line, through the platform shell.
    Shell,
    /// Nothing.
    Finished(Result<ExecutionResult, ExecuteError>),
}

/// The mathematical counterpart of [`Stage`].
pub enum StageView {
    Directory,
    Direct(ChainView),
    Shell,
    Finished(Result<ResultView, ErrorView>),
}

impl View for Stage {
    type V = StageView;

    open spec fn view(&self) -> StageView {
        match *self {
            Stage::Directory => StageView::Directory,
            Stage::Direct(run) => StageView::Direct(run@),
            Stage::Shell => StageView::Shell,
            Stage::Finished(outcome) => StageView::Finished(outcome_view(outcome)),
        }
    }
}

/// A command line that is being executed.
#[derive(Debug)]
pub struct Execution {
    command: String,
    tracking: bool,
    platform: Platform,
    directory: Option<PathBuf>,
    control: ProcessControl,
    stage: Stage,
}

/// The mathematical counterpart of [`Execution`].
pub struct ExecutionView {
    /// The command line, unchanged.
    pub command: Seq<char>,
    /// Whether the execution is recorded.
    pub tracking: bool,
    /// The platform whose shell and paths count.
    pub platform: Platform,
    /// The directory in which every command runs, once it is known.
    pub directory: Option<PathBuf>,
    /// What bounds the complete execution.
    pub control: ProcessControl,
    pub stage: StageView,
}

impl View for Execution {
    type V = ExecutionView;

    closed spec fn view(&self) -> ExecutionView {
        ExecutionView {
            command: self.command@,
            tracking: self.tracking,
            platform: self.platform,
            directory: self.directory,
            control: self.control,
            stage: self.stage@,
        }
    }
}

impl ExecutionView {
    /// Nothing runs before its directory is known. A chain that is being run is well formed, and
    /// is that of the command line, through the filters of its commands.
    pub open spec fn well_formed(self) -> bool {
        &&& self.stage is Direct || self.stage is Shell ==> self.directory is Some
        &&& self.stage matches StageView::Direct(run) ==> {
            &&& run.well_formed()
            &&& plan::plan_of(self.command) == Some(run.plan)
            &&& route::routes_of(self.platform, run.plan.commands) == Some(run.routes)
        }
    }
}

/// How `command` is executed: as a chain of filtered commands if it can be planned and every
/// command of the plan has a filter, and otherwise by the shell.
pub open spec fn dispatched(platform: Platform, command: Seq<char>) -> StageView {
    match plan::plan_of(command) {
        Some(plan) => match route::routes_of(platform, plan.commands) {
            Some(routes) => StageView::Direct(chain::chain_start(plan, routes)),
            None => StageView::Shell,
        },
        None => StageView::Shell,
    }
}

/// A plan whose commands have filters can run through them.
proof fn lemma_routed_plan_is_runnable(
    platform: Platform,
    plan: PlanView,
    routes: Seq<FilterRoute>,
)
    requires
        plan.well_formed(),
        route::routes_of(platform, plan.commands) == Some(routes),
    ensures
        chain::runnable(plan, routes),
{
    assert forall|i: int| 0 <= i < routes.len() implies leading_words(routes[i])
        <= #[trigger] plan.commands[i].len() by {
        assert(route::route_of(platform, plan.commands[i]) == Some(routes[i]));
    }
}

/// How `command` is executed once its directory is known.
fn dispatch(platform: Platform, command: &str) -> (stage: Stage)
    ensures
        stage@ == dispatched(platform, command@),
        stage matches Stage::Direct(run) ==> run@.well_formed(),
{
    if let Some(plan) = parse_direct_plan(command) {
        proof {
            plan::law_planned_command_is_well_formed(command@);
        }
        if let Some(routes) = classify_commands(platform, &plan.commands) {
            proof {
                lemma_routed_plan_is_runnable(platform, plan@, routes@);
            }
            return Stage::Direct(execute_direct_plan(plan, routes));
        }
    }
    Stage::Shell
}

/// Starts to execute a shell command, applying a filter when it can be routed without changing
/// shell semantics.
///
/// Unsupported commands and complex shell syntax are passed to the platform shell unchanged. The
/// output is captured: nothing is printed, and the embedding process never exits.
pub fn execute(command: &str) -> (execution: Execution)
    ensures
        execution@.command == command@,
        execution@.stage is Directory,
        execution@.directory is None,
        !execution@.tracking,
        execution@.control.timeout() is None,
        execution@.control.cancellation() is None,
        execution@.control.limit() == DEFAULT_OUTPUT_LIMIT,
        execution@.control.counts_from_a_reading(),
        execution@.platform.is_current(),
        execution@.well_formed(),
{
    execute_with_options(command, &ExecuteOptions::default())
}

/// Starts to execute a shell command with explicit embedding options, on the platform of this
/// process.
pub fn execute_with_options(command: &str, options: &ExecuteOptions) -> (execution: Execution)
    ensures
        started_with(execution@, command@, *options),
        execution@.platform.is_current(),
{
    execute_on(Platform::current(), command, options)
}

/// Whether `execution` is that of `command` under `options`, of which nothing has run. Every
/// command of it runs in the directory that the options name, or in the current directory, which
/// is then still to be found out.
pub open spec fn started_with(
    execution: ExecutionView,
    command: Seq<char>,
    options: ExecuteOptions,
) -> bool {
    &&& execution.command == command
    &&& execution.directory == options.cwd
    &&& execution.stage == (if options.cwd is Some {
        dispatched(execution.platform, command)
    } else {
        StageView::Directory
    })
    &&& execution.tracking == options.tracking
    &&& execution.control.timeout() == options.timeout
    &&& execution.control.cancellation() == options.cancellation
    &&& execution.control.limit() == options.output_limit
    &&& execution.control.counts_from_a_reading()
    &&& execution.well_formed()
}

/// Starts to execute a shell command with explicit embedding options, on a platform of the given
/// kind.
pub fn execute_on(platform: Platform, command: &str, options: &ExecuteOptions) -> (
    execution: Execution)
    ensures
        execution@.platform == platform,
        started_with(execution@, command@, *options),
{
    let control = ProcessControl::new(
        options.timeout,
        copy_signal(&options.cancellation),
        options.output_limit,
    );
    let stage = match &options.cwd {
        Some(_) => dispatch(platform, command),
        None => Stage::Directory,
    };
    Execution {
        command: command.to_owned(),
        tracking: options.tracking,
        platform,
        directory: copy_directory(&options.cwd),
        control,
        stage,
    }
}

impl Execution {
    /// The command line, unchanged.
    pub fn command(&self) -> (command: &str)
        ensures
            command@ == self@.command,
    {
        self.command.as_str()
    }

    /// Whether the execution is to be recorded.
    pub fn tracking(&self) -> (tracking: bool)
        ensures
            tracking == self@.tracking,
    {
        self.tracking
    }

    /// The directory in which every command runs, once it is known.
    pub fn directory(&self) -> (directory: Option<&PathBuf>)
        ensures
            match directory {
                Some(directory) => self@.directory == Some(*directory),
                None => self@.directory is None,
            },
    {
        match &self.directory {
            Some(directory) => Some(directory),
            None => None,
        }
    }

    /// What bounds the complete execution: every command of it runs under the same control.
    pub fn control(&self) -> (control: &ProcessControl)
        ensures
            *control == self@.control,
    {
        &self.control
    }

    /// What the execution waits for.
    pub fn stage(&self) -> (stage: &Stage)
        ensures
            stage@ == self@.stage,
            self@.well_formed() ==> (stage matches Stage::Direct(run) ==> run@.well_formed()),
    {
        &self.stage
    }

    /// The command of the chain that is to run now, and the directory it runs in. There is none
    /// unless the execution waits for one.
    pub fn direct_command(&self) -> (direct: Option<(FilteredCommand<'_>, &PathBuf)>)
        requires
            self@.well_formed(),
        ensures
            direct is Some <==> self@.stage is Direct,
            direct matches Some((command, directory)) ==> {
                &&& self@.directory == Some(*directory)
                &&& self@.stage matches StageView::Direct(run) ==> {
                    let words = run.plan.commands[run.at];
                    let route = run.routes[run.at];
                    &&& command.route == route
                    &&& command.words.deep_view() == words
                    &&& command.tool@ == words[0]
                    &&& command.args.deep_view() == words.skip(leading_words(route))
                }
            },
    {
        match (&self.stage, &self.directory) {
            (Stage::Direct(run), Some(directory)) => Some((run.command(), directory)),
            _ => None,
        }
    }

    /// What the shell is started with. There is nothing unless the execution waits for the shell.
    pub fn shell_command(&self) -> (shell: Option<ShellCommand<'_>>)
        requires
            self@.well_formed(),
        ensures
            shell is Some <==> self@.stage is Shell,
            shell matches Some(shell) ==> {
                &&& (shell.program@, shell.flag@) == platform::shell_of(self@.platform)
                &&& shell.command@ == self@.command
                &&& self@.directory == Some(*shell.directory)
            },
    {
        match (&self.stage, &self.directory) {
            (Stage::Shell, Some(directory)) => Some(
                shell_command(self.platform, self.command.as_str(), directory),
            ),
            _ => None,
        }
    }

    /// What the execution came to, if it is finished.
    pub fn into_outcome(self) -> (outcome: Option<Result<ExecutionResult, ExecuteError>>)
        ensures
            match self@.stage {
                StageView::Finished(expected) => outcome matches Some(outcome) && outcome_view(
                    outcome,
                ) == expected,
                _ => outcome is None,
            },
    {
        match self.stage {
            Stage::Finished(outcome) => Some(outcome),
            _ => None,
        }
    }

    /// Goes on in the current directory once it is known, or ends if it cannot be.
    pub fn directory_resolved(self, directory: Result<PathBuf, IoFailure>) -> (next: Self)
        requires
            self@.stage is Directory,
        ensures
            next@ == match directory {
                Ok(path) => ExecutionView {
                    directory: Some(path),
                    stage: dispatched(self@.platform, self@.command),
                    ..self@
                },
                Err(error) => ExecutionView {
                    stage: StageView::Finished(
                        Err(ErrorView::BeforeStart(BeforeStartError::WorkingDirectory(error))),
                    ),
                    ..self@
                },
            },
            next@.well_formed(),
    {
        match directory {
            Ok(path) => {
                let stage = dispatch(self.platform, self.command.as_str());
                Execution { directory: Some(path), stage, ..self }
            },
            Err(error) => Execution {
                stage: Stage::Finished(
                    Err(ExecuteError::BeforeStart(BeforeStartError::WorkingDirectory(error))),
                ),
                ..self
            },
        }
    }

    /// Takes what the command of the chain came to and decides what is next.
    pub fn command_finished(self, outcome: Result<CapturedRun, EmbeddedError>) -> (next: Self)
        requires
            self@.well_formed(),
            self@.stage is Direct,
        ensures
            next@ == (ExecutionView { stage: next@.stage, ..self@ }),
            self@.stage matches StageView::Direct(run) ==> next@.stage == match chain::chain_step(
                run,
                filtered_outcome(run.routes[run.at], outcome),
            ) {
                ChainStepView::Running(run) => StageView::Direct(run),
                ChainStepView::Finished(outcome) => StageView::Finished(outcome),
            },
            (self@.stage, outcome) matches (
                StageView::Direct(run),
                Err(EmbeddedError::Process(error)),
            ) ==> {
                &&& next@.stage matches StageView::Finished(Err(mapped))
                &&& chain::keeps_chain_output(run.tally, error, mapped)
            },
            next@.well_formed(),
    {
        let Execution { command, tracking, platform, directory, control, stage } = self;
        let stage = match stage {
            Stage::Direct(run) => match run.resume(outcome) {
                ChainStep::Running(run) => Stage::Direct(run),
                ChainStep::Finished(outcome) => Stage::Finished(outcome),
            },
            other => other,
        };
        Execution { command, tracking, platform, directory, control, stage }
    }

    /// Takes what the shell came to. An execution that is to be recorded and came to a result
    /// gives an entry for the usage history, as a command that was handed through.
    pub fn shell_finished(self, outcome: Result<ProcessOutput, ProcessError>) -> (finished: (
        Self,
        Option<UsageRecord>,
    ))
        requires
            self@.stage is Shell,
        ensures
            finished.0@ == (ExecutionView {
                stage: StageView::Finished(shell_outcome(outcome)),
                ..self@
            }),
            finished.0@.well_formed(),
            (outcome, finished.0@.stage) matches (
                Ok(output),
                StageView::Finished(Ok(result)),
            ) ==> {
                &&& failure::reads_as(output.stdout@, result.stdout)
                &&& failure::reads_as(output.stderr@, result.stderr)
            },
            outcome matches Err(error) ==> {
                &&& finished.0@.stage matches StageView::Finished(Err(mapped))
                &&& failure::keeps_output(error, mapped)
            },
            runner::recorded(
                self@.tracking && outcome is Ok,
                finished.1,
                runner::passthrough_usage(self@.command),
            ),
    {
        let record = if self.tracking && outcome.is_ok() {
            Some(passthrough_record(self.command.as_str()))
        } else {
            None
        };
        (Execution { stage: Stage::Finished(execute_shell(outcome)), ..self }, record)
    }
}

/// A command line runs without a shell exactly if it can be planned and every command of the plan
/// has a filter. Otherwise the shell runs it, once and unchanged.
pub proof fn law_only_fully_routed_commands_run_directly(platform: Platform, command: Seq<char>)
    ensures
        dispatched(platform, command) is Direct || dispatched(platform, command) is Shell,
        dispatched(platform, command) is Direct <==> {
            &&& plan::plan_of(command) matches Some(plan)
            &&& forall|i: int|
                0 <= i < plan.commands.len() ==> route::route_of(
                    platform,
                    #[trigger] plan.commands[i],
                ) is Some
        },
{
}

/// A command line that runs without a shell comes to what its only command comes to, or to what
/// the commands of its chain that run come to together, where `outcomes` says of each command
/// what it comes to if it is run.
pub proof fn law_direct_execution_comes_to_its_commands(
    platform: Platform,
    command: Seq<char>,
    outcomes: spec_fn(int) -> Result<ResultView, ErrorView>,
)
    ensures
        dispatched(platform, command) matches StageView::Direct(run) ==> {
            &&& run.well_formed()
            &&& chain::resumed_to_end(run, outcomes) == if run.plan.commands.len() == 1 {
                outcomes(0)
            } else {
                chain::chain_outcome(run.plan, 0, chain::empty_tally(), outcomes)
            }
        },
{
    if let StageView::Direct(run) = dispatched(platform, command) {
        plan::law_planned_command_is_well_formed(command);
        lemma_routed_plan_is_runnable(platform, run.plan, run.routes);
        if run.plan.commands.len() > 1 {
            chain::law_chain_keeps_shell_semantics(run, outcomes);
        }
    }
}

/// The result of a filtered command carries the captured output, exit code and truncation flags
/// unchanged, whether it was filtered or left raw; only the route tells which.
pub proof fn law_result_carries_the_captured_run(
    route: FilterRoute,
    captured: CapturedRun,
    tool: Seq<char>,
)
    ensures
        captured_result(captured@, tool).stdout == captured.stdout@,
        captured_result(captured@, tool).stderr == captured.stderr@,
        captured_result(captured@, tool).exit_code == captured.exit_code,
        captured_result(captured@, tool).stdout_truncated == captured.stdout_truncated,
        captured_result(captured@, tool).stderr_truncated == captured.stderr_truncated,
        captured_result(captured@, tool).route == (if captured.filtered {
            RouteView::Filtered { tool }
        } else {
            RouteView::DirectPassthrough { tool }
        }),
        filtered_outcome(route, Ok(captured)) matches Ok(result) && {
            &&& result.stdout == captured.stdout@
            &&& result.stderr == captured.stderr@
            &&& result.exit_code == captured.exit_code
            &&& result.stdout_truncated == captured.stdout_truncated
            &&& result.stderr_truncated == captured.stderr_truncated
            &&& result.route is Filtered <==> captured.filtered
            &&& result.route is DirectPassthrough <==> !captured.filtered
        },
{
}

/// A filter reports its results under the name of its tool.
pub proof fn law_route_names_the_tool(
    git: route::GitCommand,
    cargo: route::CargoCommand,
    captured: CapturedRun,
)
    ensures
        filtered_outcome(FilterRoute::Wc, Ok(captured)) matches Ok(result) && (result.route == (
        RouteView::Filtered { tool: "wc"@ }) || result.route == (RouteView::DirectPassthrough {
            tool: "wc"@,
        })),
        filtered_outcome(FilterRoute::Git(git), Ok(captured)) matches Ok(result) && (result.route
            == (RouteView::Filtered { tool: "git"@ }) || result.route == (
        RouteView::DirectPassthrough { tool: "git"@ })),
        filtered_outcome(FilterRoute::Cargo(cargo), Ok(captured)) matches Ok(result) && (
        result.route == (RouteView::Filtered { tool: "cargo"@ }) || result.route == (
        RouteView::DirectPassthrough { tool: "cargo"@ })),
        filtered_outcome(FilterRoute::Test, Ok(captured)) matches Ok(result) && (result.route == (
        RouteView::Filtered { tool: "test"@ }) || result.route == (RouteView::DirectPassthrough {
            tool: "test"@,
        })),
{
}

/// The words that name a filter and the arguments behind them are the command: one word for `wc`
/// and for a test runner, and two for `git` and `cargo`.
pub proof fn law_arguments_follow_the_naming_words(route: FilterRoute)
    ensures
        route is Wc || route is Test ==> leading_words(route) == 1,
        route is Git || route is Cargo ==> leading_words(route) == 2,
{
}

/// The result of a shell command carries the output, exit code and truncation flags of the shell
/// unchanged, and a failure is that of the process.
pub proof fn law_shell_result_carries_the_output(
    output: ProcessOutput,
    error: ProcessError,
)
    ensures
        shell_outcome(Ok(output)) matches Ok(result) && {
            &&& result.stdout == failure::lossy_text(output.stdout@)
            &&& result.stderr == failure::lossy_text(output.stderr@)
            &&& result.exit_code == output.status
            &&& result.stdout_truncated == output.stdout_truncated
            &&& result.stderr_truncated == output.stderr_truncated
            &&& result.route is ShellPassthrough
        },
        shell_outcome(Err(error)) == Err::<ResultView, ErrorView>(failure::process_failure(error)),
{
}

/// A command line that runs without a shell runs the commands of its plan, from the first one on,
/// each through the filter that its own words call for, with nothing counted in before.
pub proof fn law_direct_execution_runs_the_plan(platform: Platform, command: Seq<char>)
    ensures
        dispatched(platform, command) matches StageView::Direct(run) ==> {
            &&& Some(run.plan) == plan::plan_of(command)
            &&& run.at == 0
            &&& run.routes.len() == run.plan.commands.len()
            &&& forall|i: int|
                0 <= i < run.routes.len() ==> route::route_of(
                    platform,
                    #[trigger] run.plan.commands[i],
                ) == Some(run.routes[i])
            &&& run.tally.stdout.len() == 0
            &&& run.tally.stderr.len() == 0
            &&& run.tally.exit_code == 0
            &&& !run.tally.executed_any
            &&& run.tally.all_filtered
            &&& !run.tally.stdout_truncated
            &&& !run.tally.stderr_truncated
        },
{
}

/// An execution keeps to its options, and nothing of it has run when it starts.
pub proof fn law_execution_keeps_to_its_options(
    execution: ExecutionView,
    command: Seq<char>,
    options: ExecuteOptions,
)
    requires
        started_with(execution, command, options),
    ensures
        execution.command == command,
        execution.tracking == options.tracking,
        execution.directory == options.cwd,
        execution.control.timeout() == options.timeout,
        execution.control.cancellation() == options.cancellation,
        execution.control.limit() == options.output_limit,
        options.cwd is None <==> execution.stage is Directory,
        options.cwd is Some ==> (execution.stage is Shell <==> !(execution.stage is Direct)),
        !(execution.stage is Finished),
        options.cwd is Some ==> (execution.stage is Direct <==> {
            &&& plan::plan_of(command) matches Some(plan)
            &&& forall|i: int|
                0 <= i < plan.commands.len() ==> route::route_of(
                    execution.platform,
                    #[trigger] plan.commands[i],
                ) is Some
        }),
{
}

} // verus!
