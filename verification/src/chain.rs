//! Chains of filtered commands: which of them run, and what they come to together.

use crate::execute::{
    self, execute_filtered, finish_filtered_command, ExecutionResult, ExecutionRoute,
    FilteredCommand, ResultView, RouteView,
};
use crate::failure::{
    self, append_chain_output, enrich_chain_error, BeforeStartError, EmbeddedError, ErrorView,
    ExecuteError, PartialView,
};
use crate::plan::{self, should_run, ChainOperator, DirectPlan, PlanView};
use crate::process::ProcessError;
use crate::route::FilterRoute;
use crate::runner::CapturedRun;
use vstd::prelude::*;

verus! {

/// What the commands of a chain have come to so far.
#[derive(Debug)]
pub struct ChainTally {
    pub stdout: String,
    pub stderr: String,
    /// The exit code of the last command that ran.
    pub exit_code: i32,
    pub executed_any: bool,
    pub all_filtered: bool,
    pub stdout_truncated: bool,
    pub stderr_truncated: bool,
}

/// The mathematical counterpart of [`ChainTally`].
#[verifier::ext_equal]
pub struct TallyView {
    pub stdout: Seq<char>,
    pub stderr: Seq<char>,
    pub exit_code: i32,
    pub executed_any: bool,
    pub all_filtered: bool,
    pub stdout_truncated: bool,
    pub stderr_truncated: bool,
}

impl View for ChainTally {
    type V = TallyView;

    open spec fn view(&self) -> TallyView {
        TallyView {
            stdout: self.stdout@,
            stderr: self.stderr@,
            exit_code: self.exit_code,
            executed_any: self.executed_any,
            all_filtered: self.all_filtered,
            stdout_truncated: self.stdout_truncated,
            stderr_truncated: self.stderr_truncated,
        }
    }
}

/// The tally of a chain of which nothing has run.
pub open spec fn empty_tally() -> TallyView {
    TallyView {
        stdout: Seq::empty(),
        stderr: Seq::empty(),
        exit_code: 0,
        executed_any: false,
        all_filtered: true,
        stdout_truncated: false,
        stderr_truncated: false,
    }
}

impl TallyView {
    /// The tally after one more command.
    pub open spec fn counting(self, result: ResultView) -> TallyView {
        TallyView {
            stdout: failure::chained(self.stdout, result.stdout),
            stderr: failure::chained(self.stderr, result.stderr),
            exit_code: result.exit_code,
            executed_any: true,
            all_filtered: self.all_filtered && result.route is Filtered,
            stdout_truncated: self.stdout_truncated || result.stdout_truncated,
            stderr_truncated: self.stderr_truncated || result.stderr_truncated,
        }
    }

    /// What the chain comes to at its end.
    pub open spec fn result(self) -> ResultView {
        ResultView {
            stdout: self.stdout,
            stderr: self.stderr,
            exit_code: self.exit_code,
            route: if self.all_filtered {
                RouteView::Filtered { tool: "chain"@ }
            } else {
                RouteView::DirectPassthrough { tool: "chain"@ }
            },
            stdout_truncated: self.stdout_truncated,
            stderr_truncated: self.stderr_truncated,
        }
    }

    /// What the chain comes to when its next command fails with `error`.
    pub open spec fn failure(self, error: ErrorView) -> ErrorView {
        failure::enriched(
            error,
            self.executed_any,
            PartialView {
                stdout: self.stdout,
                stderr: self.stderr,
                stdout_truncated: self.stdout_truncated,
                stderr_truncated: self.stderr_truncated,
            },
        )
    }
}

impl ChainTally {
    /// The tally of a chain of which nothing has run.
    fn new() -> (tally: Self)
        ensures
            tally@ == empty_tally(),
    {
        ChainTally {
            stdout: String::new(),
            stderr: String::new(),
            exit_code: 0,
            executed_any: false,
            all_filtered: true,
            stdout_truncated: false,
            stderr_truncated: false,
        }
    }

    /// Counts one more command in.
    fn count(&mut self, result: &ExecutionResult)
        ensures
            final(self)@ == old(self)@.counting(result@),
    {
        append_chain_output(&mut self.stdout, result.stdout.as_str());
        append_chain_output(&mut self.stderr, result.stderr.as_str());
        self.exit_code = result.exit_code;
        self.executed_any = true;
        self.all_filtered = self.all_filtered && result.filtered();
        self.stdout_truncated = self.stdout_truncated || result.stdout_truncated;
        self.stderr_truncated = self.stderr_truncated || result.stderr_truncated;
    }

    /// What the chain comes to at its end.
    fn into_result(self) -> (result: ExecutionResult)
        ensures
            result@ == self@.result(),
    {
        ExecutionResult {
            stdout: self.stdout,
            stderr: self.stderr,
            exit_code: self.exit_code,
            route: if self.all_filtered {
                ExecutionRoute::Filtered { tool: "chain" }
            } else {
                ExecutionRoute::DirectPassthrough { tool: "chain" }
            },
            stdout_truncated: self.stdout_truncated,
            stderr_truncated: self.stderr_truncated,
        }
    }

    /// What the chain comes to when its next command fails with `error`.
    fn into_failure(self, error: ExecuteError) -> (failure: ExecuteError)
        ensures
            failure@ == self@.failure(error@),
    {
        enrich_chain_error(
            error,
            self.executed_any,
            self.stdout,
            self.stderr,
            self.stdout_truncated,
            self.stderr_truncated,
        )
    }
}

/// A chain of filtered commands, one of which is to run now.
#[derive(Debug)]
pub struct ChainRun {
    plan: DirectPlan,
    routes: Vec<FilterRoute>,
    at: usize,
    tally: ChainTally,
}

/// The mathematical counterpart of [`ChainRun`].
#[verifier::ext_equal]
pub struct ChainView {
    pub plan: PlanView,
    pub routes: Seq<FilterRoute>,
    /// The command that is to run now.
    pub at: int,
    pub tally: TallyView,
}

impl View for ChainRun {
    type V = ChainView;

    closed spec fn view(&self) -> ChainView {
        ChainView { plan: self.plan@, routes: self.routes@, at: self.at as int, tally: self.tally@ }
    }
}

impl ChainView {
    /// The plan can run through the filters, and the command that is to run now is one of its
    /// commands, which its operator lets run. Nothing has run before the first command, and
    /// something has before every other.
    pub open spec fn well_formed(self) -> bool {
        &&& runnable(self.plan, self.routes)
        &&& 0 <= self.at < self.plan.commands.len()
        &&& self.at > 0 ==> plan::runs_after(
            self.plan.operators[self.at - 1],
            self.tally.exit_code,
        )
        &&& self.at > 0 ==> self.tally.executed_any
        &&& self.at == 0 ==> self.tally == empty_tally()
    }
}

/// Whether the failure that `error` makes of a chain holds what the chain had written so far and
/// behind it what the stopped command had written.
pub open spec fn keeps_chain_output(
    tally: TallyView,
    error: ProcessError,
    mapped: ErrorView,
) -> bool {
    error matches ProcessError::Interrupted { started: true, stdout, stderr, .. } ==> {
        &&& mapped matches ErrorView::MayHaveStarted { partial, .. }
        &&& partial.stdout == failure::chained(tally.stdout, failure::lossy_text(stdout@))
        &&& partial.stderr == failure::chained(tally.stderr, failure::lossy_text(stderr@))
        &&& failure::reads_as(stdout@, failure::lossy_text(stdout@))
        &&& failure::reads_as(stderr@, failure::lossy_text(stderr@))
    }
}

/// Whether one operator stands between every two commands, and every command has a filter and the
/// words that name it.
pub open spec fn runnable(plan: PlanView, routes: Seq<FilterRoute>) -> bool {
    &&& plan.commands.len() == plan.operators.len() + 1
    &&& routes.len() == plan.commands.len()
    &&& forall|i: int|
        0 <= i < routes.len() ==> execute::leading_words(routes[i])
            <= #[trigger] plan.commands[i].len()
}

/// The chain that runs `plan` from its first command on.
pub open spec fn chain_start(plan: PlanView, routes: Seq<FilterRoute>) -> ChainView {
    ChainView { plan, routes, at: 0, tally: empty_tally() }
}

/// The first command from `from` on that runs after a command that ended with `exit_code`, or
/// the number of commands if none does.
pub open spec fn next_command(operators: Seq<ChainOperator>, from: int, exit_code: i32) -> int
    decreases operators.len() + 1 - from,
{
    if from > operators.len() {
        operators.len() as int + 1
    } else if from > 0 && !plan::runs_after(operators[from - 1], exit_code) {
        next_command(operators, from + 1, exit_code)
    } else {
        from
    }
}

/// A chain that goes on, or what it came to.
pub enum ChainStep {
    Running(ChainRun),
    Finished(Result<ExecutionResult, ExecuteError>),
}

/// The mathematical counterpart of [`ChainStep`].
pub enum ChainStepView {
    Running(ChainView),
    Finished(Result<ResultView, ErrorView>),
}

impl View for ChainStep {
    type V = ChainStepView;

    open spec fn view(&self) -> ChainStepView {
        match *self {
            ChainStep::Running(run) => ChainStepView::Running(run@),
            ChainStep::Finished(outcome) => ChainStepView::Finished(
                execute::outcome_view(outcome),
            ),
        }
    }
}

/// What becomes of a chain whose command comes to `outcome`.
///
/// A single command is its own outcome. In a longer chain a failure ends the chain, and a result
/// is counted in and decides which command is next.
pub open spec fn chain_step(
    chain: ChainView,
    outcome: Result<ResultView, ErrorView>,
) -> ChainStepView {
    if chain.plan.commands.len() == 1 {
        ChainStepView::Finished(outcome)
    } else {
        match outcome {
            Err(error) => ChainStepView::Finished(Err(chain.tally.failure(error))),
            Ok(result) => {
                let tally = chain.tally.counting(result);
                let at = next_command(chain.plan.operators, chain.at + 1, tally.exit_code);
                if at < chain.plan.commands.len() {
                    ChainStepView::Running(ChainView { at, tally, ..chain })
                } else {
                    ChainStepView::Finished(Ok(tally.result()))
                }
            },
        }
    }
}

/// Starts to run `plan`, whose commands go through the filters `routes`.
pub fn execute_direct_plan(plan: DirectPlan, routes: Vec<FilterRoute>) -> (chain: ChainRun)
    requires
        runnable(plan@, routes@),
    ensures
        chain@ == chain_start(plan@, routes@),
        chain@.well_formed(),
{
    ChainRun { plan, routes, at: 0, tally: ChainTally::new() }
}

/// A next command lies from `from` on, and its operator lets it run.
proof fn lemma_next_command(operators: Seq<ChainOperator>, from: int, exit_code: i32)
    requires
        0 <= from <= operators.len() + 1,
    ensures
        from <= next_command(operators, from, exit_code) <= operators.len() + 1,
        0 < next_command(operators, from, exit_code) <= operators.len() ==> plan::runs_after(
            operators[next_command(operators, from, exit_code) - 1],
            exit_code,
        ),
        forall|i: int|
            from <= i < next_command(operators, from, exit_code) ==> i > 0 && !plan::runs_after(
                #[trigger] operators[i - 1],
                exit_code,
            ),
    decreases operators.len() + 1 - from,
{
    if from <= operators.len() && from > 0 && !plan::runs_after(operators[from - 1], exit_code) {
        lemma_next_command(operators, from + 1, exit_code);
    }
}

impl ChainRun {
    /// The command that is to run now.
    pub fn command(&self) -> (command: FilteredCommand<'_>)
        requires
            self@.well_formed(),
        ensures
            ({
                let words = self@.plan.commands[self@.at];
                let route = self@.routes[self@.at];
                &&& command.route == route
                &&& command.words.deep_view() == words
                &&& command.tool@ == words[0]
                &&& command.args.deep_view() == words.skip(execute::leading_words(route))
            }),
    {
        let ghost words = self@.plan.commands[self@.at];
        assert(words == self.plan.commands@[self.at as int].deep_view());
        assert(execute::leading_words(self@.routes[self@.at]) <= words.len());
        execute_filtered(self.routes[self.at], self.plan.commands[self.at].as_slice())
    }

    /// Takes what the command came to and decides what is next.
    pub fn resume(self, outcome: Result<CapturedRun, EmbeddedError>) -> (next: ChainStep)
        requires
            self@.well_formed(),
        ensures
            next@ == chain_step(
                self@,
                execute::filtered_outcome(self@.routes[self@.at], outcome),
            ),
            next matches ChainStep::Running(run) ==> run@.well_formed() && run@.at > self@.at,
            outcome matches Err(EmbeddedError::Process(error)) ==> {
                &&& next@ matches ChainStepView::Finished(Err(mapped))
                &&& keeps_chain_output(self@.tally, error, mapped)
            },
    {
        let ghost before = self@;
        let result = finish_filtered_command(self.routes[self.at], outcome);
        let count: usize = self.plan.commands.len();
        if count == 1 {
            return ChainStep::Finished(result);
        }
        let ChainRun { plan, routes, at: done, mut tally } = self;
        let result = match result {
            Ok(result) => result,
            Err(error) => {
                return ChainStep::Finished(Err(tally.into_failure(error)));
            },
        };
        tally.count(&result);
        let mut at: usize = done + 1;
        proof {
            lemma_next_command(plan.operators@, at as int, tally.exit_code);
        }
        while at < count && !should_run(plan.operators[at - 1], tally.exit_code)
            invariant
                0 < at <= count,
                count == plan.operators@.len() + 1,
                next_command(plan.operators@, at as int, tally.exit_code) == next_command(
                    plan.operators@,
                    done + 1,
                    tally.exit_code,
                ),
            decreases count - at,
        {
            at = at + 1;
        }
        if at < count {
            ChainStep::Running(ChainRun { plan, routes, at, tally })
        } else {
            ChainStep::Finished(Ok(tally.into_result()))
        }
    }
}

/// What the commands of a chain come to from `at` on, where `outcomes` says of each command what
/// it comes to if it is run.
pub open spec fn chain_outcome(
    plan: PlanView,
    at: int,
    tally: TallyView,
    outcomes: spec_fn(int) -> Result<ResultView, ErrorView>,
) -> Result<ResultView, ErrorView>
    decreases plan.commands.len() - at,
{
    if at >= plan.commands.len() {
        Ok(tally.result())
    } else if at > 0 && !plan::runs_after(plan.operators[at - 1], tally.exit_code) {
        chain_outcome(plan, at + 1, tally, outcomes)
    } else {
        match outcomes(at) {
            Ok(result) => chain_outcome(plan, at + 1, tally.counting(result), outcomes),
            Err(error) => Err(tally.failure(error)),
        }
    }
}

/// What a chain comes to when it is resumed with `outcomes` until it is finished.
pub open spec fn resumed_to_end(
    chain: ChainView,
    outcomes: spec_fn(int) -> Result<ResultView, ErrorView>,
) -> Result<ResultView, ErrorView>
    decreases chain.plan.commands.len() - chain.at,
{
    match chain_step(chain, outcomes(chain.at)) {
        ChainStepView::Finished(outcome) => outcome,
        ChainStepView::Running(next) => if chain.at < next.at && next.plan == chain.plan && next.at
            < chain.plan.commands.len() {
            resumed_to_end(next, outcomes)
        } else {
            outcomes(chain.at)
        },
    }
}

/// Skipped commands change nothing.
proof fn lemma_skipping(
    plan: PlanView,
    from: int,
    tally: TallyView,
    outcomes: spec_fn(int) -> Result<ResultView, ErrorView>,
)
    requires
        plan.commands.len() == plan.operators.len() + 1,
        0 < from <= plan.commands.len(),
    ensures
        chain_outcome(plan, from, tally, outcomes) == chain_outcome(
            plan,
            next_command(plan.operators, from, tally.exit_code),
            tally,
            outcomes,
        ),
    decreases plan.commands.len() - from,
{
    if from < plan.commands.len() && !plan::runs_after(
        plan.operators[from - 1],
        tally.exit_code,
    ) {
        lemma_skipping(plan, from + 1, tally, outcomes);
    }
}

/// A chain of two or more commands that is resumed until it is finished runs its commands in
/// order, each at most once and only where its operator and the exit code before it allow it,
/// and comes to what the commands that ran came to together.
pub proof fn law_chain_keeps_shell_semantics(
    chain: ChainView,
    outcomes: spec_fn(int) -> Result<ResultView, ErrorView>,
)
    requires
        chain.well_formed(),
        chain.plan.commands.len() > 1,
    ensures
        resumed_to_end(chain, outcomes) == chain_outcome(
            chain.plan,
            chain.at,
            chain.tally,
            outcomes,
        ),
    decreases chain.plan.commands.len() - chain.at,
{
    if let Ok(result) = outcomes(chain.at) {
        let tally = chain.tally.counting(result);
        lemma_next_command(chain.plan.operators, chain.at + 1, tally.exit_code);
        lemma_skipping(chain.plan, chain.at + 1, tally, outcomes);
        match chain_step(chain, outcomes(chain.at)) {
            ChainStepView::Running(next) => {
                law_chain_keeps_shell_semantics(next, outcomes);
            },
            ChainStepView::Finished(_) => {},
        }
    }
}

/// A chain goes only forward, over commands that their operators keep from running.
pub proof fn law_chain_goes_forward(chain: ChainView, outcome: Result<ResultView, ErrorView>)
    requires
        chain.well_formed(),
    ensures
        chain_step(chain, outcome) matches ChainStepView::Running(next) ==> {
            &&& next.well_formed()
            &&& next.at > chain.at
            &&& next.plan == chain.plan
            &&& next.routes == chain.routes
            &&& forall|i: int|
                chain.at < i < next.at ==> !plan::runs_after(
                    #[trigger] chain.plan.operators[i - 1],
                    next.tally.exit_code,
                )
        },
{
    if let Ok(result) = outcome {
        let tally = chain.tally.counting(result);
        lemma_next_command(chain.plan.operators, chain.at + 1, tally.exit_code);
    }
}

/// A chain that fails once one of its commands has run may have had effects, whatever the
/// failure is, and keeps what was written before it.
pub proof fn law_chain_failure_keeps_earlier_output(tally: TallyView, error: ErrorView)
    requires
        tally.executed_any,
    ensures
        tally.failure(error) matches ErrorView::MayHaveStarted { partial, .. } && {
            &&& tally.stdout.is_prefix_of(partial.stdout)
            &&& tally.stderr.is_prefix_of(partial.stderr)
            &&& tally.stdout_truncated ==> partial.stdout_truncated
            &&& tally.stderr_truncated ==> partial.stderr_truncated
        },
{
}

/// A chain of which something has run never counts as not started.
proof fn lemma_running_chain_has_started(
    chain: ChainView,
    outcomes: spec_fn(int) -> Result<ResultView, ErrorView>,
)
    requires
        chain.well_formed(),
        chain.plan.commands.len() > 1,
        chain.tally.executed_any,
    ensures
        !(resumed_to_end(chain, outcomes) matches Err(ErrorView::BeforeStart(_))),
    decreases chain.plan.commands.len() - chain.at,
{
    if let Ok(result) = outcomes(chain.at) {
        let tally = chain.tally.counting(result);
        lemma_next_command(chain.plan.operators, chain.at + 1, tally.exit_code);
        if let ChainStepView::Running(next) = chain_step(chain, outcomes(chain.at)) {
            lemma_running_chain_has_started(next, outcomes);
        }
    }
}

/// A chain that counts as not started ran nothing: its first command failed before its start, with
/// that very failure.
pub proof fn law_unstarted_chain_ran_nothing(
    plan: PlanView,
    routes: Seq<FilterRoute>,
    outcomes: spec_fn(int) -> Result<ResultView, ErrorView>,
    error: BeforeStartError,
)
    requires
        runnable(plan, routes),
        resumed_to_end(chain_start(plan, routes), outcomes) == Err::<ResultView, ErrorView>(
            ErrorView::BeforeStart(error),
        ),
    ensures
        outcomes(0) == Err::<ResultView, ErrorView>(ErrorView::BeforeStart(error)),
{
    let chain = chain_start(plan, routes);
    if plan.commands.len() > 1 {
        if let Ok(result) = outcomes(0) {
            let tally = chain.tally.counting(result);
            lemma_next_command(plan.operators, 1, tally.exit_code);
            if let ChainStepView::Running(next) = chain_step(chain, outcomes(0)) {
                lemma_running_chain_has_started(next, outcomes);
            }
        }
    }
}

/// Chained output holds both outputs whole, the second one at the start of a line: a newline comes
/// between them exactly if both hold something and the first does not end with one.
pub proof fn law_chained_output_keeps_both(output: Seq<char>, next: Seq<char>)
    ensures
        ({
            let both = failure::chained(output, next);
            &&& output.is_prefix_of(both)
            &&& next.is_suffix_of(both)
            &&& both.len() <= output.len() + 1 + next.len()
            &&& output.len() > 0 && next.len() > 0 ==> both[both.len() - next.len() - 1] == '\n'
            &&& both.len() == output.len() + next.len() + (if output.len() > 0 && next.len() > 0
                && output.last() != '\n' {
                1int
            } else {
                0int
            })
        }),
{
    let both = failure::chained(output, next);
    assert(both.skip(both.len() - next.len()) == next);
}

/// Counting a command in adds its output behind what was there, takes over its exit code, and
/// remembers whether everything was filtered and whether anything was cut off.
pub proof fn law_counting_adds_one_result(tally: TallyView, result: ResultView)
    ensures
        ({
            let after = tally.counting(result);
            &&& tally.stdout.is_prefix_of(after.stdout)
            &&& result.stdout.is_suffix_of(after.stdout)
            &&& tally.stderr.is_prefix_of(after.stderr)
            &&& result.stderr.is_suffix_of(after.stderr)
            &&& tally.stdout.len() == 0 ==> after.stdout == result.stdout
            &&& tally.stderr.len() == 0 ==> after.stderr == result.stderr
            &&& result.stdout.len() == 0 ==> after.stdout == tally.stdout
            &&& result.stderr.len() == 0 ==> after.stderr == tally.stderr
            &&& after.stdout.len() <= tally.stdout.len() + 1 + result.stdout.len()
            &&& after.stderr.len() <= tally.stderr.len() + 1 + result.stderr.len()
            &&& after.exit_code == result.exit_code
            &&& after.executed_any
            &&& after.all_filtered <==> tally.all_filtered && result.route is Filtered
            &&& after.stdout_truncated <==> tally.stdout_truncated || result.stdout_truncated
            &&& after.stderr_truncated <==> tally.stderr_truncated || result.stderr_truncated
        }),
{
    law_chained_output_keeps_both(tally.stdout, result.stdout);
    law_chained_output_keeps_both(tally.stderr, result.stderr);
    assert(Seq::<char>::empty() + result.stdout == result.stdout);
    assert(Seq::<char>::empty() + result.stderr == result.stderr);
    if tally.stdout.len() == 0 {
        assert(tally.stdout == Seq::<char>::empty());
        assert(tally.stdout + result.stdout == result.stdout);
        assert(tally.counting(result).stdout == result.stdout);
    }
    if tally.stderr.len() == 0 {
        assert(tally.stderr == Seq::<char>::empty());
        assert(tally.stderr + result.stderr == result.stderr);
        assert(tally.counting(result).stderr == result.stderr);
    }
}

/// What a chain comes to at its end is what was counted in, under the name `chain`, and counts as
/// filtered exactly if every command of it that ran was.
pub proof fn law_chain_result_is_its_tally(tally: TallyView)
    ensures
        tally.result().stdout == tally.stdout,
        tally.result().stderr == tally.stderr,
        tally.result().exit_code == tally.exit_code,
        tally.result().stdout_truncated == tally.stdout_truncated,
        tally.result().stderr_truncated == tally.stderr_truncated,
        tally.all_filtered ==> tally.result().route == (RouteView::Filtered { tool: "chain"@ }),
        !tally.all_filtered ==> tally.result().route == (RouteView::DirectPassthrough {
            tool: "chain"@,
        }),
{
}

/// A command that fails with `exit_code` keeps what `&&` joins to it from running, and one that
/// succeeds what `||` joins to it: the chain of two then comes to the first command alone, with its
/// exit code and its output. Where the second command runs, the exit code is that of the second.
pub proof fn law_two_commands_follow_the_shell(
    plan: PlanView,
    outcomes: spec_fn(int) -> Result<ResultView, ErrorView>,
    first: ResultView,
    second: ResultView,
)
    requires
        plan.commands.len() == 2,
        plan.operators.len() == 1,
        outcomes(0) == Ok::<ResultView, ErrorView>(first),
        outcomes(1) == Ok::<ResultView, ErrorView>(second),
    ensures
        chain_outcome(plan, 0, empty_tally(), outcomes) matches Ok(result) && {
            let skipped = {
                ||| plan.operators[0] == ChainOperator::And && first.exit_code != 0
                ||| plan.operators[0] == ChainOperator::Or && first.exit_code == 0
            };
            &&& skipped ==> {
                &&& result.exit_code == first.exit_code
                &&& result.stdout == first.stdout
                &&& result.stderr == first.stderr
                &&& result.route is Filtered <==> first.route is Filtered
                &&& result.stdout_truncated == first.stdout_truncated
                &&& result.stderr_truncated == first.stderr_truncated
            }
            &&& !skipped ==> {
                &&& result.exit_code == second.exit_code
                &&& first.stdout.is_prefix_of(result.stdout)
                &&& second.stdout.is_suffix_of(result.stdout)
                &&& first.stderr.is_prefix_of(result.stderr)
                &&& second.stderr.is_suffix_of(result.stderr)
                &&& result.route is Filtered <==> first.route is Filtered && second.route
                    is Filtered
                &&& result.stdout_truncated == (first.stdout_truncated || second.stdout_truncated)
                &&& result.stderr_truncated == (first.stderr_truncated || second.stderr_truncated)
            }
        },
{
    reveal_with_fuel(chain_outcome, 4);
    let tally = empty_tally().counting(first);
    law_counting_adds_one_result(empty_tally(), first);
    law_counting_adds_one_result(tally, second);
}

/// After a command that was run, the commands behind it are skipped exactly as long as their
/// operators forbid them: a failure skips what `&&` joins, a success what `||` joins, and `;` is
/// never skipped.
pub proof fn law_next_command_is_the_first_allowed(
    operators: Seq<ChainOperator>,
    from: int,
    exit_code: i32,
)
    requires
        0 < from <= operators.len() + 1,
    ensures
        ({
            let next = next_command(operators, from, exit_code);
            &&& from <= next <= operators.len() + 1
            &&& next <= operators.len() ==> {
                ||| operators[next - 1] == ChainOperator::Sequence
                ||| operators[next - 1] == ChainOperator::And && exit_code == 0
                ||| operators[next - 1] == ChainOperator::Or && exit_code != 0
            }
            &&& forall|i: int|
                from <= i < next ==> {
                    ||| #[trigger] operators[i - 1] == ChainOperator::And && exit_code != 0
                    ||| operators[i - 1] == ChainOperator::Or && exit_code == 0
                }
        }),
{
    lemma_next_command(operators, from, exit_code);
}

/// What a chain does with the outcome of its command: a single command is its own outcome, a failure
/// ends the chain, and a result is counted in before the next command or the end.
pub proof fn law_chain_takes_every_outcome(
    chain: ChainView,
    outcome: Result<ResultView, ErrorView>,
)
    requires
        chain.well_formed(),
    ensures
        chain.plan.commands.len() == 1 ==> chain_step(chain, outcome) == ChainStepView::Finished(
            outcome,
        ),
        chain.plan.commands.len() > 1 && outcome is Err ==> chain_step(chain, outcome)
            matches ChainStepView::Finished(Err(_)),
        chain.plan.commands.len() > 1 ==> (outcome matches Ok(result) ==> match chain_step(
            chain,
            outcome,
        ) {
            ChainStepView::Running(next) => {
                &&& next.tally == chain.tally.counting(result)
                &&& next.tally.exit_code == result.exit_code
            },
            ChainStepView::Finished(end) => {
                &&& end matches Ok(total)
                &&& total.exit_code == result.exit_code
                &&& total == chain.tally.counting(result).result()
            },
        }),
{
}

/// The failure of a command of a chain stays what it is as long as nothing has run before it. Then
/// it keeps its kind and is cut off exactly where it or what came before it was.
pub proof fn law_chain_failure_is_that_of_its_command(tally: TallyView, error: ErrorView)
    ensures
        !tally.executed_any ==> tally.failure(error) == error,
        tally.executed_any ==> (error matches ErrorView::MayHaveStarted { kind: own_kind, partial: own }
            ==> {
            &&& tally.failure(error) matches ErrorView::MayHaveStarted { kind, partial }
            &&& kind == own_kind
            &&& own.stdout.is_suffix_of(partial.stdout)
            &&& own.stderr.is_suffix_of(partial.stderr)
            &&& own.stdout.len() == 0 ==> partial.stdout == tally.stdout
            &&& own.stderr.len() == 0 ==> partial.stderr == tally.stderr
            &&& partial.stdout_truncated == (tally.stdout_truncated || own.stdout_truncated)
            &&& partial.stderr_truncated == (tally.stderr_truncated || own.stderr_truncated)
        }),
        tally.executed_any && error is BeforeStart ==> {
            &&& tally.failure(error) matches ErrorView::MayHaveStarted { kind, partial }
            &&& partial.stdout == tally.stdout
            &&& partial.stderr == tally.stderr
            &&& partial.stdout_truncated == tally.stdout_truncated
            &&& partial.stderr_truncated == tally.stderr_truncated
            &&& error == ErrorView::BeforeStart(BeforeStartError::Cancelled) ==> kind is Cancelled
            &&& error == ErrorView::BeforeStart(BeforeStartError::TimedOut) ==> kind is TimedOut
        },
{
    if let ErrorView::MayHaveStarted { kind, partial: own } = error {
        law_chained_output_keeps_both(tally.stdout, own.stdout);
        law_chained_output_keeps_both(tally.stderr, own.stderr);
    }
}

} // verus!
