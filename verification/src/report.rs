//! Comparing what was observed with what was expected, and reporting how a
//! scenario went.

use crate::failure::{
    bare, failure_of, in_context, mismatch_text, rendered, wrap_err, wrap_err_for, Failure,
    FailureView,
};
use crate::show::Comparable;
use vstd::prelude::*;

verus! {

/// What comparing `observed` with `expected` yields: nothing where they
/// are equal, else the failure that shows both.
pub open spec fn compared<A: Comparable>(observed: A, expected: A) -> Option<FailureView> {
    if expected.agrees(&observed) {
        None
    } else {
        Some(bare(mismatch_text(observed.text(), expected.text())))
    }
}

/// What comparing yields, with `context` laid around the failure.
pub open spec fn checked<A: Comparable>(observed: A, expected: A, context: Seq<char>) -> Option<
    FailureView,
> {
    in_context(compared(observed, expected), context)
}

/// Holds the observed value `a` against the expected value `b`.
pub fn assert_eq<A: Comparable>(a: A, b: A) -> (outcome: Result<(), Failure>)
    ensures
        failure_of(outcome) == compared(a, b),
{
    compare(&a, &b)
}

/// Holds the observed value `a` against the expected value `b`.
pub fn assert_eq_borrow<A: Comparable>(a: &A, b: A) -> (outcome: Result<(), Failure>)
    ensures
        failure_of(outcome) == compared(*a, b),
{
    compare(a, &b)
}

/// Holds the observed value against the expected one, both borrowed.
pub fn compare<A: Comparable>(observed: &A, expected: &A) -> (outcome: Result<(), Failure>)
    ensures
        failure_of(outcome) == compared(*observed, *expected),
{
    if expected.same(observed) {
        Ok(())
    } else {
        let saw = observed.show();
        let wanted = expected.show();
        Err(Failure::mismatch(saw.as_str(), wanted.as_str()))
    }
}

/// Holds the observed value against the expected one, and lays `context`
/// around the failure.
pub fn check<A: Comparable>(observed: &A, expected: &A, context: &str) -> (outcome: Result<
    (),
    Failure,
>)
    ensures
        failure_of(outcome) == checked(*observed, *expected, context@),
{
    wrap_err(compare(observed, expected), context)
}

/// Holds the observed value against the expected one, and lays a context
/// around the failure: `what` followed by `name`.
pub fn check_for<A: Comparable>(observed: &A, expected: &A, what: &str, name: &str) -> (outcome:
    Result<(), Failure>)
    ensures
        failure_of(outcome) == checked(*observed, *expected, what@ + name@),
{
    wrap_err_for(compare(observed, expected), what, name)
}

/// How a piece of a report line is to be coloured.
#[derive(Clone, Copy, Debug, PartialEq, Eq, Structural)]
pub enum Tint {
    Plain,
    Green,
    Red,
}

/// A piece of a report line, as plain text.
pub struct SpanView {
    pub tint: Tint,
    pub text: Seq<char>,
}

/// A piece of a report line: some text in one colour.
#[derive(Clone, Debug)]
pub struct Span {
    pub tint: Tint,
    pub text: String,
}

impl DeepView for Span {
    type V = SpanView;

    open spec fn deep_view(&self) -> SpanView {
        SpanView { tint: self.tint, text: self.text@ }
    }
}

/// One line of the report.
#[derive(Clone, Debug)]
pub struct Line {
    pub spans: Vec<Span>,
}

impl View for Line {
    type V = Seq<SpanView>;

    open spec fn view(&self) -> Seq<SpanView> {
        self.spans.deep_view()
    }
}

impl DeepView for Line {
    type V = Seq<SpanView>;

    open spec fn deep_view(&self) -> Seq<SpanView> {
        self.spans.deep_view()
    }
}

/// A piece of text without colour.
pub open spec fn plain(text: Seq<char>) -> SpanView {
    SpanView { tint: Tint::Plain, text }
}

/// A piece of text in green.
pub open spec fn green(text: Seq<char>) -> SpanView {
    SpanView { tint: Tint::Green, text }
}

/// A piece of text in red.
pub open spec fn red(text: Seq<char>) -> SpanView {
    SpanView { tint: Tint::Red, text }
}

/// The line that opens the report of a scenario.
pub open spec fn heading(name: Seq<char>) -> Seq<SpanView> {
    seq![plain(" - "@ + name)]
}

/// The line that reports a step: its name in green where it went well,
/// else in red, with the failure behind it.
pub open spec fn step_line(name: Seq<char>, failure: Option<FailureView>) -> Seq<SpanView> {
    match failure {
        None => seq![plain("    - "@), green(name)],
        Some(failure) => seq![plain("    - "@), red(name), plain(": "@ + rendered(failure))],
    }
}

/// What is being awaited in the run of a scenario.
#[derive(Clone, Copy, Debug, PartialEq, Eq, Structural)]
pub enum Stage {
    /// The store is being brought back to the fixture.
    Resetting,
    /// The body of the scenario is running.
    Running,
    /// The scenario is over.
    Finished { passed: bool },
}

/// The stage that follows when what was awaited in `stage` has ended,
/// well or not. A reset that fails ends the scenario: its body never
/// runs.
pub open spec fn next_stage(stage: Stage, well: bool) -> Stage {
    match stage {
        Stage::Resetting => if well {
            Stage::Running
        } else {
            Stage::Finished { passed: false }
        },
        Stage::Running => Stage::Finished { passed: well },
        Stage::Finished { passed } => stage,
    }
}

/// The lines that report how what was awaited in `stage` has ended.
pub open spec fn run_lines(stage: Stage, failure: Option<FailureView>) -> Seq<Seq<SpanView>> {
    match stage {
        Stage::Resetting => match failure {
            None => seq![seq![plain("    - "@), green("Reset api server"@)]],
            Some(failure) => seq![
                seq![plain("   "@), red("Reset api server"@), plain(": "@ + rendered(failure))],
                seq![plain("      "@), red("\u{274c}"@)],
            ],
        },
        Stage::Running => match failure {
            None => seq![seq![plain("      "@), green("\u{2713}"@)]],
            Some(failure) => seq![
                seq![plain("      "@), red("\u{274c}"@), plain(": "@ + rendered(failure))],
            ],
        },
        Stage::Finished { passed } => seq![],
    }
}

/// A scenario passes exactly when its reset and its body both went well.
pub proof fn lemma_passes_when_both_went_well(reset: bool, body: bool)
    ensures
        next_stage(next_stage(Stage::Resetting, reset), body) == (Stage::Finished {
            passed: reset && body,
        }),
{
}

/// A scenario that is over stays as it is and reports nothing more.
pub proof fn lemma_finished_stays(passed: bool, well: bool, failure: Option<FailureView>)
    ensures
        next_stage(Stage::Finished { passed }, well) == (Stage::Finished { passed }),
        run_lines(Stage::Finished { passed }, failure).len() == 0,
{
}

fn span(tint: Tint, text: &str) -> (span: Span)
    ensures
        span.deep_view() == (SpanView { tint, text: text@ }),
{
    Span { tint, text: String::from_str(text) }
}

fn tail(failure: &Failure) -> (span: Span)
    ensures
        span.deep_view() == plain(": "@ + rendered(failure@)),
{
    let mut text = String::from_str(": ");
    text.append(failure.render().as_str());
    Span { tint: Tint::Plain, text }
}

fn line_of_two(first: Span, second: Span) -> (line: Line)
    ensures
        line@ == seq![first.deep_view(), second.deep_view()],
{
    let mut spans: Vec<Span> = Vec::new();
    spans.push(first);
    spans.push(second);
    assert(spans.deep_view() =~= seq![first.deep_view(), second.deep_view()]);
    Line { spans }
}

fn line_of_three(first: Span, second: Span, third: Span) -> (line: Line)
    ensures
        line@ == seq![first.deep_view(), second.deep_view(), third.deep_view()],
{
    let mut spans: Vec<Span> = Vec::new();
    spans.push(first);
    spans.push(second);
    spans.push(third);
    assert(spans.deep_view() =~= seq![first.deep_view(), second.deep_view(), third.deep_view()]);
    Line { spans }
}

/// The run of one scenario: the store is reset, then the body runs, and
/// each of the two is reported as it ends.
#[derive(Clone, Copy, Debug)]
pub struct Test {
    pub stage: Stage,
}

impl Test {
    /// Starts the run of the scenario `name`: the reset is awaited first.
    /// The line opens the report.
    pub fn new(name: &str) -> (started: (Test, Line))
        ensures
            started.0.stage == Stage::Resetting,
            started.1@ == heading(name@),
    {
        let mut text = String::from_str(" - ");
        text.append(name);
        let mut spans: Vec<Span> = Vec::new();
        spans.push(Span { tint: Tint::Plain, text });
        assert(spans.deep_view() =~= heading(name@));
        (Test { stage: Stage::Resetting }, Line { spans })
    }

    /// Takes how what was awaited has ended, moves on to the next stage and
    /// gives the lines that report it. After a reset that failed the body
    /// is not run; the failure of a body goes no further than its line.
    pub fn run(&mut self, outcome: Result<(), Failure>) -> (lines: Vec<Line>)
        ensures
            final(self).stage == next_stage(old(self).stage, outcome is Ok),
            lines.deep_view() == run_lines(old(self).stage, failure_of(outcome)),
    {
        let mut lines: Vec<Line> = Vec::new();
        match self.stage {
            Stage::Resetting => match outcome {
                Ok(_) => {
                    lines.push(
                        line_of_two(span(Tint::Plain, "    - "), span(Tint::Green, "Reset api server")),
                    );
                    self.stage = Stage::Running;
                },
                Err(failure) => {
                    lines.push(
                        line_of_three(
                            span(Tint::Plain, "   "),
                            span(Tint::Red, "Reset api server"),
                            tail(&failure),
                        ),
                    );
                    lines.push(line_of_two(span(Tint::Plain, "      "), span(Tint::Red, "\u{274c}")));
                    self.stage = Stage::Finished { passed: false };
                },
            },
            Stage::Running => match outcome {
                Ok(_) => {
                    lines.push(line_of_two(span(Tint::Plain, "      "), span(Tint::Green, "\u{2713}")));
                    self.stage = Stage::Finished { passed: true };
                },
                Err(failure) => {
                    lines.push(
                        line_of_three(
                            span(Tint::Plain, "      "),
                            span(Tint::Red, "\u{274c}"),
                            tail(&failure),
                        ),
                    );
                    self.stage = Stage::Finished { passed: false };
                },
            },
            Stage::Finished { passed } => {},
        }
        assert(lines.deep_view() =~= run_lines(old(self).stage, failure_of(outcome)));
        lines
    }

    /// Reports one step of the scenario and hands its outcome on as it
    /// came, so that the steps that follow can build on it or be left out.
    pub fn step<T>(&self, name: &str, outcome: Result<T, Failure>) -> (reported: (
        Line,
        Result<T, Failure>,
    ))
        ensures
            reported.1 == outcome,
            reported.0@ == step_line(
                name@,
                match outcome {
                    Ok(_) => None,
                    Err(failure) => Some(failure@),
                },
            ),
    {
        let line = match &outcome {
            Ok(_) => line_of_two(span(Tint::Plain, "    - "), span(Tint::Green, name)),
            Err(failure) => line_of_three(
                span(Tint::Plain, "    - "),
                span(Tint::Red, name),
                tail(failure),
            ),
        };
        (line, outcome)
    }
}

/// Whether every scenario of `passed` passed.
pub open spec fn all_passed(passed: Seq<bool>) -> bool {
    forall|i: int| 0 <= i < passed.len() ==> passed[i]
}

/// The code with which the run ends: 0 where every scenario passed, else
/// 1.
pub open spec fn exit_code_of(passed: Seq<bool>) -> i32 {
    if all_passed(passed) {
        0
    } else {
        1
    }
}

/// The scenarios that have run so far, each with whether it passed. One
/// that fails does not keep the next from running.
#[derive(Clone, Debug)]
pub struct Suite {
    pub passed: Vec<bool>,
}

impl Suite {
    /// A suite of which no scenario has run yet.
    pub fn new() -> (suite: Suite)
        ensures
            suite.passed@ == Seq::<bool>::empty(),
    {
        Suite { passed: Vec::new() }
    }

    /// Takes down how a scenario ended.
    pub fn record(&mut self, passed: bool)
        ensures
            final(self).passed@ == old(self).passed@.push(passed),
    {
        self.passed.push(passed);
    }

    /// Whether every scenario passed so far.
    pub fn success(&self) -> (success: bool)
        ensures
            success == all_passed(self.passed@),
    {
        let mut at: usize = 0;
        while at < self.passed.len()
            invariant
                at <= self.passed@.len(),
                forall|i: int| 0 <= i < at ==> self.passed@[i],
            decreases self.passed@.len() - at,
        {
            if !self.passed[at] {
                return false;
            }
            at = at + 1;
        }
        true
    }

    /// The code with which the run ends.
    pub fn exit_code(&self) -> (code: i32)
        ensures
            code == exit_code_of(self.passed@),
    {
        if self.success() {
            0
        } else {
            1
        }
    }
}

/// One scenario that failed makes the run fail, whatever ran before it
/// and whatever runs after it.
pub proof fn lemma_one_failure_fails_the_run(before: Seq<bool>, after: Seq<bool>)
    ensures
        exit_code_of(before.push(false) + after) == 1,
{
    let all = before.push(false) + after;
    assert(!all[before.len() as int]);
}

/// A run in which every scenario passed stays so with one more that
/// passes.
pub proof fn lemma_passing_keeps_the_run(passed: Seq<bool>)
    requires
        all_passed(passed),
    ensures
        exit_code_of(passed.push(true)) == 0,
{
}

} // verus!
