//! A step: one external program to run, with everything needed to run it.

use vstd::prelude::*;
use crate::text::views;

verus! {

/// One invocation of an external program.
#[derive(Clone, Debug)]
pub struct Step {
    /// The program to run.
    pub program: String,
    /// Its arguments, in order.
    pub args: Vec<String>,
    /// The working directory; the caller's own where there is none.
    pub dir: Option<String>,
    /// Text to write to the program's standard input.
    pub input: Option<String>,
    /// Whether the program's standard output is collected and reported back.
    pub capture: bool,
    /// A line to show before the program runs.
    pub notice: Option<String>,
}

/// What a step is, as plain values.
pub struct StepView {
    pub program: Seq<char>,
    pub args: Seq<Seq<char>>,
    pub dir: Option<Seq<char>>,
    pub input: Option<Seq<char>>,
    pub capture: bool,
    pub notice: Option<Seq<char>>,
}

pub open spec fn opt_view(o: Option<String>) -> Option<Seq<char>> {
    match o {
        Some(s) => Some(s@),
        None => None,
    }
}

impl View for Step {
    type V = StepView;

    open spec fn view(&self) -> StepView {
        StepView {
            program: self.program@,
            args: views(self.args@),
            dir: opt_view(self.dir),
            input: opt_view(self.input),
            capture: self.capture,
            notice: opt_view(self.notice),
        }
    }
}

/// The views of a sequence of steps.
pub open spec fn step_views(v: Seq<Step>) -> Seq<StepView> {
    v.map_values(|s: Step| s@)
}

/// `program` run with `args` in the caller's working directory.
pub open spec fn run(program: Seq<char>, args: Seq<Seq<char>>) -> StepView {
    StepView { program, args, dir: None, input: None, capture: false, notice: None }
}

/// `program` run with `args` in `dir`.
pub open spec fn run_in(program: Seq<char>, args: Seq<Seq<char>>, dir: Seq<char>) -> StepView {
    StepView { program, args, dir: Some(dir), input: None, capture: false, notice: None }
}

/// `s` with `input` written to its standard input.
pub open spec fn fed(s: StepView, input: Seq<char>) -> StepView {
    StepView { input: Some(input), ..s }
}

/// `s` with its standard output collected.
pub open spec fn collected(s: StepView) -> StepView {
    StepView { capture: true, ..s }
}

/// `s` preceded by the line `notice`.
pub open spec fn announced(s: StepView, notice: Seq<char>) -> StepView {
    StepView { notice: Some(notice), ..s }
}

/// A new string holding `a` followed by `b`.
pub fn join(a: &str, b: &str) -> (r: String)
    ensures
        r@ == a@ + b@,
{
    let mut r = String::from_str(a);
    r.append(b);
    r
}

impl Step {
    /// `program` run with `args` in the caller's working directory.
    pub fn new(program: &str, args: Vec<String>) -> (r: Step)
        ensures
            r@ == run(program@, views(args@)),
    {
        Step {
            program: String::from_str(program),
            args,
            dir: None,
            input: None,
            capture: false,
            notice: None,
        }
    }

    /// This step, run in `dir`.
    pub fn in_dir(self, dir: String) -> (r: Step)
        ensures
            r@ == (StepView { dir: Some(dir@), ..self@ }),
    {
        Step { dir: Some(dir), ..self }
    }

    /// This step, with `input` written to its standard input.
    pub fn fed(self, input: String) -> (r: Step)
        ensures
            r@ == fed(self@, input@),
    {
        Step { input: Some(input), ..self }
    }

    /// This step, with its standard output collected.
    pub fn collected(self) -> (r: Step)
        ensures
            r@ == collected(self@),
    {
        Step { capture: true, ..self }
    }

    /// This step, preceded by the line `notice`.
    pub fn announced(self, notice: &str) -> (r: Step)
        ensures
            r@ == announced(self@, notice@),
    {
        Step { notice: Some(String::from_str(notice)), ..self }
    }
}

} // verus!
