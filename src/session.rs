//! Running a routine: which step comes next, given what became of the steps
//! before it.
//!
//! The session only decides. Its driver spawns the step that `pending` names,
//! waits for it, and reports what happened with `record`. Steps run one at a
//! time in order; a step that could not be run halts the routine, and a
//! program's exit status does not.

use vstd::prelude::*;
use crate::plan::{link_plan, link_steps};
use crate::step::{step_views, Step, StepView};
use crate::text::{directories_of, lines_of, listed_directories};

verus! {

/// What became of a step.
#[derive(Clone, Debug)]
pub enum Outcome {
    /// The program ran to its end, whatever its exit status.
    Exited,
    /// The program ran to its end and wrote this text to its output.
    Output(String),
    /// The program could not be started or waited for.
    Failed,
}

/// What became of a step, as plain values.
pub enum OutcomeView {
    Exited,
    Output(Seq<char>),
    Failed,
}

impl View for Outcome {
    type V = OutcomeView;

    open spec fn view(&self) -> OutcomeView {
        match self {
            Outcome::Exited => OutcomeView::Exited,
            Outcome::Output(t) => OutcomeView::Output(t@),
            Outcome::Failed => OutcomeView::Failed,
        }
    }
}

/// A routine being run, as plain values: its steps so far, the index of the
/// next one, and whether it was halted.
pub struct SessionView {
    pub steps: Seq<StepView>,
    pub next: nat,
    pub halted: bool,
}

/// A routine about to start.
pub open spec fn start(steps: Seq<StepView>) -> SessionView {
    SessionView { steps, next: 0, halted: false }
}

/// The step to run next, if any.
pub open spec fn current(s: SessionView) -> Option<StepView> {
    if !s.halted && s.next < s.steps.len() {
        Some(s.steps[s.next as int])
    } else {
        None
    }
}

/// The session after the outcome of its current step is known. A failure
/// halts it; the output of a collected listing adds one link step for each
/// directory listed.
pub open spec fn advance(s: SessionView, o: OutcomeView) -> SessionView {
    match current(s) {
        None => s,
        Some(step) => match o {
            OutcomeView::Failed => SessionView { halted: true, ..s },
            OutcomeView::Exited => SessionView { next: s.next + 1, ..s },
            OutcomeView::Output(text) => SessionView {
                steps: if step.capture {
                    s.steps + link_plan(directories_of(lines_of(text)), step.dir)
                } else {
                    s.steps
                },
                next: s.next + 1,
                ..s
            },
        },
    }
}

/// The steps run while the outcomes `outs` are reported, one after another,
/// starting from `s`: each outcome answers one step.
pub open spec fn issued(s: SessionView, outs: Seq<OutcomeView>) -> Seq<StepView>
    decreases outs.len(),
{
    if outs.len() == 0 {
        Seq::empty()
    } else {
        match current(s) {
            None => Seq::empty(),
            Some(step) => seq![step] + issued(advance(s, outs[0]), outs.drop_first()),
        }
    }
}

/// A routine being run.
pub struct Session {
    steps: Vec<Step>,
    next: usize,
    halted: bool,
}

impl View for Session {
    type V = SessionView;

    closed spec fn view(&self) -> SessionView {
        SessionView { steps: step_views(self.steps@), next: self.next as nat, halted: self.halted }
    }
}

impl Session {
    /// A routine that runs `steps`, starting with the first.
    pub fn new(steps: Vec<Step>) -> (r: Session)
        ensures
            r@ == start(step_views(steps@)),
    {
        Session { steps, next: 0, halted: false }
    }

    /// The step to run next; none once the routine is finished or halted.
    pub fn pending(&self) -> (r: Option<&Step>)
        ensures
            match r {
                Some(step) => current(self@) == Some(step@),
                None => current(self@) is None,
            },
    {
        if !self.halted && self.next < self.steps.len() {
            Some(&self.steps[self.next])
        } else {
            None
        }
    }

    /// Whether a step failed, which halted the routine.
    pub fn is_halted(&self) -> (r: bool)
        ensures
            r == self@.halted,
    {
        self.halted
    }

    /// Whether every step ran.
    pub fn is_finished(&self) -> (r: bool)
        ensures
            r == (!self@.halted && self@.next >= self@.steps.len()),
    {
        !self.halted && self.next >= self.steps.len()
    }

    /// Report what became of the pending step.
    pub fn record(&mut self, outcome: Outcome)
        ensures
            final(self)@ == advance(old(self)@, outcome@),
    {
        if self.halted || self.next >= self.steps.len() {
            return;
        }
        match outcome {
            Outcome::Failed => {
                self.halted = true;
            },
            Outcome::Exited => {
                self.next = self.next + 1;
            },
            Outcome::Output(text) => {
                let capture = self.steps[self.next].capture;
                if capture {
                    let dirs = listed_directories(text.as_str());
                    let mut links = link_steps(&dirs, &self.steps[self.next].dir);
                    let ghost before = self.steps@;
                    self.steps.append(&mut links);
                    proof {
                        assert(step_views(self.steps@) =~= step_views(before) + link_plan(
                            directories_of(lines_of(text@)),
                            step_views(before)[self.next as int].dir,
                        ));
                    }
                }
                self.next = self.next + 1;
            },
        }
    }
}

} // verus!
