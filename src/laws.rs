//! Properties of routines that relate several steps or calls.

use vstd::prelude::*;
use crate::config::ConfigView;
use crate::dispatch::{plan_of, Action};
use crate::plan::{dotfiles_url, placeholder};
use crate::session::{advance, current, issued, start, OutcomeView, SessionView};
use crate::step::StepView;
use crate::text::{occurs_at, occurs_in, replace_all};

verus! {

/// A halted routine runs nothing more, whatever is reported to it.
pub proof fn lemma_halted_runs_nothing(s: SessionView, outs: Seq<OutcomeView>)
    requires
        s.halted,
    ensures
        current(s) is None,
        issued(s, outs) == Seq::<StepView>::empty(),
{
}

/// Once a step fails, no later step of the routine runs: the steps run while
/// `outs` are reported are those run up to and including the failed one.
pub proof fn lemma_failure_halts(s: SessionView, outs: Seq<OutcomeView>, k: int)
    requires
        0 <= k < outs.len(),
        outs[k] is Failed,
    ensures
        issued(s, outs) == issued(s, outs.take(k + 1)),
        issued(s, outs).len() <= k + 1,
    decreases k,
{
    let head = outs.take(k + 1);
    assert(head[0] == outs[0]);
    match current(s) {
        None => {},
        Some(step) => {
            let next = advance(s, outs[0]);
            assert(head.drop_first() =~= outs.drop_first().take(k));
            if k == 0 {
                lemma_halted_runs_nothing(next, outs.drop_first());
                lemma_halted_runs_nothing(next, head.drop_first());
            } else {
                lemma_failure_halts(next, outs.drop_first(), k - 1);
            }
        },
    }
}

/// Steps run strictly in order: while no step fails and none lists a
/// directory, the steps run are the routine's next steps, one per outcome.
pub proof fn lemma_runs_in_order(s: SessionView, outs: Seq<OutcomeView>)
    requires
        !s.halted,
        s.next + outs.len() <= s.steps.len(),
        forall|i: int| 0 <= i < outs.len() ==> !(#[trigger] outs[i] is Failed),
        forall|i: int| s.next <= i < s.steps.len() ==> !(#[trigger] s.steps[i]).capture,
    ensures
        issued(s, outs) == s.steps.subrange(s.next as int, s.next + outs.len() as int),
    decreases outs.len(),
{
    if outs.len() > 0 {
        let next = advance(s, outs[0]);
        assert(next.steps == s.steps);
        assert forall|i: int| 0 <= i < outs.drop_first().len() implies !(
        #[trigger] outs.drop_first()[i] is Failed) by {
            assert(outs.drop_first()[i] == outs[i + 1]);
        }
        lemma_runs_in_order(next, outs.drop_first());
        assert(issued(s, outs) =~= s.steps.subrange(s.next as int, s.next + outs.len() as int));
    }
}

/// `uninstall` runs no program.
pub proof fn lemma_uninstall_runs_nothing(
    config: ConfigView,
    secret: Seq<char>,
    outs: Seq<OutcomeView>,
)
    ensures
        plan_of(Action::Uninstall, config, secret).len() == 0,
        issued(start(plan_of(Action::Uninstall, config, secret)), outs) == Seq::<StepView>::empty(),
{
}

proof fn lemma_replace_absent(s: Seq<char>, pat: Seq<char>, rep: Seq<char>)
    requires
        pat.len() > 0,
        !occurs_in(s, pat),
    ensures
        replace_all(s, pat, rep) == s,
    decreases s.len(),
{
    if s.len() >= pat.len() {
        if s.take(pat.len() as int) == pat {
            assert(s.subrange(0, pat.len() as int) == s.take(pat.len() as int));
            assert(occurs_at(s, pat, 0));
        } else {
            let rest = s.skip(1);
            assert forall|i: int| !occurs_at(rest, pat, i) by {
                if occurs_at(rest, pat, i) {
                    assert(s.subrange(i + 1, i + 1 + pat.len()) =~= rest.subrange(i, i + pat.len()));
                    assert(occurs_at(s, pat, i + 1));
                }
            }
            lemma_replace_absent(rest, pat, rep);
            assert(seq![s[0]] + rest =~= s);
        }
    }
}

/// A dotfiles URL without the placeholder is cloned as it is written.
pub proof fn lemma_url_without_placeholder_unchanged(repo: Seq<char>, secret: Seq<char>)
    requires
        !occurs_in(repo, placeholder()),
    ensures
        dotfiles_url(repo, secret) == repo,
{
    reveal_strlit("{password}");
    lemma_replace_absent(repo, placeholder(), secret);
}

} // verus!
