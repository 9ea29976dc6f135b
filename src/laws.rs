use vstd::prelude::*;
use crate::data::{results_view, Action, ActionHook, ActionResultV, ResponseV};
use crate::runner::{next_match, settled_without_run, template_of, RunError, Request, Session};
use crate::template::{close_from, opens_at, subst, subst_from, token_at};

verus! {

/// When no action from `i` on has the hook, the search for the next action
/// ends at the end of the list: `next` then finishes the run with no prompt,
/// no command and no new result.
pub proof fn lemma_no_matching_action(actions: Seq<Action>, hook: ActionHook, i: int)
    requires
        0 <= i <= actions.len(),
        forall|j: int| i <= j < actions.len() ==> actions[j].hook != hook,
    ensures
        next_match(actions, hook, i) == actions.len(),
    decreases actions.len() - i,
{
    if i < actions.len() {
        lemma_no_matching_action(actions, hook, i + 1);
    }
}

/// An action with neither a prompt nor a command settles with no command
/// result and the response `NoInteraction`, and the run goes on.
pub proof fn lemma_bare_action(
    old: Session,
    new: Session,
    r: Request,
    a: Action,
    bag: Map<Seq<char>, Seq<char>>,
)
    requires
        a.interaction is None,
        a.run is None,
        Session::decided(old, new, r, a, ResponseV::NoInteraction, bag),
    ensures
        r is Proceed,
        new.stage is Next,
        new.pos == old.pos + 1,
        results_view(new.results@) == results_view(old.results@).push(
            ActionResultV { name: a.name@, run: None, response: ResponseV::NoInteraction },
        ),
{
}

/// Substitution keeps every `{{name}}` whose name is not bound: a template
/// in which no token names a bound variable comes out unchanged.
pub proof fn lemma_unbound_tokens_kept(t: Seq<char>, bag: Map<Seq<char>, Seq<char>>)
    requires
        forall|i: int|
            opens_at(t, i) && i + 2 <= close_from(t, i + 2) ==> !bag.contains_key(
                #[trigger] token_at(t, i),
            ),
    ensures
        subst(t, bag) == t,
{
    lemma_unbound_from(t, bag, t.len() as int);
    assert(t.subrange(0, t.len() as int) =~= t);
}

proof fn lemma_unbound_from(t: Seq<char>, bag: Map<Seq<char>, Seq<char>>, k: int)
    requires
        0 <= k <= t.len(),
        forall|i: int|
            opens_at(t, i) && i + 2 <= close_from(t, i + 2) ==> !bag.contains_key(
                #[trigger] token_at(t, i),
            ),
    ensures
        subst_from(t, bag, t.len() - k) == t.subrange(t.len() - k, t.len() as int),
    decreases k,
{
    let i = t.len() - k;
    if k > 0 {
        lemma_unbound_from(t, bag, k - 1);
        assert(!bag.contains_key(token_at(t, i)) || !opens_at(t, i) || !(i + 2 <= close_from(
            t,
            i + 2,
        )));
        assert(t.subrange(i, t.len() as int) =~= seq![t[i]] + t.subrange(i + 1, t.len() as int));
    } else {
        assert(t.subrange(i, t.len() as int) =~= Seq::<char>::empty());
    }
}

/// The decision on an action is a function of its inputs: two sessions at
/// the same point, given the same action, response and bag, reach the same
/// point, record the same results and request the same command text.
pub proof fn lemma_decision_deterministic(
    old1: Session,
    new1: Session,
    r1: Request,
    old2: Session,
    new2: Session,
    r2: Request,
    a: Action,
    resp: ResponseV,
    bag: Map<Seq<char>, Seq<char>>,
)
    requires
        old1.hook == old2.hook,
        old1.pos == old2.pos,
        results_view(old1.results@) == results_view(old2.results@),
        Session::decided(old1, new1, r1, a, resp, bag),
        Session::decided(old2, new2, r2, a, resp, bag),
    ensures
        new1.pos == new2.pos,
        results_view(new1.results@) == results_view(new2.results@),
        r1 matches Request::Execute(c1) ==> (r2 matches Request::Execute(c2) && c1.script@
            == c2.script@ && c1.script@ == subst(template_of(a), bag)),
{
}

/// A cancelled prompt on an action that breaks on cancellation stops the
/// run with a cancellation error: no further step, no result list.
pub proof fn lemma_cancel_breaks(
    old: Session,
    new: Session,
    r: Request,
    a: Action,
    bag: Map<Seq<char>, Seq<char>>,
)
    requires
        a.break_if_cancel,
        Session::decided(old, new, r, a, ResponseV::Cancel, bag),
    ensures
        new.stage is Stopped,
        r matches Request::Failed(RunError::Cancelled(n)) && n@ == a.name@,
{
}

/// A cancelled prompt on an action that does not break records the result
/// `{run: None, response: Cancel}`, runs no command, and the run goes on.
pub proof fn lemma_cancel_continues(
    old: Session,
    new: Session,
    r: Request,
    a: Action,
    bag: Map<Seq<char>, Seq<char>>,
)
    requires
        !a.break_if_cancel,
        Session::decided(old, new, r, a, ResponseV::Cancel, bag),
    ensures
        r is Proceed,
        new.stage is Next,
        new.pos == old.pos + 1,
        results_view(new.results@) == results_view(old.results@).push(
            settled_without_run(a, ResponseV::Cancel),
        ),
{
}

} // verus!
