use vstd::prelude::*;
use crate::data::{
    results_view, strings_view, response_of, bind_response, Action, ActionHook, ActionResult,
    ActionResultV, Answer, Question, Response, ResponseV, RunResult, RunResultV,
};
use crate::template::{subst, substitute};
use crate::varbag::VarBag;

verus! {

/// Why a run stopped before its end.
#[derive(Clone, Debug)]
pub enum RunError {
    /// The prompt of the named action was cancelled, and the action asks to
    /// stop the run on cancellation.
    Cancelled(String),
    /// The command of the named action exited with a non-zero code, and the
    /// action does not ignore it.
    ExitCode { name: String, code: i32 },
}

/// A command to execute on behalf of an action.
#[derive(Clone, Debug)]
pub struct Command {
    /// The command text, variables already substituted.
    pub script: String,
    /// Capture the output instead of streaming it.
    pub capture: bool,
}

/// What the caller of a [`Session`] has to do next.
#[derive(Clone, Debug)]
pub enum Request {
    /// The action at this index begins: report progress, then call `begin`.
    Begin(usize),
    /// Show this prompt, then hand its answer to `answer`.
    Ask(Question),
    /// Execute this command, then hand its outcome to `ran`.
    Execute(Command),
    /// The action is settled: call `next`.
    Proceed,
    /// Every action has run: the results are complete.
    Done,
    /// The run stops with this error; the results are void.
    Failed(RunError),
}

/// Where a session stands.
#[derive(Clone, Debug)]
pub enum Stage {
    /// Looking for the next action of the hook, from `pos` on.
    Next,
    /// The action at `pos` has begun.
    Begun,
    /// Waiting for the answer to the prompt of the action at `pos`.
    Asking,
    /// Waiting for the outcome of the command of the action at `pos`, with
    /// the response of its prompt and the command text.
    Running(Response, String),
    /// All actions ran.
    Finished,
    /// The run stopped on an error.
    Stopped,
}

/// The decisions of one run over a list of actions, one step at a time.
/// The caller performs the prompts and commands it requests.
pub struct Session {
    /// Only actions with this hook take part.
    pub hook: ActionHook,
    /// The index of the current action.
    pub pos: usize,
    pub stage: Stage,
    /// The results of the settled actions, in order.
    pub results: Vec<ActionResult>,
}

/// The first index at or after `i` whose action has hook `hook`, or the
/// length of `actions`.
pub open spec fn next_match(actions: Seq<Action>, hook: ActionHook, i: int) -> int
    decreases actions.len() - i,
{
    if i < 0 || i >= actions.len() {
        actions.len() as int
    } else if actions[i].hook == hook {
        i
    } else {
        next_match(actions, hook, i + 1)
    }
}

/// The command template of `a`, as text (empty if it has none).
pub open spec fn template_of(a: Action) -> Seq<char> {
    match a.run {
        Some(t) => t@,
        None => Seq::empty(),
    }
}

/// The result of `a` when it runs no command.
pub open spec fn settled_without_run(a: Action, resp: ResponseV) -> ActionResultV {
    ActionResultV { name: a.name@, run: None, response: resp }
}

impl Session {
    /// The session is coherent with `actions`.
    pub open spec fn wf(&self, actions: Seq<Action>) -> bool {
        &&& self.pos <= actions.len()
        &&& match self.stage {
            Stage::Begun => self.pos < actions.len() && actions[self.pos as int].hook == self.hook,
            Stage::Asking => self.pos < actions.len() && actions[self.pos as int].hook == self.hook
                && actions[self.pos as int].interaction is Some,
            Stage::Running(_, _) => self.pos < actions.len() && actions[self.pos as int].hook
                == self.hook,
            _ => true,
        }
    }

    /// `new` is `old` after the action `a` at `old.pos` got the response
    /// `resp`, with the bag `bag`, and `r` is what the caller does next.
    pub open spec fn decided(
        old: Session,
        new: Session,
        r: Request,
        a: Action,
        resp: ResponseV,
        bag: Map<Seq<char>, Seq<char>>,
    ) -> bool {
        &&& new.hook == old.hook
        &&& if resp is Cancel && a.break_if_cancel {
            &&& new.stage is Stopped
            &&& new.pos == old.pos
            &&& results_view(new.results@) == results_view(old.results@)
            &&& r matches Request::Failed(RunError::Cancelled(n)) && n@ == a.name@
        } else if resp is Cancel || a.run is None {
            &&& new.stage is Next
            &&& new.pos == old.pos + 1
            &&& results_view(new.results@) == results_view(old.results@).push(
                settled_without_run(a, resp),
            )
            &&& r is Proceed
        } else {
            &&& new.pos == old.pos
            &&& results_view(new.results@) == results_view(old.results@)
            &&& new.stage matches Stage::Running(p, s) && p@ == resp && s@ == subst(
                template_of(a),
                bag,
            )
            &&& r matches Request::Execute(c) && c.script@ == subst(template_of(a), bag)
                && c.capture == a.capture
        }
    }

    /// A session for the actions of `hook`, before the first one.
    pub fn new(hook: ActionHook) -> (r: Session)
        ensures
            r.hook == hook,
            r.pos == 0,
            r.stage is Next,
            r.results@.len() == 0,
    {
        Session { hook, pos: 0, stage: Stage::Next, results: Vec::new() }
    }

    /// Moves to the next action of the hook, or finishes.
    pub fn next(&mut self, actions: &Vec<Action>) -> (r: Request)
        requires
            old(self).stage is Next,
            old(self).wf(actions@),
        ensures
            final(self).wf(actions@),
            final(self).hook == old(self).hook,
            final(self).results@ == old(self).results@,
            final(self).pos == next_match(actions@, old(self).hook, old(self).pos as int),
            final(self).pos == actions@.len() ==> final(self).stage is Finished && r is Done,
            final(self).pos < actions@.len() ==> (final(self).stage is Begun && (r matches Request::Begin(
                i,
            ) && i == final(self).pos)),
    {
        let mut i = self.pos;
        while i < actions.len() && actions[i].hook != self.hook
            invariant
                old(self).pos <= i <= actions@.len(),
                next_match(actions@, self.hook, old(self).pos as int) == next_match(
                    actions@,
                    self.hook,
                    i as int,
                ),
            decreases actions@.len() - i,
        {
            i = i + 1;
        }
        self.pos = i;
        if i == actions.len() {
            self.stage = Stage::Finished;
            Request::Done
        } else {
            self.stage = Stage::Begun;
            Request::Begin(i)
        }
    }

    /// Applies the decision table to the action at `pos`, whose response is
    /// `resp`.
    fn decide(&mut self, actions: &Vec<Action>, bag: &VarBag, resp: Response) -> (r: Request)
        requires
            bag.wf(),
            old(self).pos < actions@.len(),
        ensures
            Session::decided(
                *old(self),
                *final(self),
                r,
                actions@[old(self).pos as int],
                resp@,
                bag@,
            ),
    {
        let n: usize = actions.len();
        let a = &actions[self.pos];
        let cancelled = match resp {
            Response::Cancel => true,
            _ => false,
        };
        if cancelled && a.break_if_cancel {
            self.stage = Stage::Stopped;
            return Request::Failed(RunError::Cancelled(a.name.clone()));
        }
        let ghost pre = self.results@;
        match &a.run {
            Some(template) if !cancelled => {
                let script = substitute(template.as_str(), bag);
                let command = Command { script: script.clone(), capture: a.capture };
                self.stage = Stage::Running(resp, script);
                Request::Execute(command)
            },
            _ => {
                let result = ActionResult { name: a.name.clone(), run: None, response: resp };
                self.results.push(result);
                proof {
                    assert(results_view(self.results@) =~= results_view(pre).push(result@));
                }
                assert(self.pos < n);
                self.pos = self.pos + 1;
                self.stage = Stage::Next;
                Request::Proceed
            },
        }
    }

    /// Starts the current action: asks its prompt, or settles it at once.
    pub fn begin(&mut self, actions: &Vec<Action>, bag: &VarBag) -> (r: Request)
        requires
            old(self).stage is Begun,
            old(self).wf(actions@),
            bag.wf(),
        ensures
            final(self).wf(actions@),
            ({
                let a = actions@[old(self).pos as int];
                match a.interaction {
                    Some(it) => {
                        &&& final(self).stage is Asking
                        &&& final(self).pos == old(self).pos
                        &&& final(self).hook == old(self).hook
                        &&& final(self).results@ == old(self).results@
                        &&& r matches Request::Ask(q) && q.kind == it.kind && q.message@
                            == it.prompt@ && strings_view(q.choices@) == it.choices_view()
                    },
                    None => Session::decided(
                        *old(self),
                        *final(self),
                        r,
                        a,
                        ResponseV::NoInteraction,
                        bag@,
                    ),
                }
            }),
    {
        match &actions[self.pos].interaction {
            Some(it) => {
                self.stage = Stage::Asking;
                Request::Ask(it.to_question())
            },
            None => self.decide(actions, bag, Response::NoInteraction),
        }
    }

    /// Takes the answer to the current prompt.
    pub fn answer(&mut self, actions: &Vec<Action>, bag: &mut VarBag, answer: Answer) -> (r:
        Request)
        requires
            old(self).stage is Asking,
            old(self).wf(actions@),
            old(bag).wf(),
        ensures
            final(self).wf(actions@),
            final(bag).wf(),
            ({
                let a = actions@[old(self).pos as int];
                let resp = response_of(answer);
                &&& final(bag)@ == bind_response(a.interaction->Some_0.out, resp, old(bag)@)
                &&& Session::decided(*old(self), *final(self), r, a, resp, final(bag)@)
            }),
    {
        let resp = match &actions[self.pos].interaction {
            Some(it) => it.play(answer, bag),
            None => Response::NoInteraction,
        };
        self.decide(actions, bag, resp)
    }

    /// Takes the outcome of the current command.
    pub fn ran(&mut self, actions: &Vec<Action>, code: i32, out: String, err: String) -> (r:
        Request)
        requires
            old(self).stage is Running,
            old(self).wf(actions@),
        ensures
            final(self).wf(actions@),
            final(self).hook == old(self).hook,
            ({
                let a = actions@[old(self).pos as int];
                if code != 0 && !a.ignore_exit {
                    &&& final(self).stage is Stopped
                    &&& final(self).pos == old(self).pos
                    &&& results_view(final(self).results@) == results_view(old(self).results@)
                    &&& r matches Request::Failed(RunError::ExitCode { name, code: c }) && name@
                        == a.name@ && c == code
                } else {
                    &&& final(self).stage is Next
                    &&& final(self).pos == old(self).pos + 1
                    &&& r is Proceed
                    &&& old(self).stage matches Stage::Running(p, s) && results_view(
                        final(self).results@,
                    ) == results_view(old(self).results@).push(
                        ActionResultV {
                            name: a.name@,
                            run: Some(RunResultV { script: s@, code, out: out@, err: err@ }),
                            response: p@,
                        },
                    )
                }
            }),
    {
        let n: usize = actions.len();
        let a = &actions[self.pos];
        if code != 0 && !a.ignore_exit {
            self.stage = Stage::Stopped;
            return Request::Failed(RunError::ExitCode { name: a.name.clone(), code });
        }
        let mut stage = Stage::Next;
        std::mem::swap(&mut self.stage, &mut stage);
        let ghost pre = self.results@;
        match stage {
            Stage::Running(resp, script) => {
                let result = ActionResult {
                    name: a.name.clone(),
                    run: Some(RunResult { script, code, out, err }),
                    response: resp,
                };
                self.results.push(result);
                proof {
                    assert(results_view(self.results@) =~= results_view(pre).push(result@));
                }
            },
            _ => {},
        }
        assert(self.pos < n);
        self.pos = self.pos + 1;
        Request::Proceed
    }
}

} // verus!
