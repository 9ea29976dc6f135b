use vstd::prelude::*;
use crate::varbag::VarBag;

verus! {

/// When an action takes part in a run: a run only takes the actions whose
/// hook equals its own.
#[derive(Clone, Copy, Debug, PartialEq, Eq, Structural)]
pub enum ActionHook {
    Before,
    After,
}

/// The style of prompt an interaction shows.
#[derive(Clone, Copy, Debug, PartialEq, Eq, Structural)]
pub enum InteractionKind {
    Confirm,
    Input,
    Select,
}

/// What an interaction produced.
#[derive(Clone, Debug)]
pub enum Response {
    /// An answer was given (a confirmation reads `"true"`).
    Text(String),
    /// The prompt was declined, or answered in an unsupported shape.
    Cancel,
    /// The action has no interaction.
    NoInteraction,
}

/// The mathematical value of a [`Response`].
pub enum ResponseV {
    Text(Seq<char>),
    Cancel,
    NoInteraction,
}

impl View for Response {
    type V = ResponseV;

    open spec fn view(&self) -> ResponseV {
        match self {
            Response::Text(s) => ResponseV::Text(s@),
            Response::Cancel => ResponseV::Cancel,
            Response::NoInteraction => ResponseV::NoInteraction,
        }
    }
}

impl PartialEq for Response {
    fn eq(&self, o: &Response) -> (r: bool) {
        match (self, o) {
            (Response::Text(a), Response::Text(b)) => *a == *b,
            (Response::Cancel, Response::Cancel) => true,
            (Response::NoInteraction, Response::NoInteraction) => true,
            _ => false,
        }
    }
}

impl vstd::std_specs::cmp::PartialEqSpecImpl for Response {
    open spec fn obeys_eq_spec() -> bool {
        true
    }

    open spec fn eq_spec(&self, o: &Response) -> bool {
        self@ == o@
    }
}

/// The answer a prompt returned, before interpretation.
#[derive(Clone, Debug)]
pub enum Answer {
    /// Free text.
    String(String),
    /// The label of a selected list item.
    ListItem(String),
    /// A yes / no answer.
    Bool(bool),
    /// Any other shape of answer.
    Other,
}

/// What an answer means as a response.
pub open spec fn response_of(a: Answer) -> ResponseV {
    match a {
        Answer::String(s) => ResponseV::Text(s@),
        Answer::ListItem(s) => ResponseV::Text(s@),
        Answer::Bool(b) => if b {
            ResponseV::Text(seq!['t', 'r', 'u', 'e'])
        } else {
            ResponseV::Cancel
        },
        Answer::Other => ResponseV::Cancel,
    }
}

/// A prompt to show to the operator.
#[derive(Clone, Debug)]
pub struct Question {
    pub kind: InteractionKind,
    pub message: String,
    /// The choices offered, in order (empty unless the kind is `Select`).
    pub choices: Vec<String>,
}

/// The views of a list of strings.
pub open spec fn strings_view(v: Seq<String>) -> Seq<Seq<char>> {
    v.map_values(|s: String| s@)
}

/// A declarative interaction with the operator.
#[derive(Clone, Debug)]
pub struct Interaction {
    /// The style of prompt.
    pub kind: InteractionKind,
    /// What to ask.
    pub prompt: String,
    /// If set, the variable that receives the answer.
    pub out: Option<String>,
    /// The choices of a `Select`.
    pub options: Option<Vec<String>>,
}

/// The bag after binding `value` to the optional variable `out`.
pub open spec fn bind(
    out: Option<String>,
    value: Seq<char>,
    bag: Map<Seq<char>, Seq<char>>,
) -> Map<Seq<char>, Seq<char>> {
    match out {
        Some(name) => bag.insert(name@, value),
        None => bag,
    }
}

/// The bag after an interaction with output variable `out` gave `resp`.
pub open spec fn bind_response(
    out: Option<String>,
    resp: ResponseV,
    bag: Map<Seq<char>, Seq<char>>,
) -> Map<Seq<char>, Seq<char>> {
    match resp {
        ResponseV::Text(t) => bind(out, t, bag),
        _ => bag,
    }
}

fn copy_strings(v: &Vec<String>) -> (r: Vec<String>)
    ensures
        strings_view(r@) == strings_view(v@),
{
    let mut r: Vec<String> = Vec::new();
    let mut i: usize = 0;
    while i < v.len()
        invariant
            i <= v@.len(),
            r@.len() == i,
            forall|j: int| 0 <= j < i ==> r@[j]@ == v@[j]@,
        decreases v@.len() - i,
    {
        let c = v[i].clone();
        r.push(c);
        i = i + 1;
    }
    assert(strings_view(r@) =~= strings_view(v@));
    r
}

impl Interaction {
    /// The choices a prompt for this interaction offers.
    pub open spec fn choices_view(&self) -> Seq<Seq<char>> {
        match self.kind {
            InteractionKind::Select => match self.options {
                Some(o) => strings_view(o@),
                None => Seq::empty(),
            },
            _ => Seq::empty(),
        }
    }

    /// Records `input` under the output variable, if one is declared.
    pub fn update_varbag(&self, input: &str, varbag: &mut VarBag)
        requires
            old(varbag).wf(),
        ensures
            final(varbag).wf(),
            final(varbag)@ == bind(self.out, input@, old(varbag)@),
    {
        if let Some(out) = &self.out {
            varbag.insert(out.clone(), input.to_owned());
        }
    }

    /// Interprets the answer that a prompt for this interaction returned,
    /// and records it in `varbag` when it is text.
    pub fn play(&self, answer: Answer, varbag: &mut VarBag) -> (r: Response)
        requires
            old(varbag).wf(),
        ensures
            final(varbag).wf(),
            r@ == response_of(answer),
            final(varbag)@ == bind_response(self.out, r@, old(varbag)@),
    {
        match answer {
            Answer::String(input) => {
                self.update_varbag(input.as_str(), varbag);
                Response::Text(input)
            },
            Answer::ListItem(label) => {
                self.update_varbag(label.as_str(), varbag);
                Response::Text(label)
            },
            Answer::Bool(confirmed) => {
                if confirmed {
                    let as_string = "true".to_owned();
                    proof {
                        reveal_strlit("true");
                    }
                    assert(as_string@ =~= seq!['t', 'r', 'u', 'e']);
                    self.update_varbag(as_string.as_str(), varbag);
                    Response::Text(as_string)
                } else {
                    Response::Cancel
                }
            },
            Answer::Other => Response::Cancel,
        }
    }

    /// The prompt that asks this interaction.
    pub fn to_question(&self) -> (r: Question)
        ensures
            r.kind == self.kind,
            r.message@ == self.prompt@,
            strings_view(r.choices@) == self.choices_view(),
    {
        let choices = match self.kind {
            InteractionKind::Select => match &self.options {
                Some(o) => copy_strings(o),
                None => Vec::new(),
            },
            _ => Vec::new(),
        };
        proof {
            if choices@.len() == 0 {
                assert(strings_view(choices@) =~= Seq::empty());
            }
        }
        Question { kind: self.kind, message: self.prompt.clone(), choices }
    }
}

/// One step of a run.
#[derive(Clone, Debug)]
pub struct Action {
    /// The name reported with the step's result.
    pub name: String,
    /// The prompt, if any.
    pub interaction: Option<Interaction>,
    /// The command template to run, if any.
    pub run: Option<String>,
    /// Accept a non-zero exit code.
    pub ignore_exit: bool,
    /// Stop the whole run when the prompt is cancelled.
    pub break_if_cancel: bool,
    /// Capture the command's output instead of streaming it.
    pub capture: bool,
    /// The run this step takes part in.
    pub hook: ActionHook,
}

/// What a command did.
#[derive(Clone, Debug)]
pub struct RunResult {
    /// The command text after substitution.
    pub script: String,
    pub code: i32,
    pub out: String,
    pub err: String,
}

/// The outcome of one action.
#[derive(Clone, Debug)]
pub struct ActionResult {
    pub name: String,
    pub run: Option<RunResult>,
    pub response: Response,
}

/// The mathematical value of a [`RunResult`].
pub struct RunResultV {
    pub script: Seq<char>,
    pub code: i32,
    pub out: Seq<char>,
    pub err: Seq<char>,
}

/// The mathematical value of an [`ActionResult`].
pub struct ActionResultV {
    pub name: Seq<char>,
    pub run: Option<RunResultV>,
    pub response: ResponseV,
}

impl View for RunResult {
    type V = RunResultV;

    open spec fn view(&self) -> RunResultV {
        RunResultV { script: self.script@, code: self.code, out: self.out@, err: self.err@ }
    }
}

impl View for ActionResult {
    type V = ActionResultV;

    open spec fn view(&self) -> ActionResultV {
        ActionResultV {
            name: self.name@,
            run: match self.run {
                Some(r) => Some(r@),
                None => None,
            },
            response: self.response@,
        }
    }
}

/// The views of a list of results.
pub open spec fn results_view(v: Seq<ActionResult>) -> Seq<ActionResultV> {
    v.map_values(|r: ActionResult| r@)
}

} // verus!
