use vstd::prelude::*;

/// Actions, interactions, answers and results.
pub mod data;
/// General properties of a run, proved over the contracts of the session.
pub mod laws;
/// The step-by-step decisions of a run over a list of actions.
pub mod runner;
/// Variable bindings shared by the actions of a run.
pub mod varbag;
/// Substitution of `{{name}}` tokens in command templates.
pub mod template;

verus! {

} // verus!
