use interactive_actions::data::{Answer, Interaction, InteractionKind, Response};
use interactive_actions::template::substitute;
use interactive_actions::varbag::VarBag;

fn bag(pairs: &[(&str, &str)]) -> VarBag {
    let mut v = VarBag::new();
    for (k, val) in pairs {
        v.insert(k.to_string(), val.to_string());
    }
    v
}

fn interaction(kind: InteractionKind, out: Option<&str>, options: Option<Vec<&str>>) -> Interaction {
    Interaction {
        kind,
        prompt: "q?".to_string(),
        out: out.map(|s| s.to_string()),
        options: options.map(|o| o.into_iter().map(|s| s.to_string()).collect()),
    }
}

#[test]
fn substitute_replaces_every_occurrence() {
    let v = bag(&[("a", "1"), ("bb", "two")]);
    assert_eq!(substitute("{{a}}-{{bb}}-{{a}}", &v), "1-two-1");
}

#[test]
fn substitute_keeps_unbound_and_partial_tokens() {
    let v = bag(&[("a", "1")]);
    assert_eq!(substitute("{{ab}} {{a} {a}} {{ a }}", &v), "{{ab}} {{a} {a}} {{ a }}");
    assert_eq!(substitute("", &v), "");
    assert_eq!(substitute("{{", &v), "{{");
    assert_eq!(substitute("plain", &VarBag::new()), "plain");
}

#[test]
fn substitute_does_not_rescan_values() {
    let v = bag(&[("a", "{{b}}"), ("b", "x")]);
    assert_eq!(substitute("{{a}}{{b}}", &v), "{{b}}x");
}

#[test]
fn substitute_extra_opening_brace() {
    let v = bag(&[("x", "X")]);
    assert_eq!(substitute("{{{x}}", &v), "{X");
}

#[test]
fn substitute_handles_multibyte_text() {
    let v = bag(&[("ville", "Zürich")]);
    assert_eq!(substitute("é {{ville}} ü", &v), "é Zürich ü");
}

#[test]
fn varbag_insert_replaces() {
    let mut v = bag(&[("k", "1")]);
    v.insert("k".to_string(), "2".to_string());
    v.insert("j".to_string(), "3".to_string());
    assert_eq!(v.len(), 2);
    assert_eq!(v.get("k").map(|s| s.as_str()), Some("2"));
    assert_eq!(v.get("j").map(|s| s.as_str()), Some("3"));
    assert_eq!(v.get("z"), None);
}

#[test]
fn play_text_answer_binds() {
    let it = interaction(InteractionKind::Input, Some("city"), None);
    let mut v = VarBag::new();
    let r = it.play(Answer::String("rome".to_string()), &mut v);
    assert_eq!(r, Response::Text("rome".to_string()));
    assert_eq!(v.get("city").map(|s| s.as_str()), Some("rome"));
}

#[test]
fn play_list_item_uses_label() {
    let it = interaction(InteractionKind::Select, Some("t"), Some(vec!["bus", "car"]));
    let mut v = VarBag::new();
    let r = it.play(Answer::ListItem("car".to_string()), &mut v);
    assert_eq!(r, Response::Text("car".to_string()));
    assert_eq!(v.get("t").map(|s| s.as_str()), Some("car"));
}

#[test]
fn play_confirm_true_and_false() {
    let it = interaction(InteractionKind::Confirm, Some("ok"), None);
    let mut v = VarBag::new();
    assert_eq!(it.play(Answer::Bool(false), &mut v), Response::Cancel);
    assert_eq!(v.len(), 0);
    assert_eq!(it.play(Answer::Bool(true), &mut v), Response::Text("true".to_string()));
    assert_eq!(v.get("ok").map(|s| s.as_str()), Some("true"));
}

#[test]
fn play_other_answer_cancels() {
    let it = interaction(InteractionKind::Input, Some("x"), None);
    let mut v = VarBag::new();
    assert_eq!(it.play(Answer::Other, &mut v), Response::Cancel);
    assert_eq!(v.len(), 0);
}

#[test]
fn play_without_out_leaves_bag() {
    let it = interaction(InteractionKind::Input, None, None);
    let mut v = bag(&[("a", "b")]);
    assert_eq!(it.play(Answer::String("z".to_string()), &mut v), Response::Text("z".to_string()));
    assert_eq!(v.len(), 1);
    assert_eq!(v.get("a").map(|s| s.as_str()), Some("b"));
}

#[test]
fn update_varbag_sets_out() {
    let it = interaction(InteractionKind::Input, Some("name"), None);
    let mut v = VarBag::new();
    it.update_varbag("bob", &mut v);
    assert_eq!(v.get("name").map(|s| s.as_str()), Some("bob"));
    let none = interaction(InteractionKind::Input, None, None);
    none.update_varbag("zed", &mut v);
    assert_eq!(v.len(), 1);
}

#[test]
fn to_question_carries_prompt_and_choices() {
    let it = interaction(InteractionKind::Select, None, Some(vec!["a", "b"]));
    let q = it.to_question();
    assert_eq!(q.kind, InteractionKind::Select);
    assert_eq!(q.message, "q?");
    assert_eq!(q.choices, vec!["a".to_string(), "b".to_string()]);
    let q = interaction(InteractionKind::Select, None, None).to_question();
    assert!(q.choices.is_empty());
    let q = interaction(InteractionKind::Input, None, Some(vec!["a"])).to_question();
    assert_eq!(q.kind, InteractionKind::Input);
    assert!(q.choices.is_empty());
}

#[test]
fn response_equality() {
    assert_eq!(Response::Text("x".to_string()), Response::Text("x".to_string()));
    assert_ne!(Response::Text("x".to_string()), Response::Text("y".to_string()));
    assert_ne!(Response::Cancel, Response::NoInteraction);
}
