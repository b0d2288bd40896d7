use tm::names::NameError;
use tm::resolver::{NamePhase, NameResolver, NameStep, Outcome};

fn names(list: &[&str]) -> Vec<String> {
    list.iter().map(|a| a.to_string()).collect()
}

#[test]
fn directory_name_is_suggested() {
    let r = NameResolver::new("/tmp/proj", Vec::new());
    assert_eq!(r.phase, NamePhase::Offer("proj".to_string()));
    assert_eq!(r.suggestion(), Some(&"proj".to_string()));
}

#[test]
fn unusable_directory_name_asks_for_a_name() {
    assert_eq!(NameResolver::new("/", Vec::new()).phase, NamePhase::AskName);
    assert_eq!(
        NameResolver::new("/tmp/my.proj", Vec::new()).phase,
        NamePhase::AskName
    );
    assert_eq!(NameResolver::new("/tmp/a:b", Vec::new()).suggestion(), None);
}

#[test]
fn enter_accepts_the_suggestion() {
    let mut r = NameResolver::new("/tmp/proj", Vec::new());
    assert_eq!(r.step("\n"), NameStep::Done(Outcome::Create("proj".to_string())));
}

#[test]
fn typed_name_replaces_the_suggestion() {
    let mut r = NameResolver::new("/tmp/proj", names(&["work"]));
    assert_eq!(
        r.step("  other \n"),
        NameStep::Done(Outcome::Create("other".to_string()))
    );
}

#[test]
fn invalid_typed_name_is_refused_and_asked_again() {
    let mut r = NameResolver::new("/tmp/proj", Vec::new());
    assert_eq!(r.step("a.b"), NameStep::Refused(NameError::HasDot));
    assert_eq!(r.phase, NamePhase::Offer("proj".to_string()));
    assert_eq!(r.step("x:y"), NameStep::Refused(NameError::HasColon));
    assert_eq!(r.step(""), NameStep::Done(Outcome::Create("proj".to_string())));
}

#[test]
fn quit_at_the_name_prompt_cancels() {
    let mut r = NameResolver::new("/tmp/proj", Vec::new());
    assert_eq!(r.step("q"), NameStep::Done(Outcome::Cancelled));
    let mut r = NameResolver::new("/", Vec::new());
    assert_eq!(r.step("q\n"), NameStep::Done(Outcome::Cancelled));
}

#[test]
fn name_asked_outright_becomes_the_suggestion() {
    let mut r = NameResolver::new("/", Vec::new());
    assert_eq!(r.step(""), NameStep::Refused(NameError::Empty));
    assert_eq!(r.phase, NamePhase::AskName);
    assert_eq!(r.step("fresh"), NameStep::Ask);
    assert_eq!(r.phase, NamePhase::Offer("fresh".to_string()));
    assert_eq!(r.step(""), NameStep::Done(Outcome::Create("fresh".to_string())));
}

#[test]
fn collision_then_attach() {
    let mut r = NameResolver::new("/srv/work", names(&["work", "play"]));
    assert_eq!(r.step(""), NameStep::Ask);
    assert_eq!(
        r.phase,
        NamePhase::Collision("work".to_string(), "work".to_string())
    );
    assert_eq!(r.step("a"), NameStep::Done(Outcome::Attach("work".to_string())));
}

#[test]
fn collision_then_change_name() {
    let mut r = NameResolver::new("/srv/work", names(&["work", "play"]));
    assert_eq!(r.step("play"), NameStep::Ask);
    assert_eq!(r.step("c"), NameStep::Ask);
    assert_eq!(r.phase, NamePhase::Offer("work".to_string()));
    assert_eq!(
        r.step("work2"),
        NameStep::Done(Outcome::Create("work2".to_string()))
    );
}

#[test]
fn collision_with_unknown_answer_goes_back_to_the_suggestion() {
    let mut r = NameResolver::new("/srv/work", names(&["work"]));
    assert_eq!(r.step(""), NameStep::Ask);
    assert_eq!(r.step("x"), NameStep::InvalidChoice);
    assert_eq!(r.phase, NamePhase::Offer("work".to_string()));
}

#[test]
fn quit_at_the_collision_question_cancels() {
    let mut r = NameResolver::new("/srv/work", names(&["work"]));
    assert_eq!(r.step(""), NameStep::Ask);
    assert_eq!(r.step("q"), NameStep::Done(Outcome::Cancelled));
}

#[test]
fn existing_name_is_never_created() {
    let mut r = NameResolver::new("/srv/work", names(&["work"]));
    for line in ["", "work", "c", "work", "zz", "", "c"] {
        let step = r.step(line);
        assert_ne!(step, NameStep::Done(Outcome::Create("work".to_string())));
    }
}

#[test]
fn step_trimmed_keeps_surrounding_spaces() {
    let mut r = NameResolver::new("/tmp/proj", Vec::new());
    assert_eq!(
        r.step_trimmed(" x"),
        NameStep::Refused(NameError::LeadingSpace)
    );
}

#[test]
fn capital_q_is_a_name_not_a_quit() {
    let mut r = NameResolver::new("/tmp/proj", Vec::new());
    assert_eq!(r.step("Q"), NameStep::Done(Outcome::Create("Q".to_string())));
    let mut r = NameResolver::new("/", Vec::new());
    assert_eq!(r.step("Q"), NameStep::Ask);
    assert_eq!(r.phase, NamePhase::Offer("Q".to_string()));
}

#[test]
fn capital_q_naming_an_existing_session_collides() {
    let mut r = NameResolver::new("/tmp/proj", names(&["Q"]));
    assert_eq!(r.step("Q"), NameStep::Ask);
    assert_eq!(
        r.phase,
        NamePhase::Collision("proj".to_string(), "Q".to_string())
    );
    assert_eq!(r.step("a"), NameStep::Done(Outcome::Attach("Q".to_string())));
}

#[test]
fn collision_answers_are_exact_letters() {
    let mut r = NameResolver::new("/srv/work", names(&["work"]));
    assert_eq!(r.step(""), NameStep::Ask);
    assert_eq!(r.step("A"), NameStep::InvalidChoice);
    assert_eq!(r.step(""), NameStep::Ask);
    assert_eq!(r.step("Q"), NameStep::InvalidChoice);
    assert_eq!(r.phase, NamePhase::Offer("work".to_string()));
}
