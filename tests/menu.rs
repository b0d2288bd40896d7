use tm::menu::{choose_session, choose_trimmed, parse_session_list, MenuChoice};

fn three() -> Vec<String> {
    vec!["alpha".to_string(), "beta".to_string(), "gamma".to_string()]
}

#[test]
fn listing_is_split_into_lines() {
    assert_eq!(
        parse_session_list("alpha\nbeta\ngamma\n"),
        vec!["alpha".to_string(), "beta".to_string(), "gamma".to_string()]
    );
}

#[test]
fn listing_without_final_newline() {
    assert_eq!(
        parse_session_list("one\ntwo"),
        vec!["one".to_string(), "two".to_string()]
    );
}

#[test]
fn listing_drops_carriage_returns_and_keeps_empty_lines() {
    assert_eq!(
        parse_session_list("a\r\n\nb\r\n"),
        vec!["a".to_string(), String::new(), "b".to_string()]
    );
}

#[test]
fn empty_listing_has_no_sessions() {
    assert!(parse_session_list("").is_empty());
}

#[test]
fn second_of_three_is_selected() {
    assert_eq!(
        choose_session(&three(), "2\n"),
        MenuChoice::Attach("beta".to_string())
    );
}

#[test]
fn out_of_range_number_is_refused() {
    assert_eq!(choose_session(&three(), "5"), MenuChoice::OutOfRange);
    assert_eq!(choose_session(&three(), "0"), MenuChoice::OutOfRange);
    assert_eq!(
        choose_session(&three(), "99999999999999999999999"),
        MenuChoice::OutOfRange
    );
}

#[test]
fn non_numeric_answer_is_refused() {
    assert_eq!(choose_session(&three(), "abc"), MenuChoice::NotANumber);
    assert_eq!(choose_session(&three(), ""), MenuChoice::NotANumber);
    assert_eq!(choose_session(&three(), "2x"), MenuChoice::NotANumber);
    assert_eq!(choose_session(&three(), "-1"), MenuChoice::NotANumber);
    assert_eq!(choose_session(&three(), "+"), MenuChoice::NotANumber);
}

#[test]
fn plus_sign_is_accepted() {
    assert_eq!(
        choose_trimmed(&three(), "+3"),
        MenuChoice::Attach("gamma".to_string())
    );
}

#[test]
fn n_asks_for_a_new_session() {
    assert_eq!(choose_session(&three(), " n "), MenuChoice::NewSession);
    assert_eq!(choose_session(&three(), "N"), MenuChoice::NewSession);
    assert_eq!(choose_session(&Vec::new(), "n"), MenuChoice::NewSession);
}

#[test]
fn number_with_no_sessions_is_out_of_range() {
    assert_eq!(choose_session(&Vec::new(), "1"), MenuChoice::OutOfRange);
}

#[test]
fn untrimmed_answer_is_not_a_number() {
    assert_eq!(choose_trimmed(&three(), " 2"), MenuChoice::NotANumber);
}

#[test]
fn unicode_white_space_is_trimmed() {
    assert_eq!(
        choose_session(&three(), "\u{a0}\tN\u{3000}\r\n"),
        MenuChoice::NewSession
    );
}
