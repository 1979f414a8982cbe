use sssd::action::Action;
use sssd::action::select_action;
use sssd::matching;
use sssd::messages::help_message;
use sssd::messages::u32_to_string;

#[test]
fn no_keyword_selects_help() {
    assert_eq!(matching(vec!["./app".to_string()]), "help");
    assert_eq!(matching(vec![]), "help");
    assert_eq!(
        matching(vec!["./app".to_string(), "foo".to_string(), "bar".to_string()]),
        "help"
    );
    assert_eq!(matching(vec!["Status".to_string(), "STOP".to_string()]), "help");
}

#[test]
fn single_keyword_is_selected() {
    assert_eq!(matching(vec!["./app".to_string(), "status".to_string()]), "status");
    assert_eq!(matching(vec!["./app".to_string(), "start".to_string()]), "start");
    assert_eq!(matching(vec!["./app".to_string(), "stop".to_string()]), "stop");
    assert_eq!(matching(vec!["./app".to_string(), "daemon".to_string()]), "daemon");
}

#[test]
fn first_keyword_wins() {
    assert_eq!(
        matching(vec!["./app".to_string(), "stop".to_string(), "start".to_string()]),
        "stop"
    );
    assert_eq!(
        matching(vec![
            "x".to_string(),
            "daemon".to_string(),
            "status".to_string(),
            "stop".to_string()
        ]),
        "daemon"
    );
}

#[test]
fn keyword_may_appear_anywhere() {
    assert_eq!(
        matching(vec!["./app".to_string(), "-v".to_string(), "status".to_string()]),
        "status"
    );
}

#[test]
fn actions_match_keywords() {
    assert_eq!(select_action(&vec!["./app".to_string()]), Action::Help);
    assert_eq!(
        select_action(&vec!["./app".to_string(), "status".to_string()]),
        Action::Status
    );
    assert_eq!(
        select_action(&vec!["./app".to_string(), "start".to_string()]),
        Action::Start
    );
    assert_eq!(
        select_action(&vec!["./app".to_string(), "stop".to_string()]),
        Action::Stop
    );
    assert_eq!(
        select_action(&vec!["./app".to_string(), "daemon".to_string()]),
        Action::Daemon
    );
    assert_eq!(
        select_action(&vec!["a".to_string(), "start".to_string(), "stop".to_string()]),
        Action::Start
    );
}

#[test]
fn help_line_names_the_four_keywords() {
    assert_eq!(help_message("app"), "Help: ./app status | start | stop | daemon");
}

#[test]
fn decimal_rendering_is_exact() {
    assert_eq!(u32_to_string(0), "0");
    assert_eq!(u32_to_string(7), "7");
    assert_eq!(u32_to_string(10), "10");
    assert_eq!(u32_to_string(4242), "4242");
    assert_eq!(u32_to_string(1000000), "1000000");
    assert_eq!(u32_to_string(u32::MAX), "4294967295");
}
