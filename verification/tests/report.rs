use power_pledge::report::{compile, MessageAccumulator};
use regex::Regex;

fn report(msgs: &[&str]) -> MessageAccumulator {
    let mut acc = MessageAccumulator::new();
    for m in msgs {
        acc.add(m.to_string());
    }
    acc
}

fn patterns(texts: &[&str]) -> Vec<Regex> {
    texts.iter().map(|t| Regex::new(t).unwrap()).collect()
}

#[test]
fn new_report_is_empty() {
    let acc = MessageAccumulator::new();
    assert!(acc.is_empty());
    assert_eq!(acc.len(), 0);
    assert_eq!(acc.messages(), Vec::<String>::new());
}

#[test]
fn add_appends_in_order() {
    let mut acc = MessageAccumulator::new();
    acc.add("first".to_string());
    acc.add("second".to_string());
    acc.add("first".to_string());
    assert!(!acc.is_empty());
    assert_eq!(acc.len(), 3);
    assert_eq!(acc.messages(), vec!["first", "second", "first"]);
}

#[test]
fn require_records_only_a_failed_predicate() {
    let mut acc = MessageAccumulator::new();
    acc.require(true, "holds".to_string());
    assert!(acc.is_empty());
    acc.require(false, "fails".to_string());
    acc.require(true, "holds again".to_string());
    assert_eq!(acc.messages(), vec!["fails"]);
}

#[test]
fn from_messages_keeps_the_messages() {
    let acc = MessageAccumulator::from_messages(vec!["a".to_string(), "b".to_string()]);
    assert_eq!(acc.messages(), vec!["a", "b"]);
}

#[test]
fn add_all_appends_the_other_report() {
    let mut acc = report(&["a"]);
    let other = report(&["b", "c"]);
    acc.add_all(&other);
    assert_eq!(acc.messages(), vec!["a", "b", "c"]);
    assert_eq!(other.messages(), vec!["b", "c"]);
    acc.add_all(&MessageAccumulator::new());
    assert_eq!(acc.len(), 3);
}

#[test]
fn add_all_prefixed_puts_the_prefix_before_each_message() {
    let mut acc = report(&["a"]);
    acc.add_all_prefixed("miner 7 ", &report(&["b", "c"]));
    assert_eq!(acc.messages(), vec!["a", "miner 7 b", "miner 7 c"]);
}

#[test]
fn empty_report_is_expected_by_no_patterns() {
    assert!(MessageAccumulator::new().matches_expected(&[]));
}

#[test]
fn empty_report_does_not_meet_a_pattern() {
    assert!(!MessageAccumulator::new().matches_expected(&patterns(&["^a$"])));
}

#[test]
fn unexpected_message_is_not_tolerated() {
    let acc = report(&["epoch 5 is late", "power is off"]);
    assert!(!acc.matches_expected(&patterns(&["^epoch \\d+ is late$"])));
    assert!(!acc.matches_expected(&[]));
}

#[test]
fn every_pattern_must_match_a_message() {
    let acc = report(&["epoch 5 is late"]);
    assert!(!acc.matches_expected(&patterns(&["^epoch \\d+ is late$", "^power is off$"])));
}

#[test]
fn expected_report_is_accepted_in_any_order() {
    let acc = report(&["epoch 5 is late", "power is off", "epoch 6 is late"]);
    assert!(acc.matches_expected(&patterns(&["^power is off$", "^epoch \\d+ is late$"])));
}

#[test]
fn compile_refuses_an_invalid_pattern() {
    assert!(compile("foo(bar").is_none());
    let re = compile("^a+$").unwrap();
    assert!(re.is_match("aaa"));
    assert!(!re.is_match("aab"));
}
