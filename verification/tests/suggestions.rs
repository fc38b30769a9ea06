use apt_arch::suggest::suggest_command;
use apt_arch::verbs::{parse_verb, vocabulary, Verb};

#[test]
fn suggests_install_for_isntall() {
    let vocab = vocabulary();
    assert_eq!(suggest_command("isntall", vocab.as_slice()), Some("install"));
}

#[test]
fn no_suggestion_for_far_input() {
    let vocab = vocabulary();
    assert_eq!(suggest_command("xyzxyzxyz", vocab.as_slice()), None);
}

#[test]
fn suggestion_at_threshold_three() {
    // "lust" is at distance 2 from "list" and farther from the rest.
    let vocab = vocabulary();
    assert_eq!(suggest_command("lust", vocab.as_slice()), Some("list"));
    // Distance exactly 3 is still suggested.
    assert_eq!(suggest_command("h", vocab.as_slice()), Some("help"));
}

#[test]
fn first_entry_wins_a_tie() {
    let commands = ["abcd", "abce"];
    // "abcf" is at distance 1 from both; the earlier entry is kept.
    assert_eq!(suggest_command("abcf", &commands), Some("abcd"));
    let swapped = ["abce", "abcd"];
    assert_eq!(suggest_command("abcf", &swapped), Some("abce"));
}

#[test]
fn empty_command_list_gives_nothing() {
    let commands: [&str; 0] = [];
    assert_eq!(suggest_command("anything", &commands), None);
}

#[test]
fn exact_entry_suggests_itself() {
    let vocab = vocabulary();
    assert_eq!(suggest_command("clean", vocab.as_slice()), Some("clean"));
}

#[test]
fn vocabulary_parses_and_unknowns_do_not() {
    for verb in vocabulary() {
        assert!(parse_verb(verb).is_some());
    }
    assert_eq!(parse_verb("install"), Some(Verb::Install));
    assert_eq!(parse_verb("uninstall"), Some(Verb::Uninstall));
    assert_eq!(parse_verb("remove"), Some(Verb::Remove));
    assert_eq!(parse_verb("Install"), None);
    assert_eq!(parse_verb("isntall"), None);
    assert_eq!(parse_verb(""), None);
}
