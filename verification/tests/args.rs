use simplettsreader::args::{hidden_from_args, hidden_preference};

fn args(words: &[&str]) -> Vec<String> {
    words.iter().map(|word| word.to_string()).collect()
}

#[test]
fn no_option_gives_no_preference() {
    assert_eq!(hidden_from_args(args(&[])), None);
    assert_eq!(hidden_from_args(args(&["--verbose", "true"])), None);
    assert_eq!(hidden_from_args(args(&["hidden", "true"])), None);
}

#[test]
fn option_with_a_boolean_gives_that_value() {
    assert_eq!(hidden_from_args(args(&["--hidden", "true"])), Some(true));
    assert_eq!(hidden_from_args(args(&["--hidden", "false"])), Some(false));
    assert_eq!(hidden_from_args(args(&["--other", "--hidden", "false", "rest"])), Some(false));
}

#[test]
fn first_occurrence_of_the_option_counts() {
    assert_eq!(hidden_from_args(args(&["--hidden", "false", "--hidden", "true"])), Some(false));
}

#[test]
fn malformed_option_means_hidden() {
    assert_eq!(hidden_from_args(args(&["--hidden"])), Some(true));
    assert_eq!(hidden_from_args(args(&["--hidden", "maybe"])), Some(true));
    assert_eq!(hidden_from_args(args(&["--hidden", "True"])), Some(true));
    assert_eq!(hidden_from_args(args(&["--hidden", "1"])), Some(true));
    assert_eq!(hidden_from_args(args(&["--hidden", ""])), Some(true));
}

#[test]
fn option_joined_by_an_equals_sign_is_not_the_option() {
    assert_eq!(hidden_from_args(args(&["--hidden=false"])), None);
}

#[test]
fn preference_follows_the_reading_of_the_command_line() {
    assert_eq!(hidden_preference(Some(Some(false))), Some(false));
    assert_eq!(hidden_preference(Some(Some(true))), Some(true));
    assert_eq!(hidden_preference(Some(None)), None);
    assert_eq!(hidden_preference(None), Some(true));
}
