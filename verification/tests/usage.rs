use tchat::options::UsageError;
use tchat::usage::{help_text, HELP, HINT, USAGE};

#[test]
fn the_help_is_the_usage_line_then_the_description() {
    assert_eq!(help_text(), format!("{}\n\n{}", USAGE, HELP));
    assert!(help_text().starts_with("Usage: tchat ["));
    assert!(help_text().ends_with("filter multiple users.\n"));
}

#[test]
fn a_missing_value_names_its_flag() {
    assert_eq!(
        UsageError::MissingValue('f').describe(),
        format!("Missing argument after `-f`\n {}\n{}", USAGE, HINT)
    );
    assert_eq!(
        UsageError::MissingValue('i').describe(),
        format!("Missing argument after `-i`\n {}\n{}", USAGE, HINT)
    );
}

#[test]
fn other_errors_show_the_usage_line_and_the_hint() {
    let note = "Usage: tchat [-bBcCFhoqtTV] [-f file] [-i username] [username ...]\nTry the `-h` flag for more info.";
    assert_eq!(UsageError::UnknownFlag('x').describe(), note);
    assert_eq!(UsageError::NoChannels.describe(), note);
}
