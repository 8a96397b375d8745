use tchat::badge::DisplayMode;
use tchat::options::{parse_args, ColourMode, Command, OptionSet, UsageError};

fn args(tokens: &[&str]) -> Vec<String> {
    tokens.iter().map(|t| t.to_string()).collect()
}

fn run(tokens: &[&str]) -> OptionSet {
    match parse_args(&args(tokens)) {
        Ok(Command::Run(options)) => options,
        other => panic!("expected an option set, got {:?}", other),
    }
}

fn refused(tokens: &[&str]) -> UsageError {
    match parse_args(&args(tokens)) {
        Err(e) => e,
        other => panic!("expected a usage error, got {:?}", other),
    }
}

#[test]
fn a_channel_alone_gives_the_defaults() {
    let o = run(&["teststream"]);
    assert_eq!(o.display(), DisplayMode::Hidden);
    assert_eq!(o.colour(), ColourMode::Plain);
    assert!(!o.show_bits());
    assert!(!o.show_origin());
    assert!(!o.show_time());
    assert!(!o.quiet());
    assert_eq!(o.log_file(), None);
    assert!(o.ignored().is_empty());
    assert_eq!(o.channels(), &vec!["teststream".to_string()]);
}

#[test]
fn separate_flags_are_read() {
    let o = run(&["-c", "-b", "teststream"]);
    assert_eq!(o.colour(), ColourMode::Assigned);
    assert_eq!(o.display(), DisplayMode::Short);
    assert_eq!(o.channels(), &vec!["teststream".to_string()]);
}

#[test]
fn flags_combine_behind_one_dash() {
    let o = run(&["-CBtoTq", "a"]);
    assert_eq!(o.colour(), ColourMode::FirstBadge);
    assert_eq!(o.display(), DisplayMode::Letter);
    assert!(o.show_bits());
    assert!(o.show_origin());
    assert!(o.show_time());
    assert!(o.quiet());
}

#[test]
fn every_flag_without_a_value_sets_its_option() {
    assert_eq!(run(&["-c", "a"]).colour(), ColourMode::Assigned);
    assert_eq!(run(&["-C", "a"]).colour(), ColourMode::FirstBadge);
    assert_eq!(run(&["-b", "a"]).display(), DisplayMode::Short);
    assert_eq!(run(&["-B", "a"]).display(), DisplayMode::Letter);
    assert_eq!(run(&["-F", "a"]).display(), DisplayMode::Full);
    assert!(run(&["-t", "a"]).show_bits());
    assert!(run(&["-o", "a"]).show_origin());
    assert!(run(&["-T", "a"]).show_time());
    assert!(run(&["-q", "a"]).quiet());
}

#[test]
fn the_last_display_flag_wins() {
    assert_eq!(run(&["-bBF", "a"]).display(), DisplayMode::Full);
    assert_eq!(run(&["-F", "-b", "a"]).display(), DisplayMode::Short);
    assert_eq!(run(&["-Fb", "a", "-B"]).display(), DisplayMode::Letter);
}

#[test]
fn the_last_colour_flag_wins() {
    assert_eq!(run(&["-cC", "a"]).colour(), ColourMode::FirstBadge);
    assert_eq!(run(&["-C", "a", "-c"]).colour(), ColourMode::Assigned);
}

#[test]
fn the_log_file_takes_the_next_token() {
    let o = run(&["-q", "-f", "out.log", "teststream"]);
    assert!(o.quiet());
    assert_eq!(o.log_file(), Some("out.log"));
    assert_eq!(o.channels(), &vec!["teststream".to_string()]);
}

#[test]
fn a_later_log_file_replaces_an_earlier_one() {
    let o = run(&["-f", "one", "-f", "two", "a"]);
    assert_eq!(o.log_file(), Some("two"));
}

#[test]
fn ignored_names_add_up_in_order() {
    let o = run(&["-i", "Ann", "a", "-i", "Bob"]);
    assert_eq!(o.ignored(), &vec!["Ann".to_string(), "Bob".to_string()]);
    assert!(o.is_ignored("Ann"));
    assert!(o.is_ignored("Bob"));
    assert!(!o.is_ignored("ann"));
    assert!(!o.is_ignored("a"));
}

#[test]
fn flags_with_values_in_one_token_take_tokens_in_turn() {
    let o = run(&["-fiq", "out.log", "Ann", "chan"]);
    assert_eq!(o.log_file(), Some("out.log"));
    assert_eq!(o.ignored(), &vec!["Ann".to_string()]);
    assert!(o.quiet());
    assert_eq!(o.channels(), &vec!["chan".to_string()]);
}

#[test]
fn a_value_may_look_like_a_flag() {
    let o = run(&["-f", "-q", "chan"]);
    assert_eq!(o.log_file(), Some("-q"));
    assert!(!o.quiet());
}

#[test]
fn channels_keep_their_order_and_their_letters() {
    let o = run(&["one", "-q", "Two", "three"]);
    assert_eq!(
        o.channels(),
        &vec!["one".to_string(), "Two".to_string(), "three".to_string()]
    );
}

#[test]
fn a_lone_dash_is_a_token_of_no_flags() {
    let o = run(&["-", "chan"]);
    assert_eq!(o.channels(), &vec!["chan".to_string()]);
    assert_eq!(refused(&["-"]), UsageError::NoChannels);
}

#[test]
fn an_empty_token_names_a_channel() {
    let o = run(&[""]);
    assert_eq!(o.channels(), &vec!["".to_string()]);
}

#[test]
fn no_arguments_are_refused() {
    assert_eq!(refused(&[]), UsageError::NoChannels);
}

#[test]
fn flags_without_a_channel_are_refused() {
    assert_eq!(refused(&["-c", "-b"]), UsageError::NoChannels);
    assert_eq!(refused(&["-f", "chan"]), UsageError::NoChannels);
    assert_eq!(refused(&["-i", "chan"]), UsageError::NoChannels);
}

#[test]
fn a_flag_without_its_value_is_refused() {
    assert_eq!(refused(&["chan", "-f"]), UsageError::MissingValue('f'));
    assert_eq!(refused(&["chan", "-i"]), UsageError::MissingValue('i'));
    assert_eq!(refused(&["-fi", "only"]), UsageError::MissingValue('i'));
    assert_eq!(refused(&["-if", "only"]), UsageError::MissingValue('f'));
}

#[test]
fn an_unknown_letter_is_refused() {
    assert_eq!(refused(&["-x", "chan"]), UsageError::UnknownFlag('x'));
    assert_eq!(refused(&["-d", "chan"]), UsageError::UnknownFlag('d'));
    assert_eq!(refused(&["--", "chan"]), UsageError::UnknownFlag('-'));
    assert_eq!(refused(&["-cé", "chan"]), UsageError::UnknownFlag('é'));
}

#[test]
fn help_and_version_end_the_reading() {
    assert!(matches!(parse_args(&args(&["-h"])), Ok(Command::Help)));
    assert!(matches!(parse_args(&args(&["-V"])), Ok(Command::Version)));
    assert!(matches!(parse_args(&args(&["chan", "-qh", "-x"])), Ok(Command::Help)));
    assert!(matches!(parse_args(&args(&["-Vh"])), Ok(Command::Version)));
    assert!(matches!(parse_args(&args(&["-hf"])), Ok(Command::Help)));
}

#[test]
fn what_comes_first_decides() {
    assert_eq!(refused(&["-x", "-h"]), UsageError::UnknownFlag('x'));
    assert_eq!(refused(&["-fh"]), UsageError::MissingValue('f'));
    assert!(matches!(parse_args(&args(&["-f", "-h"])), Err(UsageError::NoChannels)));
}
