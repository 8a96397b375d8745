use tchat::colour::Rgb;
use tchat::event::ChatEvent;
use tchat::line::format_line;
use tchat::options::{parse_args, Command, OptionSet};
use tchat::strip::strip_ansi;

fn options(tokens: &[&str]) -> OptionSet {
    let args: Vec<String> = tokens.iter().map(|t| t.to_string()).collect();
    match parse_args(&args) {
        Ok(Command::Run(options)) => options,
        other => panic!("expected an option set, got {:?}", other),
    }
}

fn ann() -> ChatEvent {
    ChatEvent {
        sender: "Ann".to_string(),
        colour: Some(Rgb { r: 1, g: 2, b: 3 }),
        badges: vec!["subscriber".to_string()],
        bits: None,
        channel: "teststream".to_string(),
        text: "hi".to_string(),
    }
}

fn bob() -> ChatEvent {
    ChatEvent {
        sender: "Bob".to_string(),
        colour: None,
        badges: vec![],
        bits: Some(100),
        channel: "teststream".to_string(),
        text: "cheer100 well played".to_string(),
    }
}

#[test]
fn coloured_name_after_a_short_badge() {
    let line = format_line(&ann(), &options(&["-c", "-b", "teststream"]), "");
    assert_eq!(
        line,
        "\x1b[1;38;2;130;5;180m|sub|\x1b[0m \x1b[1;38;2;1;2;3mAnn: \x1b[0mhi\n"
    );
}

#[test]
fn painted_parts_are_what_the_terminal_library_paints() {
    let line = format_line(&ann(), &options(&["-c", "-b", "teststream"]), "");
    let block = ansi_term::Colour::RGB(130, 5, 180).bold().paint("|sub|").to_string();
    let name = ansi_term::Colour::RGB(1, 2, 3).bold().paint("Ann: ").to_string();
    assert_eq!(line, format!("{} {}hi\n", block, name));
    assert_ne!(line, "|sub| Ann: hi\n");
}

#[test]
fn a_bare_line_is_name_and_message() {
    assert_eq!(format_line(&ann(), &options(&["chan"]), "12:30 "), "Ann: hi\n");
}

#[test]
fn the_clock_stands_first_where_the_time_is_shown() {
    assert_eq!(format_line(&ann(), &options(&["-T", "chan"]), "09:05 "), "09:05 Ann: hi\n");
}

#[test]
fn a_clock_without_its_space_gets_one() {
    assert_eq!(format_line(&ann(), &options(&["-T", "chan"]), "09:05"), "09:05 Ann: hi\n");
    assert_eq!(format_line(&ann(), &options(&["-T", "chan"]), ""), "Ann: hi\n");
}

#[test]
fn the_origin_stands_in_square_brackets() {
    assert_eq!(
        format_line(&ann(), &options(&["-o", "chan"]), ""),
        "[teststream]: Ann: hi\n"
    );
    assert_eq!(
        format_line(&ann(), &options(&["-To", "chan"]), "23:59 "),
        "23:59 [teststream]: Ann: hi\n"
    );
}

#[test]
fn bits_stand_between_exclamation_marks_in_gold() {
    assert_eq!(
        format_line(&bob(), &options(&["-t", "chan"]), ""),
        "\x1b[1;38;2;193;178;17m!100!\x1b[0m Bob: cheer100 well played\n"
    );
}

#[test]
fn bits_are_written_in_decimal() {
    let mut event = bob();
    let gold = "\x1b[1;38;2;193;178;17m";
    for (amount, numeral) in [
        (0u64, "0"),
        (7, "7"),
        (10, "10"),
        (4096, "4096"),
        (u64::MAX, "18446744073709551615"),
    ] {
        event.bits = Some(amount);
        assert_eq!(
            format_line(&event, &options(&["-t", "chan"]), ""),
            format!("{}!{}!\x1b[0m Bob: cheer100 well played\n", gold, numeral)
        );
    }
}

#[test]
fn bits_are_left_out_where_not_asked_for_or_not_there() {
    assert_eq!(
        format_line(&bob(), &options(&["chan"]), ""),
        "Bob: cheer100 well played\n"
    );
    assert_eq!(format_line(&ann(), &options(&["-t", "chan"]), ""), "Ann: hi\n");
}

#[test]
fn badges_come_in_their_order_with_nothing_between() {
    let mut event = ann();
    event.badges = vec![
        "broadcaster".to_string(),
        "premium".to_string(),
        "vip".to_string(),
    ];
    assert_eq!(
        format_line(&event, &options(&["-B", "chan"]), ""),
        "\x1b[1;38;2;233;25;22m|B|\x1b[0m\x1b[1;38;2;200;200;200m|?|\x1b[0m\x1b[1;38;2;244;5;185m|v|\x1b[0m Ann: hi\n"
    );
    assert_eq!(
        format_line(&event, &options(&["-F", "chan"]), ""),
        "\x1b[1;38;2;233;25;22m|broadcaster|\x1b[0m\x1b[1;38;2;200;200;200m|premium|\x1b[0m\x1b[1;38;2;244;5;185m|vip|\x1b[0m Ann: hi\n"
    );
}

#[test]
fn hidden_badges_leave_no_block() {
    assert_eq!(format_line(&ann(), &options(&["chan"]), ""), "Ann: hi\n");
}

#[test]
fn a_message_without_badges_has_no_block() {
    for flags in ["-b", "-B", "-F", "-cbtoT", "-CF"] {
        let line = format_line(&bob(), &options(&[flags, "chan"]), "10:00 ");
        assert!(!line.contains('|'), "{:?}", line);
    }
    assert_eq!(
        format_line(&bob(), &options(&["-F", "chan"]), ""),
        format_line(&bob(), &options(&["chan"]), "")
    );
}

#[test]
fn a_name_without_an_assigned_colour_is_white() {
    assert_eq!(
        format_line(&bob(), &options(&["-c", "chan"]), ""),
        "\x1b[1;37mBob: \x1b[0mcheer100 well played\n"
    );
}

#[test]
fn a_name_takes_the_colour_of_the_first_badge() {
    let mut event = ann();
    event.badges = vec!["moderator".to_string(), "subscriber".to_string()];
    assert_eq!(
        format_line(&event, &options(&["-C", "chan"]), ""),
        "\x1b[1;38;2;0;173;3mAnn: \x1b[0mhi\n"
    );
    event.badges = vec!["premium".to_string()];
    assert_eq!(
        format_line(&event, &options(&["-C", "chan"]), ""),
        "\x1b[1;38;2;200;200;200mAnn: \x1b[0mhi\n"
    );
}

#[test]
fn a_name_without_badges_is_bright_white_by_first_badge() {
    assert_eq!(
        format_line(&bob(), &options(&["-C", "chan"]), ""),
        "\x1b[1;38;2;255;255;255mBob: \x1b[0mcheer100 well played\n"
    );
}

#[test]
fn everything_at_once() {
    let mut event = ann();
    event.bits = Some(5);
    assert_eq!(
        format_line(&event, &options(&["-cbtoT", "chan"]), "07:00 "),
        "07:00 [teststream]: \x1b[1;38;2;193;178;17m!5!\x1b[0m\x1b[1;38;2;130;5;180m|sub|\x1b[0m \x1b[1;38;2;1;2;3mAnn: \x1b[0mhi\n"
    );
}

#[test]
fn every_line_ends_with_the_message_and_a_newline() {
    let mut event = ann();
    event.text = "so \x1b it goes | m".to_string();
    for flags in ["-q", "-c", "-CbtoT", "-F"] {
        let line = format_line(&event, &options(&[flags, "chan"]), "10:00 ");
        assert!(line.ends_with("so \x1b it goes | m\n"), "{:?}", line);
    }
}

#[test]
fn stripping_a_coloured_line_gives_the_plain_text() {
    let mut event = ann();
    event.bits = Some(5);
    let coloured = format_line(&event, &options(&["-cbtoT", "chan"]), "07:00 ");
    assert_eq!(strip_ansi(&coloured), "07:00 [teststream]: !5!|sub| Ann: hi\n");
    let uncoloured = format_line(&event, &options(&["-btoT", "chan"]), "07:00 ");
    assert_eq!(strip_ansi(&coloured), strip_ansi(&uncoloured));
}

#[test]
fn with_nothing_else_painted_the_stripped_line_is_the_uncoloured_line() {
    for flag in ["-c", "-C"] {
        let coloured = format_line(&ann(), &options(&[flag, "-oT", "chan"]), "07:00 ");
        let uncoloured = format_line(&ann(), &options(&["-oT", "chan"]), "07:00 ");
        assert_ne!(coloured, uncoloured);
        assert_eq!(strip_ansi(&coloured), uncoloured);
        assert_eq!(uncoloured, "07:00 [teststream]: Ann: hi\n");
    }
}

#[test]
fn the_same_input_gives_the_same_line() {
    let o = options(&["-cbtoT", "chan"]);
    assert_eq!(format_line(&ann(), &o, "07:00 "), format_line(&ann(), &o, "07:00 "));
}
