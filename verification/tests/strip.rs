use tchat::strip::strip_ansi;

#[test]
fn strip_removes_a_colour_sequence() {
    assert_eq!(strip_ansi("\x1b[1;37mAnn: \x1b[0mhi\n"), "Ann: hi\n");
}

#[test]
fn strip_keeps_text_without_sequences() {
    assert_eq!(strip_ansi("12:30 [chan]: Ann: hi mum\n"), "12:30 [chan]: Ann: hi mum\n");
    assert_eq!(strip_ansi(""), "");
    assert_eq!(strip_ansi("m"), "m");
}

#[test]
fn strip_keeps_an_escape_with_no_end() {
    assert_eq!(strip_ansi("a\x1b[1;37 b\n"), "a\x1b[1;37 b\n");
    assert_eq!(strip_ansi("\x1b"), "\x1b");
    assert_eq!(strip_ansi("x\x1b[0m\x1b[1"), "x\x1b[1");
}

#[test]
fn strip_ends_a_sequence_at_the_first_m() {
    assert_eq!(strip_ansi("\x1bmm"), "m");
    assert_eq!(strip_ansi("a\x1b[38;2;1;2;3mbmc"), "abmc");
    assert_eq!(strip_ansi("\x1b\x1bmx"), "x");
}

#[test]
fn strip_removes_all_of_several_sequences() {
    assert_eq!(
        strip_ansi("\x1b[1;38;2;130;5;180m|sub|\x1b[0m\x1b[1;38;2;0;173;3m|mod|\x1b[0m x\n"),
        "|sub||mod| x\n"
    );
}

#[test]
fn strip_keeps_other_characters_as_they_are() {
    assert_eq!(strip_ansi("\x1b[1mgrüß\x1b[0m 日本語\t\r\n"), "grüß 日本語\t\r\n");
}

#[test]
fn stripping_twice_is_stripping_once() {
    for text in [
        "",
        "plain\n",
        "\x1b[1;37mAnn: \x1b[0mhi\n",
        "a\x1b[1;37 b\n",
        "\x1bmm\x1b",
        "\x1b\x1bmm\x1bxm",
        "x\x1b[0m\x1b[1",
    ] {
        let once = strip_ansi(text);
        assert_eq!(strip_ansi(&once), once);
    }
}

#[test]
fn what_is_left_holds_no_sequence() {
    for text in [
        "\x1b[1;37mAnn: \x1b[0mhi mum\n",
        "\x1bmm\x1b",
        "m\x1b\x1bmm\x1bx",
        "am\x1b[0",
    ] {
        let left = strip_ansi(text);
        if let Some(at) = left.find('\x1b') {
            assert!(!left[at..].contains('m'), "{:?}", left);
        }
    }
    assert_eq!(strip_ansi("am\x1b[0"), "am\x1b[0");
}
