//! Colours, and text painted in a colour for the terminal.

use vstd::prelude::*;
use crate::strip::{lemma_stripped_after_plain, lemma_stripped_after_sequence, stripped};
use crate::text::{decimal, esc, escape_free, is_digit, lacks, lemma_decimal_lacks, lemma_lacks_join};

verus! {

/// A foreground colour: the terminal's own white, or a 24-bit colour.
#[derive(Clone, Copy, Debug, PartialEq, Eq, Structural)]
pub enum Colour {
    White,
    Rgb(u8, u8, u8),
}

/// A 24-bit colour by its red, green and blue components.
#[derive(Clone, Copy, Debug, PartialEq, Eq, Structural)]
pub struct Rgb {
    pub r: u8,
    pub g: u8,
    pub b: u8,
}

/// The codes of bold text in `colour`, as they stand inside a control
/// sequence: `1` for bold, then the colour's own.
pub open spec fn sgr_codes(colour: Colour) -> Seq<char> {
    match colour {
        Colour::White => seq!['1', ';', '3', '7'],
        Colour::Rgb(r, g, b) => seq!['1', ';', '3', '8', ';', '2', ';'] + decimal(r as nat)
            + seq![';'] + decimal(g as nat) + seq![';'] + decimal(b as nat),
    }
}

/// The control sequence that switches the terminal to bold text in `colour`.
pub open spec fn sgr_open(colour: Colour) -> Seq<char> {
    seq![esc(), '['] + sgr_codes(colour) + seq!['m']
}

/// The control sequence that switches the terminal back to its plain style.
pub open spec fn sgr_reset() -> Seq<char> {
    seq![esc(), '[', '0', 'm']
}

/// `text` as the terminal shows it bold and in `colour`: switched on before
/// the text and reset after it.
pub open spec fn painted(colour: Colour, text: Seq<char>) -> Seq<char> {
    sgr_open(colour) + text + sgr_reset()
}

/// The codes of a colour hold digits and semicolons only.
pub proof fn lemma_codes_lack(colour: Colour, c: char)
    requires
        !is_digit(c),
        c != ';',
    ensures
        lacks(sgr_codes(colour), c),
{
    match colour {
        Colour::White => {},
        Colour::Rgb(r, g, b) => {
            let red = seq!['1', ';', '3', '8', ';', '2', ';'] + decimal(r as nat);
            let green = red + seq![';'] + decimal(g as nat);
            lemma_decimal_lacks(r as nat, c);
            lemma_decimal_lacks(g as nat, c);
            lemma_decimal_lacks(b as nat, c);
            lemma_lacks_join(seq!['1', ';', '3', '8', ';', '2', ';'], decimal(r as nat), c);
            lemma_lacks_join(red, seq![';'], c);
            lemma_lacks_join(red + seq![';'], decimal(g as nat), c);
            lemma_lacks_join(green, seq![';'], c);
            lemma_lacks_join(green + seq![';'], decimal(b as nat), c);
        },
    }
}

/// Painting adds to a text only what control sequences are made of: the
/// escape character, `[`, digits, `;` and `m`.
pub proof fn lemma_painted_lacks(colour: Colour, text: Seq<char>, c: char)
    requires
        lacks(text, c),
        !is_digit(c),
        c != esc(),
        c != '[',
        c != ';',
        c != 'm',
    ensures
        lacks(painted(colour, text), c),
{
    let start = seq![esc(), '['];
    lemma_codes_lack(colour, c);
    lemma_lacks_join(start, sgr_codes(colour), c);
    lemma_lacks_join(start + sgr_codes(colour), seq!['m'], c);
    lemma_lacks_join(sgr_open(colour), text, c);
    lemma_lacks_join(sgr_open(colour) + text, sgr_reset(), c);
}

/// Painted text is stripped to the text itself, and stripping goes on behind
/// it.
pub proof fn lemma_stripped_painted(colour: Colour, text: Seq<char>, b: Seq<char>)
    requires
        escape_free(text),
    ensures
        stripped(painted(colour, text) + b) == text + stripped(b),
{
    let open_codes = seq!['['] + sgr_codes(colour);
    let reset_codes = seq!['[', '0'];
    let behind = sgr_reset() + b;
    lemma_codes_lack(colour, 'm');
    lemma_lacks_join(seq!['['], sgr_codes(colour), 'm');
    assert(painted(colour, text) + b =~= seq![esc()] + open_codes + seq!['m'] + (text + behind));
    lemma_stripped_after_sequence(open_codes, text + behind);
    lemma_stripped_after_plain(text, behind);
    assert(behind =~= seq![esc()] + reset_codes + seq!['m'] + b);
    lemma_stripped_after_sequence(reset_codes, b);
}

/// Paints `text` bold in `colour`.
///
/// Trusted: the body calls `ansi_term::Colour::bold`, `ansi_term::Style::paint`
/// and the `Display` impl of the painted string. Of these the contract claims
/// that they write the style's prefix (`ESC [ 1 ; 37 m` for white,
/// `ESC [ 1 ; 38 ; 2 ; r ; g ; b m` with unpadded decimal components for a
/// 24-bit colour), then the text unchanged, then the reset `ESC [ 0 m`.
#[verifier::external_body]
pub(crate) fn paint_bold(colour: Colour, text: &str) -> (s: String)
    ensures
        s@ == painted(colour, text@),
{
    let tint = match colour {
        Colour::White => ansi_term::Colour::White,
        Colour::Rgb(r, g, b) => ansi_term::Colour::RGB(r, g, b),
    };
    tint.bold().paint(text).to_string()
}

} // verus!
