//! What holds of every line: how stripping undoes painting, what a line
//! without badges holds, and how a line ends.

use vstd::prelude::*;
use crate::badge::{label, palette, Badge, DisplayMode};
use crate::colour::{lemma_painted_lacks, lemma_stripped_painted};
use crate::event::EventView;
use crate::line::{
    badge_block, badge_blocks, bits_part, bits_text, gap, head, line, name_colour, name_part,
    name_text, origin_part, plain_line, time_part, wants_gap,
};
use crate::options::{ColourMode, OptionsView};
use crate::strip::{
    lemma_stripped_after_plain, lemma_stripped_keeps_end, lemma_stripped_with_end, stripped,
};
use crate::text::{
    decimal, esc, escape_free, is_digit, lacks, lemma_decimal_lacks, lemma_lacks_join,
};

verus! {

/// What neither the channel holds nor a square bracket, a colon or a space
/// is, the channel in its brackets does not hold.
pub proof fn lemma_origin_lacks(e: EventView, o: OptionsView, c: char)
    requires
        o.show_origin ==> lacks(e.channel, c),
        c != '[',
        c != ']',
        c != ':',
        c != ' ',
    ensures
        lacks(origin_part(e, o), c),
{
    if o.show_origin {
        lemma_lacks_join(seq!['['], e.channel, c);
        lemma_lacks_join(seq!['['] + e.channel, seq![']', ':', ' '], c);
    }
}

/// An amount of bits between its exclamation marks holds digits and
/// exclamation marks only.
pub proof fn lemma_bits_text_lacks(amount: u64, c: char)
    requires
        !is_digit(c),
        c != '!',
    ensures
        lacks(bits_text(amount), c),
{
    lemma_decimal_lacks(amount as nat, c);
    lemma_lacks_join(seq!['!'], decimal(amount as nat), c);
    lemma_lacks_join(seq!['!'] + decimal(amount as nat), seq!['!'], c);
}

/// What neither the sender's name holds nor a colon or a space is, the name
/// with its colon and space does not hold.
pub proof fn lemma_name_text_lacks(e: EventView, c: char)
    requires
        lacks(e.sender, c),
        c != ':',
        c != ' ',
    ensures
        lacks(name_text(e), c),
{
    lemma_lacks_join(e.sender, seq![':', ' '], c);
}

/// The painted bits are stripped to the amount between its exclamation marks,
/// and stripping goes on behind them.
pub proof fn lemma_stripped_bits(e: EventView, o: OptionsView, b: Seq<char>)
    ensures
        stripped(bits_part(e, o, true) + b) == bits_part(e, o, false) + stripped(b),
{
    match e.bits {
        Some(amount) if o.show_bits => {
            lemma_bits_text_lacks(amount, esc());
            lemma_stripped_painted(Badge::Bits.colour_spec(), bits_text(amount), b);
        },
        _ => {
            assert(bits_part(e, o, true) + b =~= b);
            assert(bits_part(e, o, false) + stripped(b) =~= stripped(b));
        },
    }
}

/// The blocks of badges are stripped to their labels between pipes, and
/// stripping goes on behind them.
pub proof fn lemma_stripped_blocks(ids: Seq<Seq<char>>, mode: DisplayMode, b: Seq<char>)
    requires
        forall|i: int| 0 <= i < ids.len() ==> escape_free(#[trigger] label(ids[i], mode)),
    ensures
        stripped(badge_blocks(ids, mode, true) + b) == badge_blocks(ids, mode, false) + stripped(
            b,
        ),
    decreases ids.len(),
{
    if mode == DisplayMode::Hidden || ids.len() == 0 {
        assert(badge_blocks(ids, mode, true) + b =~= b);
        assert(badge_blocks(ids, mode, false) + stripped(b) =~= stripped(b));
    } else {
        let front = ids.drop_last();
        let text = seq!['|'] + label(ids.last(), mode) + seq!['|'];
        let block = badge_block(ids.last(), mode, true);
        assert(escape_free(text)) by {
            assert(escape_free(label(ids.last(), mode)));
            lemma_lacks_join(seq!['|'], label(ids.last(), mode), esc());
            lemma_lacks_join(seq!['|'] + label(ids.last(), mode), seq!['|'], esc());
        }
        assert forall|i: int| 0 <= i < front.len() implies escape_free(
            #[trigger] label(front[i], mode),
        ) by {
            assert(front[i] == ids[i]);
        }
        lemma_stripped_blocks(front, mode, block + b);
        lemma_stripped_painted(palette(ids.last()), text, b);
        assert(badge_blocks(ids, mode, true) + b =~= badge_blocks(front, mode, true) + (block
            + b));
        assert(badge_blocks(front, mode, false) + (text + stripped(b)) =~= badge_blocks(
            ids,
            mode,
            false,
        ) + stripped(b));
    }
}

/// Where badges are shown and there are some, their blocks end in the `m` of
/// a reset where painted, and in a pipe where not.
pub proof fn lemma_blocks_end(ids: Seq<Seq<char>>, mode: DisplayMode, paint: bool)
    requires
        mode != DisplayMode::Hidden,
        ids.len() > 0,
    ensures
        badge_blocks(ids, mode, paint).len() > 0,
        badge_blocks(ids, mode, paint).last() == if paint {
            'm'
        } else {
            '|'
        },
{
}

/// What the round trip asks of a message: no text that gets painted, or that
/// stands before painted text, holds an escape character, and the message
/// itself holds no control sequence.
pub open spec fn printable(e: EventView, o: OptionsView, clock: Seq<char>) -> bool {
    &&& o.show_time ==> escape_free(clock)
    &&& o.show_origin ==> escape_free(e.channel)
    &&& forall|i: int|
        0 <= i < e.badges.len() ==> escape_free(#[trigger] label(e.badges[i], o.display))
    &&& escape_free(e.sender)
    &&& stripped(e.text) == e.text
}

/// Four texts and what is behind them, one after the other, however they are
/// grouped.
proof fn lemma_regroup(a: Seq<char>, b: Seq<char>, c: Seq<char>, d: Seq<char>, behind: Seq<char>)
    ensures
        a + b + c + d + behind == a + (b + (c + (d + behind))),
{
    assert(a + b + c + d + behind =~= a + (b + (c + (d + behind))));
}

/// What stands before the name is stripped to the same without its colours,
/// and stripping goes on behind it.
pub proof fn lemma_stripped_head(e: EventView, o: OptionsView, clock: Seq<char>, b: Seq<char>)
    requires
        printable(e, o, clock),
    ensures
        stripped(head(e, o, clock, true) + b) == head(e, o, clock, false) + stripped(b),
{
    let time = time_part(o, clock);
    let origin = origin_part(e, o);
    let bits = bits_part(e, o, true);
    let bits_plain = bits_part(e, o, false);
    let blocks = badge_blocks(e.badges, o.display, true);
    let blocks_plain = badge_blocks(e.badges, o.display, false);
    lemma_origin_lacks(e, o, esc());
    lemma_stripped_blocks(e.badges, o.display, b);
    lemma_stripped_bits(e, o, blocks + b);
    lemma_stripped_after_plain(origin, bits + (blocks + b));
    lemma_stripped_after_plain(time, origin + (bits + (blocks + b)));
    lemma_regroup(time, origin, bits, blocks, b);
    lemma_regroup(time, origin, bits_plain, blocks_plain, stripped(b));
}

/// A space follows what stands before the name with its colours exactly where
/// one follows the same without them.
pub proof fn lemma_same_gap(e: EventView, o: OptionsView, clock: Seq<char>)
    ensures
        wants_gap(head(e, o, clock, true)) == wants_gap(head(e, o, clock, false)),
{
    let fixed = time_part(o, clock) + origin_part(e, o);
    if o.display != DisplayMode::Hidden && e.badges.len() > 0 {
        lemma_blocks_end(e.badges, o.display, true);
        lemma_blocks_end(e.badges, o.display, false);
    } else {
        assert(head(e, o, clock, true) =~= fixed + bits_part(e, o, true));
        assert(head(e, o, clock, false) =~= fixed + bits_part(e, o, false));
        match e.bits {
            Some(amount) if o.show_bits => {},
            _ => {
                assert(fixed + bits_part(e, o, true) =~= fixed);
                assert(fixed + bits_part(e, o, false) =~= fixed);
            },
        }
    }
}

/// The painted name is stripped to the name, and stripping goes on behind it.
pub proof fn lemma_stripped_name(e: EventView, o: OptionsView, b: Seq<char>)
    requires
        escape_free(e.sender),
    ensures
        stripped(name_part(e, o, true) + b) == name_part(e, o, false) + stripped(b),
{
    lemma_name_text_lacks(e, esc());
    match name_colour(e, o) {
        Some(colour) => lemma_stripped_painted(colour, name_text(e), b),
        None => lemma_stripped_after_plain(name_text(e), b),
    }
}

/// A line put together from its parts is stripped part by part.
proof fn lemma_stripped_parts(
    before: Seq<char>,
    before_plain: Seq<char>,
    space: Seq<char>,
    name: Seq<char>,
    name_plain: Seq<char>,
    text: Seq<char>,
)
    requires
        stripped(before + (space + (name + (text + seq!['\n'])))) == before_plain + stripped(
            space + (name + (text + seq!['\n'])),
        ),
        stripped(space + (name + (text + seq!['\n']))) == space + stripped(
            name + (text + seq!['\n']),
        ),
        stripped(name + (text + seq!['\n'])) == name_plain + stripped(text + seq!['\n']),
        stripped(text + seq!['\n']) == text + seq!['\n'],
    ensures
        stripped(before + space + name + text + seq!['\n']) == before_plain + space + name_plain
            + text + seq!['\n'],
{
    let end = text + seq!['\n'];
    assert(before + space + name + text + seq!['\n'] =~= before + (space + (name + end)));
    assert(before_plain + space + name_plain + text + seq!['\n'] =~= before_plain + (space + (
        name_plain + end)));
}

/// Stripping a line gives what the line says without any colour.
pub proof fn lemma_stripped_line(e: EventView, o: OptionsView, clock: Seq<char>)
    requires
        printable(e, o, clock),
    ensures
        stripped(line(e, o, clock)) == plain_line(e, o, clock),
{
    let before = head(e, o, clock, true);
    let before_plain = head(e, o, clock, false);
    let space = gap(before);
    let name = name_part(e, o, true);
    let name_plain = name_part(e, o, false);
    let end = e.text + seq!['\n'];
    assert(gap(before_plain) == space) by {
        lemma_same_gap(e, o, clock);
    }
    assert(stripped(end) == end) by {
        lemma_stripped_with_end(e.text, '\n');
        assert(e.text.push('\n') =~= end);
    }
    assert(escape_free(space));
    lemma_stripped_name(e, o, end);
    lemma_stripped_after_plain(space, name + end);
    lemma_stripped_head(e, o, clock, space + (name + end));
    lemma_stripped_parts(before, before_plain, space, name, name_plain, e.text);
}

/// The option set `o` with names not coloured.
pub open spec fn uncoloured(o: OptionsView) -> OptionsView {
    OptionsView { colour: ColourMode::Plain, ..o }
}

/// Round trip: where names are coloured, the line without its control
/// sequences is, character for character, what the line says without any
/// colour; and that is what is left of the line that the same message gives
/// with names not coloured. Where that second line has nothing painted in it
/// (no bits shown, no badges shown), it is itself what is left of the first.
pub proof fn lemma_colour_round_trip(e: EventView, o: OptionsView, clock: Seq<char>)
    requires
        o.colour != ColourMode::Plain,
        printable(e, o, clock),
    ensures
        stripped(line(e, o, clock)) == plain_line(e, o, clock),
        stripped(line(e, o, clock)) == stripped(line(e, uncoloured(o), clock)),
        bits_part(e, o, true).len() == 0 && badge_blocks(e.badges, o.display, true).len() == 0
            ==> stripped(line(e, o, clock)) == line(e, uncoloured(o), clock),
{
    let plain = uncoloured(o);
    lemma_stripped_line(e, o, clock);
    lemma_stripped_line(e, plain, clock);
    assert(plain_line(e, plain, clock) == plain_line(e, o, clock));
    if bits_part(e, o, true).len() == 0 && badge_blocks(e.badges, o.display, true).len() == 0 {
        assert(bits_part(e, plain, false) =~= bits_part(e, plain, true));
        assert(badge_blocks(e.badges, plain.display, false).len() == 0) by {
            if plain.display != DisplayMode::Hidden && e.badges.len() > 0 {
                lemma_blocks_end(e.badges, plain.display, true);
            }
        }
        assert(head(e, plain, clock, true) =~= head(e, plain, clock, false));
        assert(line(e, plain, clock) =~= plain_line(e, plain, clock));
    }
}

/// A message without badges gives a line without badge blocks: nothing stands
/// between the bits and the name, however badges are shown; and where neither
/// the clock, the channel, the sender's name nor the message holds a pipe, the
/// line holds none.
pub proof fn lemma_no_badges(e: EventView, o: OptionsView, clock: Seq<char>)
    requires
        e.badges.len() == 0,
    ensures
        badge_blocks(e.badges, o.display, true) == Seq::<char>::empty(),
        head(e, o, clock, true) == time_part(o, clock) + origin_part(e, o) + bits_part(
            e,
            o,
            true,
        ),
        lacks(clock, '|') && lacks(e.channel, '|') && lacks(e.sender, '|') && lacks(e.text, '|')
            ==> lacks(line(e, o, clock), '|'),
{
    let time = time_part(o, clock);
    let origin = origin_part(e, o);
    let bits = bits_part(e, o, true);
    let name = name_part(e, o, true);
    let before = head(e, o, clock, true);
    assert(before =~= time + origin + bits);
    if lacks(clock, '|') && lacks(e.channel, '|') && lacks(e.sender, '|') && lacks(e.text, '|') {
        lemma_origin_lacks(e, o, '|');
        assert(lacks(bits, '|')) by {
            match e.bits {
                Some(amount) if o.show_bits => {
                    lemma_bits_text_lacks(amount, '|');
                    lemma_painted_lacks(Badge::Bits.colour_spec(), bits_text(amount), '|');
                },
                _ => {},
            }
        }
        assert(lacks(name, '|')) by {
            lemma_name_text_lacks(e, '|');
            match name_colour(e, o) {
                Some(colour) => lemma_painted_lacks(colour, name_text(e), '|'),
                None => {},
            }
        }
        lemma_lacks_join(time, origin, '|');
        lemma_lacks_join(time + origin, bits, '|');
        lemma_lacks_join(before, gap(before), '|');
        lemma_lacks_join(before + gap(before), name, '|');
        lemma_lacks_join(before + gap(before) + name, e.text, '|');
        lemma_lacks_join(before + gap(before) + name + e.text, seq!['\n'], '|');
    }
}

/// Every line ends with the message as it came, and a newline; so does what
/// the line says without any colour. What is left of a line after stripping
/// still ends with a newline.
pub proof fn lemma_line_end(e: EventView, o: OptionsView, clock: Seq<char>)
    ensures
        line(e, o, clock).len() > e.text.len(),
        line(e, o, clock).skip(line(e, o, clock).len() - e.text.len() - 1) == e.text + seq![
            '\n',
        ],
        plain_line(e, o, clock).skip(plain_line(e, o, clock).len() - e.text.len() - 1) == e.text
            + seq!['\n'],
        stripped(line(e, o, clock)).len() > 0,
        stripped(line(e, o, clock)).last() == '\n',
{
    let end = e.text + seq!['\n'];
    let whole = line(e, o, clock);
    let front = head(e, o, clock, true) + gap(head(e, o, clock, true)) + name_part(e, o, true);
    assert(whole =~= front + end);
    assert(whole.skip(whole.len() - e.text.len() - 1) =~= end);
    let plain = plain_line(e, o, clock);
    let plain_front = head(e, o, clock, false) + gap(head(e, o, clock, false)) + name_part(
        e,
        o,
        false,
    );
    assert(plain =~= plain_front + end);
    assert(plain.skip(plain.len() - e.text.len() - 1) =~= end);
    lemma_stripped_keeps_end(whole);
}

} // verus!
