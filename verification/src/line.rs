//! The display line of a chat message.
//!
//! From left to right a line holds: the time, where it is shown; the channel
//! in square brackets, where it is shown; the amount of bits between
//! exclamation marks, painted; one painted block per badge, its label between
//! pipes; one space, where anything stands before the name and does not end in
//! a space already; the sender's name with a colon and a space, painted or
//! plain; the message; a newline.

use vstd::prelude::*;
use crate::badge::{badge_colour, label, palette, render, Badge, DisplayMode};
use crate::colour::{paint_bold, painted, Colour};
use crate::event::{ChatEvent, EventView};
use crate::options::{ColourMode, OptionSet, OptionsView};
use crate::text::{chars_of, decimal, push_decimal};

verus! {

/// `text` in `colour` where `paint` is set, and as it is where not.
pub open spec fn styled(paint: bool, colour: Colour, text: Seq<char>) -> Seq<char> {
    if paint {
        painted(colour, text)
    } else {
        text
    }
}

/// The time before a line: the clock's text where the time is shown.
pub open spec fn time_part(o: OptionsView, clock: Seq<char>) -> Seq<char> {
    if o.show_time {
        clock
    } else {
        Seq::empty()
    }
}

/// The channel before a line: `[channel]: ` where the origin is shown.
pub open spec fn origin_part(e: EventView, o: OptionsView) -> Seq<char> {
    if o.show_origin {
        seq!['['] + e.channel + seq![']', ':', ' ']
    } else {
        Seq::empty()
    }
}

/// An amount of bits between exclamation marks.
pub open spec fn bits_text(amount: u64) -> Seq<char> {
    seq!['!'] + decimal(amount as nat) + seq!['!']
}

/// The bits of a line: the amount in the colour of the bits badge, where bits
/// are shown and the message came with some.
pub open spec fn bits_part(e: EventView, o: OptionsView, paint: bool) -> Seq<char> {
    match e.bits {
        Some(amount) if o.show_bits => styled(paint, Badge::Bits.colour_spec(), bits_text(amount)),
        _ => Seq::empty(),
    }
}

/// The block of one badge: its label between pipes, in its colour.
pub open spec fn badge_block(id: Seq<char>, mode: DisplayMode, paint: bool) -> Seq<char> {
    styled(paint, palette(id), seq!['|'] + label(id, mode) + seq!['|'])
}

/// The blocks of the badges `ids`, in their order and with nothing between
/// them; nothing at all where badges are hidden.
pub open spec fn badge_blocks(ids: Seq<Seq<char>>, mode: DisplayMode, paint: bool) -> Seq<char>
    decreases ids.len(),
{
    if mode == DisplayMode::Hidden || ids.len() == 0 {
        Seq::empty()
    } else {
        badge_blocks(ids.drop_last(), mode, paint) + badge_block(ids.last(), mode, paint)
    }
}

/// All that stands before the sender's name, but for the space.
pub open spec fn head(e: EventView, o: OptionsView, clock: Seq<char>, paint: bool) -> Seq<char> {
    time_part(o, clock) + origin_part(e, o) + bits_part(e, o, paint) + badge_blocks(
        e.badges,
        o.display,
        paint,
    )
}

/// Whether a space has to follow `before`: it is not empty and does not end
/// in a space.
pub open spec fn wants_gap(before: Seq<char>) -> bool {
    before.len() > 0 && before.last() != ' '
}

/// The space between what stands before the name and the name.
pub open spec fn gap(before: Seq<char>) -> Seq<char> {
    if wants_gap(before) {
        seq![' ']
    } else {
        Seq::empty()
    }
}

/// The colour of the sender's name, or `None` where names are not coloured.
pub open spec fn name_colour(e: EventView, o: OptionsView) -> Option<Colour> {
    match o.colour {
        ColourMode::Plain => None,
        ColourMode::Assigned => Some(
            match e.colour {
                Some(rgb) => Colour::Rgb(rgb.r, rgb.g, rgb.b),
                None => Colour::White,
            },
        ),
        ColourMode::FirstBadge => Some(
            if e.badges.len() > 0 {
                palette(e.badges[0])
            } else {
                Colour::Rgb(255, 255, 255)
            },
        ),
    }
}

/// The sender's name with the colon and the space that follow it.
pub open spec fn name_text(e: EventView) -> Seq<char> {
    e.sender + seq![':', ' ']
}

/// The name of a line: painted where names are coloured, plain where not.
pub open spec fn name_part(e: EventView, o: OptionsView, paint: bool) -> Seq<char> {
    match name_colour(e, o) {
        Some(colour) => styled(paint, colour, name_text(e)),
        None => name_text(e),
    }
}

/// The line of `e` under `o`, with its colours where `paint` is set and
/// without any where not.
pub open spec fn composed(e: EventView, o: OptionsView, clock: Seq<char>, paint: bool) -> Seq<
    char,
> {
    let before = head(e, o, clock, paint);
    before + gap(before) + name_part(e, o, paint) + e.text + seq!['\n']
}

/// The display line of `e` under `o`, at the time that `clock` reads.
pub open spec fn line(e: EventView, o: OptionsView, clock: Seq<char>) -> Seq<char> {
    composed(e, o, clock, true)
}

/// What the display line says, with no colour in it.
pub open spec fn plain_line(e: EventView, o: OptionsView, clock: Seq<char>) -> Seq<char> {
    composed(e, o, clock, false)
}

/// The colour of the sender's name, or `None` where names are not coloured.
pub fn sender_colour(event: &ChatEvent, options: &OptionSet) -> (c: Option<Colour>)
    ensures
        c == name_colour(event@, options@),
{
    match options.colour() {
        ColourMode::Plain => None,
        ColourMode::Assigned => Some(
            match event.colour {
                Some(rgb) => Colour::Rgb(rgb.r, rgb.g, rgb.b),
                None => Colour::White,
            },
        ),
        ColourMode::FirstBadge => {
            if event.badges.len() > 0 {
                let first = badge_colour(event.badges[0].as_str());
                assert(event@.badges[0] == event.badges[0]@);
                Some(first)
            } else {
                Some(Colour::Rgb(255, 255, 255))
            }
        },
    }
}

/// Whether a space has to follow `before`.
fn ends_open(before: &str) -> (open: bool)
    ensures
        open == wants_gap(before@),
{
    let chars = chars_of(before);
    chars.len() > 0 && chars[chars.len() - 1] != ' '
}

/// The channel in square brackets, where the origin is shown.
fn origin_block(event: &ChatEvent, options: &OptionSet) -> (out: String)
    ensures
        out@ == origin_part(event@, options@),
{
    let mut out = String::new();
    if options.show_origin() {
        out.push('[');
        out.append(event.channel.as_str());
        out.push(']');
        out.push(':');
        out.push(' ');
        assert(out@ =~= origin_part(event@, options@));
    }
    out
}

/// The painted amount of bits, where bits are shown and there are some.
fn bits_block(event: &ChatEvent, options: &OptionSet) -> (out: String)
    ensures
        out@ == bits_part(event@, options@, true),
{
    if options.show_bits() {
        if let Some(amount) = event.bits {
            let mut text = String::new();
            text.push('!');
            push_decimal(&mut text, amount);
            text.push('!');
            assert(text@ =~= bits_text(amount));
            return paint_bold(Badge::Bits.colour(), text.as_str());
        }
    }
    String::new()
}

/// The painted blocks of the event's badges.
fn badges_block(event: &ChatEvent, mode: DisplayMode) -> (out: String)
    ensures
        out@ == badge_blocks(event@.badges, mode, true),
{
    let ghost ids = event@.badges;
    let mut out = String::new();
    if mode != DisplayMode::Hidden {
        let mut i: usize = 0;
        while i < event.badges.len()
            invariant
                i <= event.badges.len(),
                ids == event@.badges,
                mode != DisplayMode::Hidden,
                out@ == badge_blocks(ids.take(i as int), mode, true),
            decreases event.badges.len() - i,
        {
            let (shown, colour) = render(event.badges[i].as_str(), mode);
            let mut text = String::new();
            text.push('|');
            text.append(shown.as_str());
            text.push('|');
            let block = paint_bold(colour, text.as_str());
            out.append(block.as_str());
            proof {
                let seen = ids.take(i + 1);
                assert(seen.drop_last() =~= ids.take(i as int));
                assert(seen.last() == event.badges[i as int]@);
                assert(text@ =~= seq!['|'] + label(seen.last(), mode) + seq!['|']);
            }
            i += 1;
        }
        assert(ids.take(i as int) =~= ids);
    }
    out
}

/// The sender's name, painted where names are coloured.
fn name_block(event: &ChatEvent, options: &OptionSet) -> (out: String)
    ensures
        out@ == name_part(event@, options@, true),
{
    let mut name = String::new();
    name.append(event.sender.as_str());
    name.push(':');
    name.push(' ');
    assert(name@ =~= name_text(event@));
    match sender_colour(event, options) {
        Some(colour) => paint_bold(colour, name.as_str()),
        None => name,
    }
}

/// The display line of `event` under `options`. `clock` is the text that
/// stands for the time; it is used only where the time is shown.
pub fn format_line(event: &ChatEvent, options: &OptionSet, clock: &str) -> (out: String)
    ensures
        out@ == line(event@, options@, clock@),
{
    let ghost e = event@;
    let ghost o = options@;
    let mut out = String::new();
    if options.show_time() {
        out.append(clock);
    }
    let origin = origin_block(event, options);
    out.append(origin.as_str());
    let bits = bits_block(event, options);
    out.append(bits.as_str());
    let badges = badges_block(event, options.display());
    out.append(badges.as_str());
    assert(out@ =~= head(e, o, clock@, true));
    if ends_open(out.as_str()) {
        out.push(' ');
    }
    let name = name_block(event, options);
    out.append(name.as_str());
    out.append(event.text.as_str());
    out.push('\n');
    assert(out@ =~= line(e, o, clock@));
    out
}

} // verus!
