//! Badges: the short tags a chat participant carries, and how each one is
//! shown, as a label and a colour.

use vstd::prelude::*;
use crate::colour::Colour;
use crate::text::{chars_of, same_text};

verus! {

/// How much of a badge is shown.
#[derive(Clone, Copy, Debug, PartialEq, Eq, Structural)]
pub enum DisplayMode {
    /// Badges are not shown.
    Hidden,
    /// Three letters.
    Short,
    /// One letter.
    Letter,
    /// The whole identifier.
    Full,
}

/// The badges that have a colour and a letter of their own.
#[derive(Clone, Copy, Debug, PartialEq, Eq, Structural)]
pub enum Badge {
    Broadcaster,
    Moderator,
    Vip,
    Founder,
    Subscriber,
    Bits,
}

impl Badge {
    /// The identifier under which the badge arrives.
    pub open spec fn name(self) -> Seq<char> {
        match self {
            Badge::Broadcaster => "broadcaster"@,
            Badge::Moderator => "moderator"@,
            Badge::Vip => "vip"@,
            Badge::Founder => "founder"@,
            Badge::Subscriber => "subscriber"@,
            Badge::Bits => "bits"@,
        }
    }

    /// The badge's colour.
    pub open spec fn colour_spec(self) -> Colour {
        match self {
            Badge::Broadcaster => Colour::Rgb(233, 25, 22),
            Badge::Moderator => Colour::Rgb(0, 173, 3),
            Badge::Vip => Colour::Rgb(244, 5, 185),
            Badge::Founder => Colour::Rgb(170, 64, 213),
            Badge::Subscriber => Colour::Rgb(130, 5, 180),
            Badge::Bits => Colour::Rgb(193, 178, 17),
        }
    }

    /// The badge's three-letter abbreviation.
    pub open spec fn abbreviation(self) -> Seq<char> {
        match self {
            Badge::Broadcaster => seq!['b', 'r', 'o'],
            Badge::Moderator => seq!['m', 'o', 'd'],
            Badge::Vip => seq!['v', 'i', 'p'],
            Badge::Founder => seq!['f', 'o', 'u'],
            Badge::Subscriber => seq!['s', 'u', 'b'],
            Badge::Bits => seq!['b', 'i', 't'],
        }
    }

    /// The badge's single letter.
    pub open spec fn letter(self) -> char {
        match self {
            Badge::Broadcaster => 'B',
            Badge::Moderator => 'm',
            Badge::Vip => 'v',
            Badge::Founder => 'f',
            Badge::Subscriber => 's',
            Badge::Bits => 'b',
        }
    }

    #[verifier::when_used_as_spec(colour_spec)]
    pub fn colour(self) -> (c: Colour)
        ensures
            c == self.colour_spec(),
    {
        match self {
            Badge::Broadcaster => Colour::Rgb(233, 25, 22),
            Badge::Moderator => Colour::Rgb(0, 173, 3),
            Badge::Vip => Colour::Rgb(244, 5, 185),
            Badge::Founder => Colour::Rgb(170, 64, 213),
            Badge::Subscriber => Colour::Rgb(130, 5, 180),
            Badge::Bits => Colour::Rgb(193, 178, 17),
        }
    }
}

/// The colour of a badge that is none of the known ones: a neutral grey.
pub open spec fn fallback_colour() -> Colour {
    Colour::Rgb(200, 200, 200)
}

/// The known badge that `id` names, if it names one.
pub open spec fn known(id: Seq<char>) -> Option<Badge> {
    if id == Badge::Broadcaster.name() {
        Some(Badge::Broadcaster)
    } else if id == Badge::Moderator.name() {
        Some(Badge::Moderator)
    } else if id == Badge::Vip.name() {
        Some(Badge::Vip)
    } else if id == Badge::Founder.name() {
        Some(Badge::Founder)
    } else if id == Badge::Subscriber.name() {
        Some(Badge::Subscriber)
    } else if id == Badge::Bits.name() {
        Some(Badge::Bits)
    } else {
        None
    }
}

/// The colour in which the badge `id` is shown.
pub open spec fn palette(id: Seq<char>) -> Colour {
    match known(id) {
        Some(badge) => badge.colour_spec(),
        None => fallback_colour(),
    }
}

/// The first three characters of `id`, or all of it where it has fewer.
pub open spec fn first_three(id: Seq<char>) -> Seq<char> {
    if id.len() <= 3 {
        id
    } else {
        id.take(3)
    }
}

/// The text that stands for the badge `id` in `mode`.
pub open spec fn label(id: Seq<char>, mode: DisplayMode) -> Seq<char> {
    match mode {
        DisplayMode::Hidden => Seq::empty(),
        DisplayMode::Short => match known(id) {
            Some(badge) => badge.abbreviation(),
            None => first_three(id),
        },
        DisplayMode::Letter => match known(id) {
            Some(badge) => seq![badge.letter()],
            None => seq!['?'],
        },
        DisplayMode::Full => id,
    }
}

/// Each known badge is found under its own name, and its abbreviation is the
/// first three characters of that name.
pub proof fn lemma_known_badges(badge: Badge)
    ensures
        known(badge.name()) == Some(badge),
        badge.abbreviation() == first_three(badge.name()),
{
    reveal_strlit("broadcaster");
    reveal_strlit("moderator");
    reveal_strlit("vip");
    reveal_strlit("founder");
    reveal_strlit("subscriber");
    reveal_strlit("bits");
    assert(badge.abbreviation() =~= first_three(badge.name()));
}

/// Known or not, a badge has as its three-letter label the first three
/// characters of its identifier.
pub proof fn lemma_short_label(id: Seq<char>)
    ensures
        label(id, DisplayMode::Short) == first_three(id),
{
    if let Some(badge) = known(id) {
        lemma_known_badges(badge);
    }
}

/// The known badge that `id` names, if it names one.
pub fn classify(id: &str) -> (found: Option<Badge>)
    ensures
        found == known(id@),
{
    if same_text(id, "broadcaster") {
        Some(Badge::Broadcaster)
    } else if same_text(id, "moderator") {
        Some(Badge::Moderator)
    } else if same_text(id, "vip") {
        Some(Badge::Vip)
    } else if same_text(id, "founder") {
        Some(Badge::Founder)
    } else if same_text(id, "subscriber") {
        Some(Badge::Subscriber)
    } else if same_text(id, "bits") {
        Some(Badge::Bits)
    } else {
        None
    }
}

/// The colour in which the badge `id` is shown.
pub fn badge_colour(id: &str) -> (c: Colour)
    ensures
        c == palette(id@),
{
    match classify(id) {
        Some(badge) => badge.colour(),
        None => Colour::Rgb(200, 200, 200),
    }
}

/// The label and the colour of the badge `id` in `mode`.
///
/// A badge that is none of the known ones gets the fallback colour, and as its
/// label `?` where one letter is shown, its first three characters where three
/// are shown, and its identifier unchanged where the whole of it is shown.
pub fn render(id: &str, mode: DisplayMode) -> (shown: (String, Colour))
    requires
        mode != DisplayMode::Hidden,
    ensures
        shown.0@ == label(id@, mode),
        shown.1 == palette(id@),
        known(id@) is None ==> {
            &&& shown.1 == fallback_colour()
            &&& mode == DisplayMode::Letter ==> shown.0@ == seq!['?']
            &&& mode == DisplayMode::Short ==> shown.0@ == first_three(id@)
            &&& mode == DisplayMode::Full ==> shown.0@ == id@
        },
{
    let badge = classify(id);
    let colour = match badge {
        Some(b) => b.colour(),
        None => Colour::Rgb(200, 200, 200),
    };
    let mut text = String::new();
    match mode {
        DisplayMode::Full => {
            text.append(id);
        },
        DisplayMode::Letter => {
            let letter = match badge {
                Some(Badge::Broadcaster) => 'B',
                Some(Badge::Moderator) => 'm',
                Some(Badge::Vip) => 'v',
                Some(Badge::Founder) => 'f',
                Some(Badge::Subscriber) => 's',
                Some(Badge::Bits) => 'b',
                None => '?',
            };
            text.push(letter);
        },
        _ => {
            let chars = chars_of(id);
            let mut i: usize = 0;
            while i < chars.len() && i < 3
                invariant
                    i <= chars@.len(),
                    i <= 3,
                    text@ == chars@.take(i as int),
                decreases chars@.len() - i,
            {
                text.push(chars[i]);
                i += 1;
            }
            proof {
                lemma_short_label(id@);
                assert(chars@.take(i as int) =~= first_three(id@));
            }
        },
    }
    (text, colour)
}

} // verus!
