//! The option set: what the command line asks for, read once and then only
//! looked at.
//!
//! A token that starts with `-` holds flags, one letter each. The flags `f`
//! and `i` take the next whole token as their value. Every other token names
//! a channel to join. Where two flags choose the same thing (how badges are
//! shown, how names are coloured), the one read last decides.

use vstd::prelude::*;
use crate::badge::DisplayMode;
use crate::text::{chars_of, same_text};

verus! {

/// Where the colour of a sender's name comes from.
#[derive(Clone, Copy, Debug, PartialEq, Eq, Structural)]
pub enum ColourMode {
    /// Names are not coloured.
    Plain,
    /// The colour that the sender was assigned.
    Assigned,
    /// The colour of the sender's first badge.
    FirstBadge,
}

/// Why a command line was turned down.
#[derive(Clone, Copy, Debug, PartialEq, Eq, Structural)]
pub enum UsageError {
    /// The flag, `f` or `i`, was the last thing on the line and got no value.
    MissingValue(char),
    /// The letter stands for no flag.
    UnknownFlag(char),
    /// The line names no channel.
    NoChannels,
}

/// The option set, as contracts see it.
pub struct OptionsView {
    pub display: DisplayMode,
    pub colour: ColourMode,
    pub show_bits: bool,
    pub show_origin: bool,
    pub show_time: bool,
    pub quiet: bool,
    pub log_file: Option<Seq<char>>,
    pub ignored: Seq<Seq<char>>,
    pub channels: Seq<Seq<char>>,
}

/// What a command line asks for, as contracts see it.
pub enum Outcome {
    Run(OptionsView),
    Help,
    Version,
}

/// How far the flags of one token got.
pub enum Scan {
    /// All flags of the token were taken; reading goes on at the given token.
    Next(OptionsView, int),
    /// A flag ended the reading.
    Done(Result<Outcome, UsageError>),
}

impl OptionsView {
    /// The option set of an empty command line.
    pub open spec fn start() -> OptionsView {
        OptionsView {
            display: DisplayMode::Hidden,
            colour: ColourMode::Plain,
            show_bits: false,
            show_origin: false,
            show_time: false,
            quiet: false,
            log_file: None,
            ignored: Seq::empty(),
            channels: Seq::empty(),
        }
    }

    /// The option set after a flag that takes no value, or `None` where the
    /// letter is no such flag.
    pub open spec fn with_flag(self, flag: char) -> Option<OptionsView> {
        if flag == 'c' {
            Some(OptionsView { colour: ColourMode::Assigned, ..self })
        } else if flag == 'C' {
            Some(OptionsView { colour: ColourMode::FirstBadge, ..self })
        } else if flag == 'b' {
            Some(OptionsView { display: DisplayMode::Short, ..self })
        } else if flag == 'B' {
            Some(OptionsView { display: DisplayMode::Letter, ..self })
        } else if flag == 'F' {
            Some(OptionsView { display: DisplayMode::Full, ..self })
        } else if flag == 't' {
            Some(OptionsView { show_bits: true, ..self })
        } else if flag == 'o' {
            Some(OptionsView { show_origin: true, ..self })
        } else if flag == 'T' {
            Some(OptionsView { show_time: true, ..self })
        } else if flag == 'q' {
            Some(OptionsView { quiet: true, ..self })
        } else {
            None
        }
    }

    /// The option set after `-f` with the value `path`.
    pub open spec fn with_log_file(self, path: Seq<char>) -> OptionsView {
        OptionsView { log_file: Some(path), ..self }
    }

    /// The option set after `-i` with the value `name`.
    pub open spec fn with_ignored(self, name: Seq<char>) -> OptionsView {
        OptionsView { ignored: self.ignored.push(name), ..self }
    }

    /// The option set after a token that names a channel.
    pub open spec fn with_channel(self, name: Seq<char>) -> OptionsView {
        OptionsView { channels: self.channels.push(name), ..self }
    }
}

/// Whether `token` holds flags: it starts with `-`.
pub open spec fn is_flag_token(token: Seq<char>) -> bool {
    token.len() > 0 && token[0] == '-'
}

/// Reads the flags of `token` from its character `k` on. `next` is the index
/// in `args` of the token that the next flag with a value will take.
pub open spec fn scan_flags(
    args: Seq<Seq<char>>,
    next: int,
    token: Seq<char>,
    k: int,
    acc: OptionsView,
) -> Scan
    decreases token.len() - k,
{
    if k < 0 || k >= token.len() {
        Scan::Next(acc, next)
    } else if token[k] == 'h' {
        Scan::Done(Ok(Outcome::Help))
    } else if token[k] == 'V' {
        Scan::Done(Ok(Outcome::Version))
    } else if token[k] == 'f' {
        if 0 <= next < args.len() {
            scan_flags(args, next + 1, token, k + 1, acc.with_log_file(args[next]))
        } else {
            Scan::Done(Err(UsageError::MissingValue('f')))
        }
    } else if token[k] == 'i' {
        if 0 <= next < args.len() {
            scan_flags(args, next + 1, token, k + 1, acc.with_ignored(args[next]))
        } else {
            Scan::Done(Err(UsageError::MissingValue('i')))
        }
    } else {
        match acc.with_flag(token[k]) {
            Some(more) => scan_flags(args, next, token, k + 1, more),
            None => Scan::Done(Err(UsageError::UnknownFlag(token[k]))),
        }
    }
}

/// The flags of a token never move the reading backwards.
pub proof fn lemma_scan_advances(
    args: Seq<Seq<char>>,
    next: int,
    token: Seq<char>,
    k: int,
    acc: OptionsView,
)
    ensures
        scan_flags(args, next, token, k, acc) matches Scan::Next(_, after) ==> {
            &&& next <= after
            &&& next <= args.len() ==> after <= args.len()
        },
    decreases token.len() - k,
{
    if k < 0 || k >= token.len() {
    } else if token[k] == 'h' || token[k] == 'V' {
    } else if token[k] == 'f' {
        if 0 <= next < args.len() {
            lemma_scan_advances(args, next + 1, token, k + 1, acc.with_log_file(args[next]));
        }
    } else if token[k] == 'i' {
        if 0 <= next < args.len() {
            lemma_scan_advances(args, next + 1, token, k + 1, acc.with_ignored(args[next]));
        }
    } else {
        match acc.with_flag(token[k]) {
            Some(more) => lemma_scan_advances(args, next, token, k + 1, more),
            None => {},
        }
    }
}

/// What the tokens of `args` from index `pos` on ask for, on top of `acc`.
pub open spec fn parse_tokens(args: Seq<Seq<char>>, pos: int, acc: OptionsView) -> Result<
    Outcome,
    UsageError,
>
    decreases args.len() - pos,
{
    if pos < 0 || pos >= args.len() {
        if acc.channels.len() == 0 {
            Err(UsageError::NoChannels)
        } else {
            Ok(Outcome::Run(acc))
        }
    } else if is_flag_token(args[pos]) {
        match scan_flags(args, pos + 1, args[pos], 1, acc) {
            Scan::Next(more, after) => {
                proof {
                    lemma_scan_advances(args, pos + 1, args[pos], 1, acc);
                }
                parse_tokens(args, after, more)
            },
            Scan::Done(end) => end,
        }
    } else {
        parse_tokens(args, pos + 1, acc.with_channel(args[pos]))
    }
}

/// What the command line `args` asks for.
pub open spec fn parsed(args: Seq<Seq<char>>) -> Result<Outcome, UsageError> {
    parse_tokens(args, 0, OptionsView::start())
}

/// A flag that ends the reading asks for the help or the version, or is
/// turned down; it never starts a run.
pub proof fn lemma_scan_ends(
    args: Seq<Seq<char>>,
    next: int,
    token: Seq<char>,
    k: int,
    acc: OptionsView,
)
    ensures
        scan_flags(args, next, token, k, acc) matches Scan::Done(end) ==> !(end matches Ok(
            Outcome::Run(_),
        )),
    decreases token.len() - k,
{
    if k < 0 || k >= token.len() {
    } else if token[k] == 'h' || token[k] == 'V' {
    } else if token[k] == 'f' {
        if 0 <= next < args.len() {
            lemma_scan_ends(args, next + 1, token, k + 1, acc.with_log_file(args[next]));
        }
    } else if token[k] == 'i' {
        if 0 <= next < args.len() {
            lemma_scan_ends(args, next + 1, token, k + 1, acc.with_ignored(args[next]));
        }
    } else {
        match acc.with_flag(token[k]) {
            Some(more) => lemma_scan_ends(args, next, token, k + 1, more),
            None => {},
        }
    }
}

/// A command line that is read to its end and accepted names a channel.
pub proof fn lemma_run_names_channel(args: Seq<Seq<char>>, pos: int, acc: OptionsView)
    ensures
        parse_tokens(args, pos, acc) matches Ok(Outcome::Run(o)) ==> o.channels.len() > 0,
    decreases args.len() - pos,
{
    if pos < 0 || pos >= args.len() {
    } else if is_flag_token(args[pos]) {
        lemma_scan_advances(args, pos + 1, args[pos], 1, acc);
        lemma_scan_ends(args, pos + 1, args[pos], 1, acc);
        match scan_flags(args, pos + 1, args[pos], 1, acc) {
            Scan::Next(more, after) => lemma_run_names_channel(args, after, more),
            Scan::Done(_) => {},
        }
    } else {
        lemma_run_names_channel(args, pos + 1, acc.with_channel(args[pos]));
    }
}

/// What the reading goes on to after the flags of one token.
pub open spec fn resume(args: Seq<Seq<char>>, scan: Scan) -> Result<Outcome, UsageError> {
    match scan {
        Scan::Next(more, after) => parse_tokens(args, after, more),
        Scan::Done(end) => end,
    }
}

/// The option set: read from the command line by `parse_args`, and not
/// changed after that.
#[derive(Clone, Debug)]
pub struct OptionSet {
    display: DisplayMode,
    colour: ColourMode,
    show_bits: bool,
    show_origin: bool,
    show_time: bool,
    quiet: bool,
    log_file: Option<String>,
    ignored: Vec<String>,
    channels: Vec<String>,
}

/// What a command line asks for.
#[derive(Debug)]
pub enum Command {
    /// Join the channels and show their chat.
    Run(OptionSet),
    /// Print the help text and leave.
    Help,
    /// Print the version and leave.
    Version,
}

impl View for OptionSet {
    type V = OptionsView;

    closed spec fn view(&self) -> OptionsView {
        OptionsView {
            display: self.display,
            colour: self.colour,
            show_bits: self.show_bits,
            show_origin: self.show_origin,
            show_time: self.show_time,
            quiet: self.quiet,
            log_file: self.log_file.deep_view(),
            ignored: self.ignored.deep_view(),
            channels: self.channels.deep_view(),
        }
    }
}

impl View for Command {
    type V = Outcome;

    open spec fn view(&self) -> Outcome {
        match self {
            Command::Run(options) => Outcome::Run(options@),
            Command::Help => Outcome::Help,
            Command::Version => Outcome::Version,
        }
    }
}

/// The result of `parse_args`, as contracts see it.
pub open spec fn outcome(r: Result<Command, UsageError>) -> Result<Outcome, UsageError> {
    match r {
        Ok(command) => Ok(command@),
        Err(e) => Err(e),
    }
}

impl OptionSet {
    /// An option set is well formed when it names at least one channel.
    pub open spec fn wf(&self) -> bool {
        self@.channels.len() > 0
    }

    /// How badges are shown.
    pub fn display(&self) -> (mode: DisplayMode)
        ensures
            mode == self@.display,
    {
        self.display
    }

    /// Where the colour of a sender's name comes from.
    pub fn colour(&self) -> (mode: ColourMode)
        ensures
            mode == self@.colour,
    {
        self.colour
    }

    /// Whether the amount of bits that came with a message is shown.
    pub fn show_bits(&self) -> (on: bool)
        ensures
            on == self@.show_bits,
    {
        self.show_bits
    }

    /// Whether the channel that a message came from is shown.
    pub fn show_origin(&self) -> (on: bool)
        ensures
            on == self@.show_origin,
    {
        self.show_origin
    }

    /// Whether the time is put before each message.
    pub fn show_time(&self) -> (on: bool)
        ensures
            on == self@.show_time,
    {
        self.show_time
    }

    /// Whether nothing is printed to standard output.
    pub fn quiet(&self) -> (on: bool)
        ensures
            on == self@.quiet,
    {
        self.quiet
    }

    /// The file that the transcript is appended to, if one was asked for.
    pub fn log_file(&self) -> (path: Option<&str>)
        ensures
            path.deep_view() == self@.log_file,
    {
        match &self.log_file {
            Some(path) => Some(path.as_str()),
            None => None,
        }
    }

    /// The senders whose messages are dropped, in the order given.
    pub fn ignored(&self) -> (names: &Vec<String>)
        ensures
            names.deep_view() == self@.ignored,
    {
        &self.ignored
    }

    /// The channels to join, in the order given.
    pub fn channels(&self) -> (names: &Vec<String>)
        ensures
            names.deep_view() == self@.channels,
    {
        &self.channels
    }

    /// Whether messages of the sender `name` are dropped.
    pub fn is_ignored(&self, name: &str) -> (dropped: bool)
        ensures
            dropped == self@.ignored.contains(name@),
    {
        let ghost names = self.ignored.deep_view();
        let mut i: usize = 0;
        while i < self.ignored.len()
            invariant
                i <= self.ignored.len(),
                names == self.ignored.deep_view(),
                forall|j: int| 0 <= j < i ==> names[j] != name@,
            decreases self.ignored.len() - i,
        {
            if same_text(self.ignored[i].as_str(), name) {
                assert(names[i as int] == name@);
                return true;
            }
            i += 1;
        }
        false
    }

    fn start() -> (o: OptionSet)
        ensures
            o@ == OptionsView::start(),
    {
        let o = OptionSet {
            display: DisplayMode::Hidden,
            colour: ColourMode::Plain,
            show_bits: false,
            show_origin: false,
            show_time: false,
            quiet: false,
            log_file: None,
            ignored: Vec::new(),
            channels: Vec::new(),
        };
        assert(o.ignored.deep_view() =~= Seq::empty());
        assert(o.channels.deep_view() =~= Seq::empty());
        o
    }

    /// Takes a flag that has no value. Returns whether the letter is such a flag.
    fn set_flag(&mut self, flag: char) -> (known: bool)
        ensures
            known == old(self)@.with_flag(flag).is_some(),
            known ==> final(self)@ == old(self)@.with_flag(flag).unwrap(),
            !known ==> *final(self) == *old(self),
    {
        if flag == 'c' {
            self.colour = ColourMode::Assigned;
        } else if flag == 'C' {
            self.colour = ColourMode::FirstBadge;
        } else if flag == 'b' {
            self.display = DisplayMode::Short;
        } else if flag == 'B' {
            self.display = DisplayMode::Letter;
        } else if flag == 'F' {
            self.display = DisplayMode::Full;
        } else if flag == 't' {
            self.show_bits = true;
        } else if flag == 'o' {
            self.show_origin = true;
        } else if flag == 'T' {
            self.show_time = true;
        } else if flag == 'q' {
            self.quiet = true;
        } else {
            return false;
        }
        true
    }
}

/// Reads the command line `args`, which does not hold the program's name.
///
/// Flags are read from left to right. `h` and `V` end the reading at once; so
/// does a letter that is no flag, and `f` or `i` with no token left to take.
/// A line that was read to its end and names no channel is turned down.
pub fn parse_args(args: &Vec<String>) -> (r: Result<Command, UsageError>)
    ensures
        outcome(r) == parsed(args.deep_view()),
        r matches Ok(Command::Run(options)) ==> options.wf(),
{
    let ghost a = args.deep_view();
    let n = args.len();
    let mut opts = OptionSet::start();
    let mut pos: usize = 0;
    while pos < n
        invariant
            n == args.len(),
            a == args.deep_view(),
            pos <= n,
            parsed(a) == parse_tokens(a, pos as int, opts@),
        decreases n - pos,
    {
        let token = chars_of(args[pos].as_str());
        assert(token@ == a[pos as int]);
        if token.len() > 0 && token[0] == '-' {
            let mut next: usize = pos + 1;
            let mut k: usize = 1;
            while k < token.len()
                invariant
                    n == args.len(),
                    a == args.deep_view(),
                    pos < next <= n,
                    1 <= k <= token.len(),
                    parsed(a) == resume(a, scan_flags(a, next as int, token@, k as int, opts@)),
                decreases token.len() - k,
            {
                let flag = token[k];
                if flag == 'h' {
                    return Ok(Command::Help);
                } else if flag == 'V' {
                    return Ok(Command::Version);
                } else if flag == 'f' {
                    if next < n {
                        opts.log_file = Some(args[next].clone());
                        next += 1;
                    } else {
                        return Err(UsageError::MissingValue('f'));
                    }
                } else if flag == 'i' {
                    if next < n {
                        let ghost before = opts.ignored.deep_view();
                        opts.ignored.push(args[next].clone());
                        assert(opts.ignored.deep_view() =~= before.push(a[next as int]));
                        next += 1;
                    } else {
                        return Err(UsageError::MissingValue('i'));
                    }
                } else if !opts.set_flag(flag) {
                    return Err(UsageError::UnknownFlag(flag));
                }
                k += 1;
            }
            pos = next;
        } else {
            let ghost before = opts.channels.deep_view();
            opts.channels.push(args[pos].clone());
            assert(opts.channels.deep_view() =~= before.push(a[pos as int]));
            pos += 1;
        }
    }
    if opts.channels.len() == 0 {
        Err(UsageError::NoChannels)
    } else {
        Ok(Command::Run(opts))
    }
}

} // verus!
