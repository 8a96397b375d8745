//! Where a line goes: to the screen, unless the option set is quiet, and
//! without its colours to the log, where the option set names a log file.

use vstd::prelude::*;
use crate::clock::{is_clock, local_clock};
use crate::event::{ChatEvent, EventView};
use crate::line::{format_line, line};
use crate::options::{OptionSet, OptionsView};
use crate::strip::{strip_ansi, stripped};

verus! {

/// What one message gives rise to.
#[derive(Debug)]
pub struct Output {
    /// The text to print to standard output, if any.
    pub screen: Option<String>,
    /// The text to append to the log file, if any.
    pub log: Option<String>,
}

/// What one message gives rise to, as contracts see it.
pub struct OutputView {
    pub screen: Option<Seq<char>>,
    pub log: Option<Seq<char>>,
}

impl View for Output {
    type V = OutputView;

    open spec fn view(&self) -> OutputView {
        OutputView { screen: self.screen.deep_view(), log: self.log.deep_view() }
    }
}

/// Where `text` goes under `o`: as it is to the screen, unless `o` is quiet;
/// stripped to the log, where `o` names a log file.
pub open spec fn emitted(text: Seq<char>, o: OptionsView) -> OutputView {
    OutputView {
        screen: if o.quiet {
            None
        } else {
            Some(text)
        },
        log: if o.log_file is Some {
            Some(stripped(text))
        } else {
            None
        },
    }
}

/// What the message `e` gives rise to under `o` at the time that `clock`
/// reads: nothing where its sender is ignored, and else its line.
pub open spec fn handled(e: EventView, o: OptionsView, clock: Seq<char>) -> Option<OutputView> {
    if o.ignored.contains(e.sender) {
        None
    } else {
        Some(emitted(line(e, o, clock), o))
    }
}

/// The result of handling a message, as contracts see it.
pub open spec fn output_view(r: Option<Output>) -> Option<OutputView> {
    match r {
        Some(out) => Some(out@),
        None => None,
    }
}

/// Decides where the line `text` goes under `options`.
pub fn emit(text: String, options: &OptionSet) -> (out: Output)
    ensures
        out@ == emitted(text@, options@),
{
    let log = match options.log_file() {
        Some(_) => Some(strip_ansi(text.as_str())),
        None => None,
    };
    let screen = if options.quiet() {
        None
    } else {
        Some(text)
    };
    Output { screen, log }
}

/// Handles the message `event` at the time that `clock` reads: formats its
/// line and decides where the line goes, unless the sender is ignored.
pub fn handle_msg_at(options: &OptionSet, event: &ChatEvent, clock: &str) -> (r: Option<Output>)
    ensures
        output_view(r) == handled(event@, options@, clock@),
        r is None <==> options@.ignored.contains(event@.sender),
{
    if options.is_ignored(event.sender.as_str()) {
        return None;
    }
    let text = format_line(event, options, clock);
    Some(emit(text, options))
}

/// Handles the message `event` now: as `handle_msg_at`, with the local time
/// of day for a clock where the time is shown.
pub fn handle_msg(options: &OptionSet, event: &ChatEvent) -> (r: Option<Output>)
    ensures
        r is None <==> options@.ignored.contains(event@.sender),
        !options@.show_time ==> output_view(r) == handled(event@, options@, Seq::empty()),
        options@.show_time ==> exists|clock: Seq<char>|
            is_clock(clock) && output_view(r) == #[trigger] handled(event@, options@, clock),
{
    if options.is_ignored(event.sender.as_str()) {
        proof {
            // An ignored sender gives nothing at any time of day: midnight will do.
            let midnight = seq!['0', '0', ':', '0', '0', ' '];
            assert(is_clock(midnight));
            assert(handled(event@, options@, midnight) is None);
        }
        return None;
    }
    if options.show_time() {
        let clock = local_clock();
        let r = handle_msg_at(options, event, clock.as_str());
        assert(is_clock(clock@) && output_view(r) == handled(event@, options@, clock@));
        r
    } else {
        let r = handle_msg_at(options, event, "");
        proof {
            reveal_strlit("");
            assert(""@ =~= Seq::<char>::empty());
        }
        r
    }
}

} // verus!
