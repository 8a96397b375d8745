//! The texts that the program prints about itself: how it is called, what its
//! flags do, and what was wrong with a command line.

use vstd::prelude::*;
use crate::options::UsageError;

verus! {

/// How the program is called, in one line.
pub const USAGE: &'static str = "Usage: tchat [-bBcCFhoqtTV] [-f file] [-i username] [username ...]";

/// Where more is to be found.
pub const HINT: &'static str = "Try the `-h` flag for more info.";

/// What the program does and what each flag is for.
pub const HELP: &'static str = "\x1b[1mDESCRIPTION\x1b[0m
    \x1b[4mtchat\x1b[0m logs a twitch chat into the terminal, allowing for the monitoring during streams.
    Whenever multiple usernames are specified both of the chats will be monitored simultaneously.

    All of the colour options work properly only within \x1b[4mtruecolor\x1b[0m terminals.

    \x1b[1mOPTIONS\x1b[0m
    -V  print current program version
    -h  print this message

    -b  print badges, shortened to 3 letters
    -B  print badges, shortened to a single letter. Printing `?` for non-common ones
    -F  print full badge names

    -c  colour the names based on twitch assigned colours
    -C  colour the names based on the first badge

    -t  show bits donations in amount
    -T  prepend the time of each message as HH:MM.
    -o  display the username of the channel the message came from

    -q  dont print messages to stdout

    -f FILE
    log the output to FILE with ansi escape codes striped.
    This will append if the FILE already exists, and create one if not.

    -i USERNAME
    dont display chat messages coming from USERNAME.
    This option may be repeated to filter multiple users.\n";

/// The text that answers `-h`: the usage line, an empty line, the help.
pub open spec fn help_page() -> Seq<char> {
    USAGE@ + seq!['\n', '\n'] + HELP@
}

/// The usage line with the hint under it.
pub open spec fn usage_note() -> Seq<char> {
    USAGE@ + seq!['\n'] + HINT@
}

/// What is said of a command line that was turned down.
pub open spec fn complaint(e: UsageError) -> Seq<char> {
    match e {
        UsageError::MissingValue(flag) => "Missing argument after `-"@ + seq![flag, '`', '\n', ' ']
            + usage_note(),
        UsageError::UnknownFlag(_) => usage_note(),
        UsageError::NoChannels => usage_note(),
    }
}

/// The text that answers `-h`.
pub fn help_text() -> (text: String)
    ensures
        text@ == help_page(),
{
    let mut text = String::new();
    text.append(USAGE);
    text.push('\n');
    text.push('\n');
    text.append(HELP);
    assert(text@ =~= help_page());
    text
}

impl UsageError {
    /// What to tell the user: for a flag without its value, which flag it
    /// was; in every case the usage line and the hint.
    pub fn describe(&self) -> (text: String)
        ensures
            text@ == complaint(*self),
    {
        let mut text = String::new();
        match self {
            UsageError::MissingValue(flag) => {
                text.append("Missing argument after `-");
                text.push(*flag);
                text.push('`');
                text.push('\n');
                text.push(' ');
            },
            _ => {},
        }
        text.append(USAGE);
        text.push('\n');
        text.append(HINT);
        assert(text@ =~= complaint(*self));
        text
    }
}

} // verus!
