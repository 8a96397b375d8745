//! Chat lines for the terminal.
//!
//! The library turns a chat message and an option set into one display line:
//! the time, the channel, the bits and the badges as far as they are asked
//! for, then the sender's name and the message. It reads the option set from
//! a command line, paints badges and names in their colours, and strips the
//! colours again for a transcript.

pub mod badge;
pub mod clock;
pub mod colour;
pub mod event;
pub mod laws;
pub mod line;
pub mod options;
pub mod sink;
pub mod strip;
pub mod text;
pub mod usage;
