//! A chat message as it arrives, decoded.

use vstd::prelude::*;
use crate::colour::Rgb;

verus! {

/// One chat message with what came along with it.
#[derive(Clone, Debug)]
pub struct ChatEvent {
    /// The sender's name as it is shown.
    pub sender: String,
    /// The colour that the sender was assigned, if any.
    pub colour: Option<Rgb>,
    /// The identifiers of the sender's badges, in the order they came.
    pub badges: Vec<String>,
    /// The amount of bits sent with the message, if any.
    pub bits: Option<u64>,
    /// The channel that the message was sent in.
    pub channel: String,
    /// The message itself.
    pub text: String,
}

/// A chat message, as contracts see it.
pub struct EventView {
    pub sender: Seq<char>,
    pub colour: Option<Rgb>,
    pub badges: Seq<Seq<char>>,
    pub bits: Option<u64>,
    pub channel: Seq<char>,
    pub text: Seq<char>,
}

impl View for ChatEvent {
    type V = EventView;

    open spec fn view(&self) -> EventView {
        EventView {
            sender: self.sender@,
            colour: self.colour,
            badges: self.badges.deep_view(),
            bits: self.bits,
            channel: self.channel@,
            text: self.text@,
        }
    }
}

} // verus!
