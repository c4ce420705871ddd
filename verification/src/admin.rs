//! What the administrator types at the console.

use vstd::prelude::*;

verus! {

/// An event from the console.
#[derive(Debug)]
pub enum AdminEvent {
    /// A line that was typed, as a message to the bot.
    Message(String),
}

impl View for AdminEvent {
    type V = Seq<char>;

    open spec fn view(&self) -> Seq<char> {
        match self {
            AdminEvent::Message(text) => text@,
        }
    }
}

impl Clone for AdminEvent {
    fn clone(&self) -> (r: Self)
        ensures
            r@ == self@,
    {
        match self {
            AdminEvent::Message(text) => AdminEvent::Message(text.clone()),
        }
    }
}

/// A text without the white space at its two ends.
pub uninterp spec fn trimmed(s: Seq<char>) -> Seq<char>;

/// `str::trim`: the text without the white space at its two ends. The
/// result is named, not spelled out.
#[verifier::external_body]
fn trim(s: &str) -> (r: String)
    ensures
        r@ == trimmed(s@),
{
    s.trim().to_string()
}

/// The event that a line typed at the console makes: a message of the line
/// without the white space around it.
pub fn line_event(line: &str) -> (r: AdminEvent)
    ensures
        r@ == trimmed(line@),
{
    AdminEvent::Message(trim(line))
}

} // verus!
