//! The text that travels on a room's channel.
//!
//! Every line on the wire has one of three literal shapes: a join notice, a
//! part notice, or a chat line. The shapes are plain text with no tagging.

use vstd::prelude::*;
use vstd::string::*;

verus! {

/// The line announcing that `username` entered a room.
pub open spec fn join_line(username: Seq<char>) -> Seq<char> {
    "["@ + username + "] has joined the room."@
}

/// The line announcing that `username` left a room.
pub open spec fn part_line(username: Seq<char>) -> Seq<char> {
    "["@ + username + "] has left the room."@
}

/// The line carrying `text` as said by `username`.
pub open spec fn chat_line(username: Seq<char>, text: Seq<char>) -> Seq<char> {
    username + ": "@ + text
}

/// One message to a room: a system notice or user content.
#[derive(Debug)]
pub enum Announcement {
    Join { username: String },
    Part { username: String },
    Chat { username: String, text: String },
}

impl Announcement {
    /// The wire text of this message.
    pub open spec fn line(&self) -> Seq<char> {
        match self {
            Announcement::Join { username } => join_line(username@),
            Announcement::Part { username } => part_line(username@),
            Announcement::Chat { username, text } => chat_line(username@, text@),
        }
    }

    /// Renders the message as it is sent to the room.
    pub fn render(&self) -> (out: String)
        ensures
            out@ == self.line(),
    {
        match self {
            Announcement::Join { username } => render_join(username),
            Announcement::Part { username } => render_part(username),
            Announcement::Chat { username, text } => render_chat(username, text),
        }
    }
}

/// Renders the join notice for `username`.
pub fn render_join(username: &String) -> (out: String)
    ensures
        out@ == join_line(username@),
{
    let mut out = String::from_str("[");
    out.append(username.as_str());
    out.append("] has joined the room.");
    out
}

/// Renders the part notice for `username`.
pub fn render_part(username: &String) -> (out: String)
    ensures
        out@ == part_line(username@),
{
    let mut out = String::from_str("[");
    out.append(username.as_str());
    out.append("] has left the room.");
    out
}

/// Renders what `username` said.
pub fn render_chat(username: &String, text: &String) -> (out: String)
    ensures
        out@ == chat_line(username@, text@),
{
    let mut out = username.clone();
    out.append(": ");
    out.append(text.as_str());
    out
}

} // verus!
