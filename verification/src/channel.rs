//! The fan-out channel of a room, as `tokio::sync::broadcast` provides it.
//!
//! A channel is shared by every handle that was cloned from its first sender
//! and by every subscriber created from one of them. Its queue lives behind
//! shared references and changes under the feet of any single holder, so the
//! contracts here say which channel a handle is attached to and what a call
//! hands back, never what the queue holds.

use tokio::sync::broadcast::{Receiver, Sender};
use vstd::prelude::*;

verus! {

#[verifier::external_type_specification]
#[verifier::external_body]
#[verifier::reject_recursive_types(T)]
pub struct ExSender<T>(Sender<T>);

#[verifier::external_type_specification]
#[verifier::external_body]
#[verifier::reject_recursive_types(T)]
pub struct ExReceiver<T>(Receiver<T>);

/// The channel that a producer handle sends into. It is settled when the
/// handle is made and stays the same for as long as the handle lives; a
/// clone sends into the channel of the handle it was cloned from.
pub uninterp spec fn channel_of(tx: Sender<String>) -> nat;

/// The number of messages that the channel behind `tx` was asked to retain
/// when it was created. The channel may keep more: it rounds the number up
/// to a power of two.
pub uninterp spec fn bound_of(tx: Sender<String>) -> nat;

/// The channel that a subscriber handle receives from: that of the producer
/// handle it was created from.
pub uninterp spec fn feed_of(rx: Receiver<String>) -> nat;

/// `tokio::sync::broadcast::channel`, keeping the producer side only: a new
/// channel that was asked to retain `capacity` messages. The subscriber that
/// comes with it is dropped at once, so the channel starts with none.
#[verifier::external_body]
pub(crate) fn open_channel(capacity: usize) -> (tx: Sender<String>)
    requires
        0 < capacity <= usize::MAX / 2,
    ensures
        bound_of(tx) == capacity,
{
    tokio::sync::broadcast::channel(capacity).0
}

/// `Sender::clone`: another producer handle on the same channel.
#[verifier::external_body]
pub(crate) fn share(tx: &Sender<String>) -> (other: Sender<String>)
    ensures
        channel_of(other) == channel_of(*tx),
        bound_of(other) == bound_of(*tx),
{
    tx.clone()
}

/// `Sender::subscribe`: a new subscriber on the channel of `tx`, which will
/// see what is sent after this call.
#[verifier::external_body]
pub(crate) fn subscribe(tx: &Sender<String>) -> (rx: Receiver<String>)
    ensures
        feed_of(rx) == channel_of(*tx),
{
    tx.subscribe()
}

/// `Sender::send`: hands `line` to the channel without waiting. With at least
/// one live subscriber the call reports how many there are; with none it
/// hands the line back.
#[verifier::external_body]
pub(crate) fn send(tx: &Sender<String>, line: String) -> (sent: Result<usize, String>)
    ensures
        sent matches Ok(n) ==> n >= 1,
        sent matches Err(back) ==> back@ == line@,
{
    match tx.send(line) {
        Ok(n) => Ok(n),
        Err(e) => Err(e.0),
    }
}

/// What became of one line handed to a room.
#[derive(Debug)]
pub struct Broadcast {
    /// The line as it was handed to the channel.
    pub line: String,
    /// The number of subscribers that the channel had when it took the line,
    /// or zero if it had none and the line went nowhere.
    pub receivers: usize,
}

impl Broadcast {
    /// Makes the report on `line` from what the channel answered to it: the
    /// subscriber count it gave, or none where it handed the line back.
    pub fn from_answer(line: String, answer: Result<usize, String>) -> (sent: Broadcast)
        ensures
            sent.line@ == line@,
            sent.receivers == match answer {
                Ok(receivers) => receivers,
                Err(_) => 0,
            },
    {
        match answer {
            Ok(receivers) => Broadcast { line, receivers },
            Err(_) => Broadcast { line, receivers: 0 },
        }
    }
}

/// Sends `line` to the room behind `tx` without waiting for any subscriber,
/// and reports what the channel answered. A room without subscribers is no
/// failure: the line is dropped.
pub fn publish(tx: &Sender<String>, line: String) -> (sent: Broadcast)
    ensures
        sent.line@ == line@,
{
    let copy = line.clone();
    Broadcast::from_answer(copy, send(tx, line))
}

} // verus!
