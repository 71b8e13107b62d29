//! The two pumps of a streaming session.
//!
//! Each pump owns one direction of the client's transport and shares nothing
//! with its sibling. The reading and writing is done by whoever drives the
//! pump; the pump decides what each thing read or received calls for.

use crate::auth::Identity;
use crate::channel::{channel_of, publish, Broadcast};
use crate::lifecycle::{Effect, Event, Pump};
use crate::wire::{chat_line, render_chat};
use tokio::sync::broadcast::{Receiver, Sender};
use vstd::prelude::*;

verus! {

/// What one read of the client's transport gave.
#[derive(Debug)]
pub enum Incoming {
    /// A text frame.
    Text(String),
    /// A frame of any other kind.
    Other,
    /// The client closed the stream.
    Closed,
    /// The read failed.
    Failed,
}

/// What the persistence sink is asked to keep of one chat message.
#[derive(Debug)]
pub struct ChatRecord {
    pub user_id: i32,
    pub username: String,
    pub room: String,
    pub text: String,
}

/// What the inbound pump does next.
#[derive(Debug)]
pub enum InboundStep {
    /// Submit the record to the persistence sink, then publish it.
    Relay(ChatRecord),
    /// Drop the frame and read on.
    Ignore,
    /// End the pump.
    Stop,
}

/// What the outbound pump met.
#[derive(Debug)]
pub enum Outgoing {
    /// The subscriber received a line from the room.
    Message(String),
    /// The subscriber fell behind and lost this many of the oldest lines.
    Lagged(u64),
    /// The room's channel has no producer left.
    ChannelClosed,
    /// Writing a frame to the client failed.
    WriteFailed,
}

/// What the outbound pump does next.
#[derive(Debug)]
pub enum OutboundStep {
    /// Write the line to the client as a text frame.
    Forward(String),
    /// Receive on.
    Skip,
    /// End the pump.
    Stop,
}

impl Incoming {
    /// The event that this read is in the life of the session.
    pub open spec fn event(self) -> Event {
        match self {
            Incoming::Text(_) => Event::TextFrame,
            Incoming::Other => Event::OtherFrame,
            Incoming::Closed => Event::PumpStopped { pump: Pump::Inbound },
            Incoming::Failed => Event::PumpStopped { pump: Pump::Inbound },
        }
    }
}

impl InboundStep {
    /// The effect that this step is in the life of the session. A pump that
    /// ends has its sibling cancelled.
    pub open spec fn effect(self) -> Effect {
        match self {
            InboundStep::Relay(_) => Effect::PersistThenBroadcast,
            InboundStep::Ignore => Effect::Nothing,
            InboundStep::Stop => Effect::Cancel { pump: Pump::Outbound },
        }
    }
}

impl Outgoing {
    /// The event that this is in the life of the session.
    pub open spec fn event(self) -> Event {
        match self {
            Outgoing::Message(_) => Event::Delivered,
            Outgoing::Lagged(_) => Event::Lagged,
            Outgoing::ChannelClosed => Event::PumpStopped { pump: Pump::Outbound },
            Outgoing::WriteFailed => Event::PumpStopped { pump: Pump::Outbound },
        }
    }
}

impl OutboundStep {
    /// The effect that this step is in the life of the session. A pump that
    /// ends has its sibling cancelled.
    pub open spec fn effect(self) -> Effect {
        match self {
            OutboundStep::Forward(_) => Effect::Forward,
            OutboundStep::Skip => Effect::Nothing,
            OutboundStep::Stop => Effect::Cancel { pump: Pump::Inbound },
        }
    }
}

/// The client-to-room direction of a streaming session.
pub struct InboundPump {
    who: Identity,
    room: String,
    tx: Sender<String>,
}

/// The room-to-client direction of a streaming session.
pub struct OutboundPump {
    /// The session's one subscriber on its room's channel.
    pub subscriber: Receiver<String>,
}

impl InboundPump {
    /// Whom the pump reads from.
    pub closed spec fn identity(&self) -> Identity {
        self.who
    }

    /// The name of the room that the pump sends to.
    pub closed spec fn room(&self) -> Seq<char> {
        self.room@
    }

    /// The channel that the pump sends to.
    pub closed spec fn channel(&self) -> nat {
        channel_of(self.tx)
    }

    /// The inbound pump of the session of `who` in `room`, sending on `tx`.
    pub(crate) fn new(who: Identity, room: String, tx: Sender<String>) -> (pump: InboundPump)
        ensures
            pump.identity() == who,
            pump.room() == room@,
            pump.channel() == channel_of(tx),
    {
        InboundPump { who, room, tx }
    }

    /// Decides what one read calls for. A text frame is relayed under the
    /// session's identity and room; any other frame is dropped without
    /// complaint; the end of the stream or a failed read ends the pump.
    pub fn on_read(&self, read: Incoming) -> (next: InboundStep)
        ensures
            next.effect() == crate::lifecycle::step(
                crate::lifecycle::Phase::Streaming,
                read.event(),
            ).1,
            read matches Incoming::Text(text) ==> {
                &&& next matches InboundStep::Relay(record)
                &&& record.user_id == self.identity().user_id
                &&& record.username@ == self.identity().username@
                &&& record.room@ == self.room()
                &&& record.text@ == text@
            },
            read is Other ==> next is Ignore,
            read is Closed || read is Failed ==> next is Stop,
    {
        match read {
            Incoming::Text(text) => InboundStep::Relay(
                ChatRecord {
                    user_id: self.who.user_id,
                    username: self.who.username.clone(),
                    room: self.room.clone(),
                    text,
                },
            ),
            Incoming::Other => InboundStep::Ignore,
            Incoming::Closed => InboundStep::Stop,
            Incoming::Failed => InboundStep::Stop,
        }
    }

    /// Sends what `record` says to the room, under the session's own name.
    /// `stored` tells whether the persistence sink kept the record; the line
    /// is sent the same either way, since durable storage is no condition of
    /// chat.
    pub fn publish(&self, record: &ChatRecord, stored: bool) -> (sent: Broadcast)
        ensures
            sent.line@ == chat_line(self.identity().username@, record.text@),
    {
        publish(&self.tx, render_chat(&self.who.username, &record.text))
    }
}

impl OutboundPump {
    /// Decides what the pump does about `met`. A line from the room is
    /// forwarded as it is; lost lines are passed over; a closed channel or a
    /// failed write ends the pump.
    pub fn on_event(&self, met: Outgoing) -> (next: OutboundStep)
        ensures
            next.effect() == crate::lifecycle::step(
                crate::lifecycle::Phase::Streaming,
                met.event(),
            ).1,
            met matches Outgoing::Message(line) ==> next matches OutboundStep::Forward(text)
                && text@ == line@,
            met is Lagged ==> next is Skip,
            met is ChannelClosed || met is WriteFailed ==> next is Stop,
    {
        match met {
            Outgoing::Message(line) => OutboundStep::Forward(line),
            Outgoing::Lagged(_) => OutboundStep::Skip,
            Outgoing::ChannelClosed => OutboundStep::Stop,
            Outgoing::WriteFailed => OutboundStep::Stop,
        }
    }
}

} // verus!
