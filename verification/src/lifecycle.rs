//! The lifecycle of one client connection as a state machine.
//!
//! A session moves forward through six phases and never back. Each thing
//! that happens to it is an [`Event`]; what the session must do in answer is
//! an [`Effect`]. The machine carries no payload: who joined, which room and
//! what was said belong to the session that drives it.

use vstd::prelude::*;

verus! {

/// Where a session stands.
#[derive(Clone, Copy, Debug, PartialEq, Eq, Structural)]
pub enum Phase {
    /// The upgrade was asked for; nothing is known of the caller yet.
    Connecting,
    /// The token was accepted and the identity is fixed for the session's life.
    Authenticated,
    /// The session holds its subscriber and has announced itself to the room.
    Joined,
    /// Both pumps run.
    Streaming,
    /// One pump ended and the other was cancelled.
    Closing,
    /// Nothing is left to do.
    Closed,
}

/// One direction of the duplex stream.
#[derive(Clone, Copy, Debug, PartialEq, Eq, Structural)]
pub enum Pump {
    /// Client to room.
    Inbound,
    /// Room to client.
    Outbound,
}

/// Something that happened to a session.
#[derive(Clone, Copy, Debug, PartialEq, Eq, Structural)]
pub enum Event {
    /// The token check came back.
    Verdict { accepted: bool },
    /// The registry handed over a producer handle on the room's channel.
    RoomAcquired,
    /// The two pumps are about to be scheduled.
    Start,
    /// The client sent a text frame.
    TextFrame,
    /// The client sent a frame that is not text.
    OtherFrame,
    /// The subscriber received a message from the room.
    Delivered,
    /// The subscriber learned that it fell behind and lost messages.
    Lagged,
    /// A pump ended on its own: the transport failed or closed, or the
    /// channel has no producer left.
    PumpStopped { pump: Pump },
    /// The registry was asked whether the room is still there.
    RoomChecked { exists: bool },
}

/// What a session does in answer to an event.
#[derive(Clone, Copy, Debug, PartialEq, Eq, Structural)]
pub enum Effect {
    /// The event is ignored.
    Nothing,
    /// The upgrade is refused as unauthorized.
    RefuseUpgrade,
    /// The upgrade goes ahead.
    AcceptUpgrade,
    /// Subscribe to the room's channel, and only then send the join notice
    /// on it.
    SubscribeThenAnnounce,
    /// Schedule the two pumps.
    RunPumps,
    /// Hand the chat record to the persistence sink, then send the chat line
    /// to the room whatever the sink answered.
    PersistThenBroadcast,
    /// Write the message to the client as a text frame.
    Forward,
    /// Cancel the given pump at once.
    Cancel { pump: Pump },
    /// Send the part notice to the room.
    AnnouncePart,
}

impl Pump {
    /// The other direction.
    pub open spec fn sibling(self) -> Pump {
        match self {
            Pump::Inbound => Pump::Outbound,
            Pump::Outbound => Pump::Inbound,
        }
    }

    /// The other direction.
    #[verifier::when_used_as_spec(sibling)]
    pub fn other(self) -> (p: Pump)
        ensures
            p == self.sibling(),
    {
        match self {
            Pump::Inbound => Pump::Outbound,
            Pump::Outbound => Pump::Inbound,
        }
    }
}

impl Phase {
    /// The position of the phase on the one path that sessions take.
    pub open spec fn rank(self) -> nat {
        match self {
            Phase::Connecting => 0,
            Phase::Authenticated => 1,
            Phase::Joined => 2,
            Phase::Streaming => 3,
            Phase::Closing => 4,
            Phase::Closed => 5,
        }
    }
}

/// The phase after `event` and the effect it calls for. An event that does
/// not belong to the phase changes nothing and calls for nothing.
pub open spec fn step(phase: Phase, event: Event) -> (Phase, Effect) {
    match (phase, event) {
        (Phase::Connecting, Event::Verdict { accepted: true }) => (
            Phase::Authenticated,
            Effect::AcceptUpgrade,
        ),
        (Phase::Connecting, Event::Verdict { accepted: false }) => (
            Phase::Closed,
            Effect::RefuseUpgrade,
        ),
        (Phase::Authenticated, Event::RoomAcquired) => (
            Phase::Joined,
            Effect::SubscribeThenAnnounce,
        ),
        (Phase::Joined, Event::Start) => (Phase::Streaming, Effect::RunPumps),
        (Phase::Streaming, Event::TextFrame) => (Phase::Streaming, Effect::PersistThenBroadcast),
        (Phase::Streaming, Event::Delivered) => (Phase::Streaming, Effect::Forward),
        (Phase::Streaming, Event::PumpStopped { pump }) => (
            Phase::Closing,
            Effect::Cancel { pump: pump.sibling() },
        ),
        (Phase::Closing, Event::RoomChecked { exists: true }) => (
            Phase::Closed,
            Effect::AnnouncePart,
        ),
        (Phase::Closing, Event::RoomChecked { exists: false }) => (Phase::Closed, Effect::Nothing),
        _ => (phase, Effect::Nothing),
    }
}

/// Computes [`step`].
pub fn advance(phase: Phase, event: Event) -> (next: (Phase, Effect))
    ensures
        next == step(phase, event),
{
    match phase {
        Phase::Connecting => match event {
            Event::Verdict { accepted } => if accepted {
                (Phase::Authenticated, Effect::AcceptUpgrade)
            } else {
                (Phase::Closed, Effect::RefuseUpgrade)
            },
            _ => (phase, Effect::Nothing),
        },
        Phase::Authenticated => match event {
            Event::RoomAcquired => (Phase::Joined, Effect::SubscribeThenAnnounce),
            _ => (phase, Effect::Nothing),
        },
        Phase::Joined => match event {
            Event::Start => (Phase::Streaming, Effect::RunPumps),
            _ => (phase, Effect::Nothing),
        },
        Phase::Streaming => match event {
            Event::TextFrame => (Phase::Streaming, Effect::PersistThenBroadcast),
            Event::Delivered => (Phase::Streaming, Effect::Forward),
            Event::PumpStopped { pump } => (Phase::Closing, Effect::Cancel { pump: pump.other() }),
            _ => (phase, Effect::Nothing),
        },
        Phase::Closing => match event {
            Event::RoomChecked { exists } => if exists {
                (Phase::Closed, Effect::AnnouncePart)
            } else {
                (Phase::Closed, Effect::Nothing)
            },
            _ => (phase, Effect::Nothing),
        },
        Phase::Closed => (phase, Effect::Nothing),
    }
}

/// The phase that a session starting in `start` has reached after `events`.
pub open spec fn run(start: Phase, events: Seq<Event>) -> Phase
    decreases events.len(),
{
    if events.len() == 0 {
        start
    } else {
        step(run(start, events.drop_last()), events.last()).0
    }
}

/// The effect of the event at position `i` of `events`, for a session that
/// started in `start`.
pub open spec fn effect_at(start: Phase, events: Seq<Event>, i: int) -> Effect {
    step(run(start, events.take(i)), events[i]).1
}

/// The effects of `events`, one for each event and in the same order.
pub open spec fn effects(start: Phase, events: Seq<Event>) -> Seq<Effect> {
    Seq::new(events.len(), |i: int| effect_at(start, events, i))
}

/// The phase that a new session has reached before the event at position
/// `i` of `events`.
pub open spec fn phase_before(events: Seq<Event>, i: int) -> Phase {
    run(Phase::Connecting, events.take(i))
}

/// No event moves a session back, and only a frame, a delivery or a lag
/// leaves it where it was while calling for more than nothing.
pub proof fn lemma_step_moves_forward(phase: Phase, event: Event)
    ensures
        phase.rank() <= step(phase, event).0.rank(),
        step(phase, event).0.rank() <= phase.rank() + 1 || step(phase, event).0 == Phase::Closed,
        phase == Phase::Closed ==> step(phase, event) == (Phase::Closed, Effect::Nothing),
{
}

/// Along any run of events the phases never go back.
pub proof fn lemma_phases_never_go_back(events: Seq<Event>, i: int, j: int)
    requires
        0 <= i <= j <= events.len(),
    ensures
        phase_before(events, i).rank() <= phase_before(events, j).rank(),
    decreases j - i,
{
    if i < j {
        lemma_phases_never_go_back(events, i, j - 1);
        assert(events.take(j).drop_last() =~= events.take(j - 1));
        assert(events.take(j).last() == events[j - 1]);
        lemma_step_moves_forward(phase_before(events, j - 1), events[j - 1]);
    }
}

/// The phase after the event at position `i` is the phase before the next.
pub proof fn lemma_phase_after(events: Seq<Event>, i: int)
    requires
        0 <= i < events.len(),
    ensures
        phase_before(events, i + 1) == step(phase_before(events, i), events[i]).0,
        effects(Phase::Connecting, events)[i] == step(phase_before(events, i), events[i]).1,
{
    assert(events.take(i + 1).drop_last() =~= events.take(i));
    assert(events.take(i + 1).last() == events[i]);
}

/// A session that stands in a phase of rank `rank` or later, and is not yet
/// closed, reached rank `rank` by one event, before which it stood one rank
/// lower.
proof fn lemma_entered(events: Seq<Event>, i: int, rank: nat) -> (j: int)
    requires
        0 <= i <= events.len(),
        1 <= rank <= phase_before(events, i).rank() <= 4,
    ensures
        0 <= j < i,
        phase_before(events, j).rank() == rank - 1,
        phase_before(events, j + 1).rank() == rank,
    decreases i,
{
    if i == 0 {
        assert(events.take(0) =~= Seq::<Event>::empty());
        0
    } else {
        lemma_phase_after(events, i - 1);
        let before = phase_before(events, i - 1);
        lemma_step_moves_forward(before, events[i - 1]);
        if before.rank() >= rank {
            lemma_entered(events, i - 1, rank)
        } else {
            i - 1
        }
    }
}

/// A session sends a chat line only after it has subscribed to its room and
/// announced itself there: every effect `PersistThenBroadcast` comes after
/// an effect `SubscribeThenAnnounce` of the same session.
pub proof fn lemma_join_comes_before_chat(events: Seq<Event>, i: int) -> (j: int)
    requires
        0 <= i < events.len(),
        effects(Phase::Connecting, events)[i] == Effect::PersistThenBroadcast,
    ensures
        0 <= j < i,
        effects(Phase::Connecting, events)[j] == Effect::SubscribeThenAnnounce,
{
    lemma_phase_after(events, i);
    assert(phase_before(events, i) == Phase::Streaming);
    let j = lemma_entered(events, i, 2);
    lemma_phase_after(events, j);
    j
}

/// A session announces itself to its room at most once.
pub proof fn lemma_join_is_announced_at_most_once(events: Seq<Event>, i: int, j: int)
    requires
        0 <= i < events.len(),
        0 <= j < events.len(),
        effects(Phase::Connecting, events)[i] == Effect::SubscribeThenAnnounce,
        effects(Phase::Connecting, events)[j] == Effect::SubscribeThenAnnounce,
    ensures
        i == j,
{
    lemma_phase_after(events, i);
    lemma_phase_after(events, j);
    if i < j {
        lemma_phases_never_go_back(events, i + 1, j);
    } else if j < i {
        lemma_phases_never_go_back(events, j + 1, i);
    }
}

/// The part notice is sent at most once in the life of a session.
pub proof fn lemma_part_is_announced_at_most_once(events: Seq<Event>, i: int, j: int)
    requires
        0 <= i < events.len(),
        0 <= j < events.len(),
        effects(Phase::Connecting, events)[i] == Effect::AnnouncePart,
        effects(Phase::Connecting, events)[j] == Effect::AnnouncePart,
    ensures
        i == j,
{
    lemma_phase_after(events, i);
    lemma_phase_after(events, j);
    if i < j {
        lemma_phases_never_go_back(events, i + 1, j);
    } else if j < i {
        lemma_phases_never_go_back(events, j + 1, i);
    }
}

/// The part notice is sent only after both pumps have stopped: before it,
/// one pump ended on its own and the other was cancelled in answer, and
/// from that cancellation on no frame was relayed nor any message forwarded.
pub proof fn lemma_part_comes_after_both_pumps_stopped(events: Seq<Event>, i: int) -> (j: int)
    requires
        0 <= i < events.len(),
        effects(Phase::Connecting, events)[i] == Effect::AnnouncePart,
    ensures
        0 <= j < i,
        events[j] matches Event::PumpStopped { pump } && effects(Phase::Connecting, events)[j]
            == (Effect::Cancel { pump: pump.sibling() }),
        forall|k: int|
            j < k < events.len() ==> {
                &&& (#[trigger] effects(Phase::Connecting, events)[k])
                    != Effect::PersistThenBroadcast
                &&& effects(Phase::Connecting, events)[k] != Effect::Forward
            },
{
    lemma_phase_after(events, i);
    assert(phase_before(events, i) == Phase::Closing);
    let j = lemma_entered(events, i, 4);
    lemma_phase_after(events, j);
    assert forall|k: int| j < k < events.len() implies {
        &&& (#[trigger] effects(Phase::Connecting, events)[k]) != Effect::PersistThenBroadcast
        &&& effects(Phase::Connecting, events)[k] != Effect::Forward
    } by {
        lemma_phase_after(events, k);
        lemma_phases_never_go_back(events, j + 1, k);
    }
    j
}

/// A refused upgrade leaves nothing behind: after it the session is closed
/// and no later event makes it subscribe, announce, relay or forward.
pub proof fn lemma_refused_upgrade_has_no_effects(events: Seq<Event>, k: int)
    requires
        0 < k < events.len(),
        events[0] == (Event::Verdict { accepted: false }),
    ensures
        effects(Phase::Connecting, events)[0] == Effect::RefuseUpgrade,
        effects(Phase::Connecting, events)[k] == Effect::Nothing,
{
    assert(events.take(0) =~= Seq::<Event>::empty());
    lemma_phase_after(events, 0);
    lemma_phase_after(events, k);
    lemma_phases_never_go_back(events, 1, k);
}

} // verus!
