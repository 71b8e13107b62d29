//! One client's session, from the token check to the part notice.
//!
//! A session is driven from outside: each method is one event of the
//! lifecycle, moves the session as [`step`] says and does on the room's
//! channel what the event calls for. A method called out of turn changes
//! nothing. None of the methods touches the registry: the handle that
//! `join` and `leave` take is fetched beforehand, so that no line is ever
//! sent while the registry is held.

use crate::auth::{refusal_text, refuse, AuthError, Identity, Refusal, UNAUTHORIZED};
use crate::channel::{channel_of, feed_of, publish, subscribe, Broadcast};
use crate::lifecycle::{advance, step, Effect, Event, Phase, Pump};
use crate::pump::{InboundPump, OutboundPump};
use crate::wire::{join_line, part_line, render_join, render_part};
use tokio::sync::broadcast::{Receiver, Sender};
use vstd::prelude::*;

verus! {

/// The lifecycle object of one client connection.
pub struct Session {
    phase: Phase,
    room: String,
    who: Option<Identity>,
    tx: Option<Sender<String>>,
    rx: Option<Receiver<String>>,
}

impl Session {
    #[verifier::type_invariant]
    spec fn valid(&self) -> bool {
        &&& self.who is Some <==> 1 <= self.phase.rank() <= 4
        &&& self.tx is Some <==> self.phase == Phase::Joined
        &&& self.rx is Some <==> self.phase == Phase::Joined
        &&& self.phase == Phase::Joined ==> feed_of(self.rx->0) == channel_of(self.tx->0)
    }

    /// Where the session stands.
    pub closed spec fn phase(&self) -> Phase {
        self.phase
    }

    /// The name of the room that the session asked for.
    pub closed spec fn room(&self) -> Seq<char> {
        self.room@
    }

    /// Whom the session acts for, from the accepted token check until the
    /// session is closed.
    pub closed spec fn identity(&self) -> Option<Identity> {
        self.who
    }

    /// The channel that the session holds a producer handle and its
    /// subscriber on, while it has joined and has not yet handed both to its
    /// pumps.
    pub closed spec fn channel(&self) -> Option<nat> {
        match self.tx {
            Some(tx) => Some(channel_of(tx)),
            None => None,
        }
    }

    /// A session that asks to enter `room` and is not yet known.
    pub fn new(room: String) -> (session: Session)
        ensures
            session.phase() == Phase::Connecting,
            session.room() == room@,
            session.identity() is None,
            session.channel() is None,
    {
        Session { phase: Phase::Connecting, room, who: None, tx: None, rx: None }
    }

    /// Moves the session out and leaves an empty one in its place, for the
    /// caller to overwrite with the next state.
    fn take(&mut self) -> (taken: Session)
        ensures
            taken == *old(self),
    {
        let mut taken = Session::new(String::new());
        core::mem::swap(self, &mut taken);
        taken
    }

    /// The phase of the session.
    pub fn current_phase(&self) -> (phase: Phase)
        ensures
            phase == self.phase(),
    {
        self.phase
    }

    /// The name of the room.
    pub fn room_name(&self) -> (name: &String)
        ensures
            name@ == self.room(),
    {
        &self.room
    }

    /// The name of the user, while the session has an identity.
    pub fn username(&self) -> (name: Option<&String>)
        ensures
            name is Some <==> self.identity() is Some,
            name matches Some(n) ==> n@ == self.identity()->0.username@,
    {
        match &self.who {
            Some(who) => Some(&who.username),
            None => None,
        }
    }

    /// Takes the outcome of the token check. An identity lets the upgrade
    /// through and is kept for the life of the session; an error closes the
    /// session at once and is answered as unauthorized, before any room is
    /// touched.
    pub fn authenticate(&mut self, verdict: Result<Identity, AuthError>) -> (refused: Option<
        Refusal,
    >)
        ensures
            final(self).phase() == step(
                old(self).phase(),
                Event::Verdict { accepted: verdict is Ok },
            ).0,
            refused is Some <==> step(
                old(self).phase(),
                Event::Verdict { accepted: verdict is Ok },
            ).1 == Effect::RefuseUpgrade,
            final(self).room() == old(self).room(),
            final(self).channel() == old(self).channel(),
            old(self).phase() == Phase::Connecting ==> match verdict {
                Ok(identity) => refused is None && final(self).identity() == Some(identity),
                Err(reason) => {
                    &&& final(self).identity() is None
                    &&& refused matches Some(refusal)
                    &&& refusal.status == UNAUTHORIZED
                    &&& refusal.reason == reason
                    &&& refusal.message@ == refusal_text(reason)
                },
            },
            old(self).phase() != Phase::Connecting ==> refused is None && *final(self) == *old(
                self,
            ),
    {
        proof {
            use_type_invariant(&*self);
        }
        let accepted = verdict.is_ok();
        let (next, effect) = advance(self.phase, Event::Verdict { accepted });
        match effect {
            Effect::AcceptUpgrade => {
                match verdict {
                    Ok(identity) => {
                        let taken = self.take();
                        *self = Session {
                            phase: next,
                            room: taken.room,
                            who: Some(identity),
                            tx: None,
                            rx: None,
                        };
                        None
                    },
                    Err(_) => None,
                }
            },
            Effect::RefuseUpgrade => {
                match verdict {
                    Ok(_) => None,
                    Err(reason) => {
                        let taken = self.take();
                        *self = Session {
                            phase: next,
                            room: taken.room,
                            who: None,
                            tx: None,
                            rx: None,
                        };
                        Some(refuse(reason))
                    },
                }
            },
            _ => None,
        }
    }

    /// Enters the room behind `handle`: creates the session's subscriber on
    /// the channel first and sends the join notice second, so that the
    /// session is among those who receive its own notice.
    pub fn join(&mut self, handle: Sender<String>) -> (announced: Option<Broadcast>)
        ensures
            final(self).phase() == step(old(self).phase(), Event::RoomAcquired).0,
            announced is Some <==> step(old(self).phase(), Event::RoomAcquired).1
                == Effect::SubscribeThenAnnounce,
            final(self).room() == old(self).room(),
            final(self).identity() == old(self).identity(),
            old(self).phase() == Phase::Authenticated ==> {
                &&& final(self).channel() == Some(channel_of(handle))
                &&& announced matches Some(sent)
                &&& sent.line@ == join_line(old(self).identity()->0.username@)
            },
            old(self).phase() != Phase::Authenticated ==> announced is None && *final(self)
                == *old(self),
    {
        proof {
            use_type_invariant(&*self);
        }
        let (next, effect) = advance(self.phase, Event::RoomAcquired);
        match effect {
            Effect::SubscribeThenAnnounce => {
                let taken = self.take();
                let Session { phase: _, room, who, tx: _, rx: _ } = taken;
                match who {
                    Some(identity) => {
                        let subscriber = subscribe(&handle);
                        let sent = publish(&handle, render_join(&identity.username));
                        *self = Session {
                            phase: next,
                            room,
                            who: Some(identity),
                            tx: Some(handle),
                            rx: Some(subscriber),
                        };
                        Some(sent)
                    },
                    None => {
                        *self = Session::new(room);
                        None
                    },
                }
            },
            _ => None,
        }
    }

    /// Hands the session's producer handle and subscriber to its two pumps.
    /// From here on the session itself only waits for one of them to end.
    pub fn start(&mut self) -> (pumps: Option<(InboundPump, OutboundPump)>)
        ensures
            final(self).phase() == step(old(self).phase(), Event::Start).0,
            pumps is Some <==> step(old(self).phase(), Event::Start).1 == Effect::RunPumps,
            final(self).room() == old(self).room(),
            final(self).identity() == old(self).identity(),
            old(self).phase() == Phase::Joined ==> {
                &&& final(self).channel() is None
                &&& pumps matches Some((inbound, outbound))
                &&& inbound.identity() == old(self).identity()->0
                &&& inbound.room() == old(self).room()
                &&& Some(inbound.channel()) == old(self).channel()
                &&& Some(feed_of(outbound.subscriber)) == old(self).channel()
            },
            old(self).phase() != Phase::Joined ==> pumps is None && *final(self) == *old(self),
    {
        proof {
            use_type_invariant(&*self);
        }
        let (next, effect) = advance(self.phase, Event::Start);
        match effect {
            Effect::RunPumps => {
                let taken = self.take();
                let Session { phase: _, room, who, tx, rx } = taken;
                match (who, tx, rx) {
                    (Some(identity), Some(handle), Some(subscriber)) => {
                        let inbound = InboundPump::new(identity.duplicate(), room.clone(), handle);
                        let outbound = OutboundPump { subscriber };
                        *self = Session {
                            phase: next,
                            room,
                            who: Some(identity),
                            tx: None,
                            rx: None,
                        };
                        Some((inbound, outbound))
                    },
                    (_, _, _) => {
                        *self = Session::new(room);
                        None
                    },
                }
            },
            _ => None,
        }
    }

    /// Takes note that `pump` ended on its own and names the pump that is to
    /// be cancelled in answer: its sibling, at once and without draining.
    pub fn pump_stopped(&mut self, pump: Pump) -> (cancel: Option<Pump>)
        ensures
            final(self).phase() == step(old(self).phase(), Event::PumpStopped { pump }).0,
            step(old(self).phase(), Event::PumpStopped { pump }).1 == match cancel {
                Some(sibling) => Effect::Cancel { pump: sibling },
                None => Effect::Nothing,
            },
            final(self).room() == old(self).room(),
            final(self).identity() == old(self).identity(),
            final(self).channel() == old(self).channel(),
            old(self).phase() == Phase::Streaming ==> cancel == Some(pump.sibling()),
            old(self).phase() != Phase::Streaming ==> cancel is None && *final(self) == *old(
                self,
            ),
    {
        proof {
            use_type_invariant(&*self);
        }
        let (next, effect) = advance(self.phase, Event::PumpStopped { pump });
        match effect {
            Effect::Cancel { pump: sibling } => {
                let taken = self.take();
                *self = Session { phase: next, room: taken.room, who: taken.who, tx: None, rx: None };
                Some(sibling)
            },
            _ => None,
        }
    }

    /// Closes the session. `room` is what the registry holds under the
    /// session's room name at this moment: with a handle the part notice is
    /// sent on it, without one the notice is passed over in silence.
    pub fn leave(&mut self, room: Option<Sender<String>>) -> (announced: Option<Broadcast>)
        ensures
            final(self).phase() == step(
                old(self).phase(),
                Event::RoomChecked { exists: room is Some },
            ).0,
            announced is Some <==> step(
                old(self).phase(),
                Event::RoomChecked { exists: room is Some },
            ).1 == Effect::AnnouncePart,
            final(self).room() == old(self).room(),
            final(self).channel() == old(self).channel(),
            old(self).phase() == Phase::Closing ==> {
                &&& final(self).identity() is None
                &&& room is None ==> announced is None
                &&& room is Some ==> (announced matches Some(sent) && sent.line@ == part_line(
                    old(self).identity()->0.username@,
                ))
            },
            old(self).phase() != Phase::Closing ==> announced is None && *final(self) == *old(
                self,
            ),
    {
        proof {
            use_type_invariant(&*self);
        }
        if self.phase != Phase::Closing {
            return None;
        }
        let (next, effect) = advance(self.phase, Event::RoomChecked { exists: room.is_some() });
        let taken = self.take();
        let Session { phase: _, room: name, who, tx: _, rx: _ } = taken;
        *self = Session { phase: next, room: name, who: None, tx: None, rx: None };
        match (effect, room, who) {
            (Effect::AnnouncePart, Some(handle), Some(identity)) => Some(
                publish(&handle, render_part(&identity.username)),
            ),
            (_, _, _) => None,
        }
    }
}

} // verus!
