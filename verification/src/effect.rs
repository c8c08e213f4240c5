//! What the shell around the session has to carry out after a command.
use crate::ids::ActorId;
use crate::io::{SessionAction, SessionActionView, SessionEvent, SessionEventView};
use crate::wordle::{WordleAction, WordleActionView};
use vstd::prelude::*;

verus! {

/// The one thing to do for the caller of a command.
#[derive(Debug, PartialEq, Eq)]
pub enum Effect {
    /// Nothing is sent and the caller gets no reply.
    Idle,
    /// The caller gets `event` as its reply.
    Reply { event: SessionEvent },
    /// `command` is to reach this actor itself once `delay` blocks have passed; then the caller
    /// gets `event` as its reply.
    ScheduleCheck { command: SessionAction, delay: u32, event: SessionEvent },
    /// `request` goes to the actor `destination`. The caller gets no reply yet: it stays parked
    /// until the answer to the request has arrived.
    Forward { destination: ActorId, request: WordleAction },
}

/// What an `Effect` stands for.
pub enum EffectView {
    Idle,
    Reply { event: SessionEventView },
    ScheduleCheck { command: SessionActionView, delay: nat, event: SessionEventView },
    Forward { destination: Seq<u8>, request: WordleActionView },
}

impl View for Effect {
    type V = EffectView;

    open spec fn view(&self) -> EffectView {
        match self {
            Effect::Idle => EffectView::Idle,
            Effect::Reply { event } => EffectView::Reply { event: event@ },
            Effect::ScheduleCheck { command, delay, event } => EffectView::ScheduleCheck {
                command: command@,
                delay: *delay as nat,
                event: event@,
            },
            Effect::Forward { destination, request } => EffectView::Forward {
                destination: destination@,
                request: request@,
            },
        }
    }
}

impl Clone for Effect {
    fn clone(&self) -> (copy: Effect)
        ensures
            copy@ == self@,
    {
        match self {
            Effect::Idle => Effect::Idle,
            Effect::Reply { event } => Effect::Reply { event: event.clone() },
            Effect::ScheduleCheck { command, delay, event } => Effect::ScheduleCheck {
                command: command.clone(),
                delay: *delay,
                event: event.clone(),
            },
            Effect::Forward { destination, request } => Effect::Forward {
                destination: *destination,
                request: request.clone(),
            },
        }
    }
}

} // verus!
