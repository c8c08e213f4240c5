//! The session record and the messages of the session actor, each with the mathematical value
//! that contracts speak of.
use crate::ids::{ActorId, MessageId};
use vstd::prelude::*;

verus! {

/// How a finished game ended.
#[derive(Clone, Copy, Debug, PartialEq, Eq, Structural)]
pub enum Outcome {
    Win,
    Lose,
}

/// An answer of the game actor, as the session decodes it.
#[derive(Debug, PartialEq, Eq)]
pub enum Event {
    GameStarted { user: ActorId },
    WordChecked { user: ActorId, correct_positions: Vec<u8>, contained_in_word: Vec<u8> },
}

/// What an `Event` stands for.
pub enum EventView {
    GameStarted { user: Seq<u8> },
    WordChecked { user: Seq<u8>, correct_positions: Seq<u8>, contained_in_word: Seq<u8> },
}

impl View for Event {
    type V = EventView;

    open spec fn view(&self) -> EventView {
        match self {
            Event::GameStarted { user } => EventView::GameStarted { user: user@ },
            Event::WordChecked { user, correct_positions, contained_in_word } => {
                EventView::WordChecked {
                    user: user@,
                    correct_positions: correct_positions@,
                    contained_in_word: contained_in_word@,
                }
            },
        }
    }
}

impl Clone for Event {
    fn clone(&self) -> (copy: Event)
        ensures
            copy@ == self@,
    {
        match self {
            Event::GameStarted { user } => Event::GameStarted { user: *user },
            Event::WordChecked { user, correct_positions, contained_in_word } => {
                Event::WordChecked {
                    user: *user,
                    correct_positions: correct_positions.clone(),
                    contained_in_word: contained_in_word.clone(),
                }
            },
        }
    }
}

/// Where a session stands.
#[derive(Debug, PartialEq, Eq)]
pub enum SessionStatus {
    /// No game was started yet.
    NotStarted,
    /// A game is on and no request is in flight.
    Waiting,
    /// A request went to the game actor and its answer is due.
    MessageSent,
    /// The answer arrived; the parked caller has yet to be served.
    MessageReceived(Event),
    /// The game ended.
    GameOver(Outcome),
}

/// What a `SessionStatus` stands for.
pub enum SessionStatusView {
    NotStarted,
    Waiting,
    MessageSent,
    MessageReceived(EventView),
    GameOver(Outcome),
}

impl View for SessionStatus {
    type V = SessionStatusView;

    open spec fn view(&self) -> SessionStatusView {
        match self {
            SessionStatus::NotStarted => SessionStatusView::NotStarted,
            SessionStatus::Waiting => SessionStatusView::Waiting,
            SessionStatus::MessageSent => SessionStatusView::MessageSent,
            SessionStatus::MessageReceived(event) => SessionStatusView::MessageReceived(event@),
            SessionStatus::GameOver(outcome) => SessionStatusView::GameOver(*outcome),
        }
    }
}

impl Clone for SessionStatus {
    fn clone(&self) -> (copy: SessionStatus)
        ensures
            copy@ == self@,
    {
        match self {
            SessionStatus::NotStarted => SessionStatus::NotStarted,
            SessionStatus::Waiting => SessionStatus::Waiting,
            SessionStatus::MessageSent => SessionStatus::MessageSent,
            SessionStatus::MessageReceived(event) => SessionStatus::MessageReceived(event.clone()),
            SessionStatus::GameOver(outcome) => SessionStatus::GameOver(*outcome),
        }
    }
}

/// A command of the player.
#[derive(Debug, PartialEq, Eq)]
pub enum SessionAction {
    StartGame,
    CheckWord(String),
    CheckGameStatus,
}

/// What a `SessionAction` stands for.
pub enum SessionActionView {
    StartGame,
    CheckWord(Seq<char>),
    CheckGameStatus,
}

impl View for SessionAction {
    type V = SessionActionView;

    open spec fn view(&self) -> SessionActionView {
        match self {
            SessionAction::StartGame => SessionActionView::StartGame,
            SessionAction::CheckWord(word) => SessionActionView::CheckWord(word@),
            SessionAction::CheckGameStatus => SessionActionView::CheckGameStatus,
        }
    }
}

impl Clone for SessionAction {
    fn clone(&self) -> (copy: SessionAction)
        ensures
            copy@ == self@,
    {
        match self {
            SessionAction::StartGame => SessionAction::StartGame,
            SessionAction::CheckWord(word) => SessionAction::CheckWord(word.clone()),
            SessionAction::CheckGameStatus => SessionAction::CheckGameStatus,
        }
    }
}

/// What the session answers to a command.
#[derive(Debug, PartialEq, Eq)]
pub enum SessionEvent {
    GameStarted { user: ActorId },
    WordChecked { user: ActorId, correct_positions: Vec<u8>, contained_in_word: Vec<u8> },
    GameError(String),
}

/// What a `SessionEvent` stands for.
pub enum SessionEventView {
    GameStarted { user: Seq<u8> },
    WordChecked { user: Seq<u8>, correct_positions: Seq<u8>, contained_in_word: Seq<u8> },
    GameError(Seq<char>),
}

impl View for SessionEvent {
    type V = SessionEventView;

    open spec fn view(&self) -> SessionEventView {
        match self {
            SessionEvent::GameStarted { user } => SessionEventView::GameStarted { user: user@ },
            SessionEvent::WordChecked { user, correct_positions, contained_in_word } => {
                SessionEventView::WordChecked {
                    user: user@,
                    correct_positions: correct_positions@,
                    contained_in_word: contained_in_word@,
                }
            },
            SessionEvent::GameError(reason) => SessionEventView::GameError(reason@),
        }
    }
}

impl Clone for SessionEvent {
    fn clone(&self) -> (copy: SessionEvent)
        ensures
            copy@ == self@,
    {
        match self {
            SessionEvent::GameStarted { user } => SessionEvent::GameStarted { user: *user },
            SessionEvent::WordChecked { user, correct_positions, contained_in_word } => {
                SessionEvent::WordChecked {
                    user: *user,
                    correct_positions: correct_positions.clone(),
                    contained_in_word: contained_in_word.clone(),
                }
            },
            SessionEvent::GameError(reason) => SessionEvent::GameError(reason.clone()),
        }
    }
}

/// The record of one session: the only state of the actor.
#[derive(Debug, PartialEq, Eq)]
pub struct Session {
    /// The game actor that the session forwards to.
    pub target_program_id: ActorId,
    pub session_status: SessionStatus,
    /// The block height at which the current round started.
    pub start_block_height: u32,
    /// The attempts that are left.
    pub attempts: u8,
    /// The request in flight and the caller parked for it, in this order.
    pub msg_ids: (MessageId, MessageId),
}

/// What a `Session` stands for.
pub struct SessionView {
    pub target_program_id: Seq<u8>,
    pub session_status: SessionStatusView,
    pub start_block_height: nat,
    pub attempts: nat,
    pub msg_ids: (Seq<u8>, Seq<u8>),
}

impl View for Session {
    type V = SessionView;

    open spec fn view(&self) -> SessionView {
        SessionView {
            target_program_id: self.target_program_id@,
            session_status: self.session_status@,
            start_block_height: self.start_block_height as nat,
            attempts: self.attempts as nat,
            msg_ids: (self.msg_ids.0@, self.msg_ids.1@),
        }
    }
}

impl Clone for Session {
    fn clone(&self) -> (copy: Session)
        ensures
            copy@ == self@,
    {
        Session {
            target_program_id: self.target_program_id,
            session_status: self.session_status.clone(),
            start_block_height: self.start_block_height,
            attempts: self.attempts,
            msg_ids: self.msg_ids,
        }
    }
}

/// A query on the state of the session actor.
#[derive(Clone, Copy, Debug, PartialEq, Eq)]
pub enum StateQuery {
    All,
    Player(ActorId),
}

/// The answer to a `StateQuery`.
#[derive(Debug, PartialEq, Eq)]
pub enum StateQueryReply {
    All(Vec<ActorId>),
    Game(Session),
}

/// What a `StateQueryReply` stands for.
pub enum StateQueryReplyView {
    All(Seq<Seq<u8>>),
    Game(SessionView),
}

impl View for StateQueryReply {
    type V = StateQueryReplyView;

    open spec fn view(&self) -> StateQueryReplyView {
        match self {
            StateQueryReply::All(players) => StateQueryReplyView::All(
                Seq::new(players@.len(), |i: int| players@[i]@),
            ),
            StateQueryReply::Game(session) => StateQueryReplyView::Game(session@),
        }
    }
}

impl Clone for StateQueryReply {
    fn clone(&self) -> (copy: StateQueryReply)
        ensures
            copy@ == self@,
    {
        match self {
            StateQueryReply::All(players) => {
                let copy = StateQueryReply::All(players.clone());
                assert(copy@->All_0 =~= self@->All_0);
                copy
            },
            StateQueryReply::Game(session) => StateQueryReply::Game(session.clone()),
        }
    }
}

} // verus!
