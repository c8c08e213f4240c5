//! The interface of the game actor, as the session sees it.
use crate::ids::ActorId;
use vstd::prelude::*;

verus! {

/// A request to the game actor.
#[derive(Debug, PartialEq, Eq)]
pub enum WordleAction {
    StartGame { user: ActorId },
    CheckWord { user: ActorId, word: String },
}

/// What a `WordleAction` stands for.
pub enum WordleActionView {
    StartGame { user: Seq<u8> },
    CheckWord { user: Seq<u8>, word: Seq<char> },
}

impl View for WordleAction {
    type V = WordleActionView;

    open spec fn view(&self) -> WordleActionView {
        match self {
            WordleAction::StartGame { user } => WordleActionView::StartGame { user: user@ },
            WordleAction::CheckWord { user, word } => WordleActionView::CheckWord {
                user: user@,
                word: word@,
            },
        }
    }
}

impl Clone for WordleAction {
    fn clone(&self) -> (copy: WordleAction)
        ensures
            copy@ == self@,
    {
        match self {
            WordleAction::StartGame { user } => WordleAction::StartGame { user: *user },
            WordleAction::CheckWord { user, word } => WordleAction::CheckWord {
                user: *user,
                word: word.clone(),
            },
        }
    }
}

/// An answer of the game actor.
#[derive(Clone, Debug, PartialEq, Eq)]
pub enum WordleEvent {
    GameStarted { user: ActorId },
    WordChecked { user: ActorId, correct_positions: Vec<u8>, contained_in_word: Vec<u8> },
}

/// A query on the state of the game actor.
#[derive(Clone, Copy, Debug, PartialEq, Eq)]
pub enum WordleStateQuery {
    All,
    Player(ActorId),
}

/// The answer to a `WordleStateQuery`.
#[derive(Clone, Debug, PartialEq, Eq)]
pub enum WordleStateReply {
    All(Vec<ActorId>),
    Game(WordleGame),
}

/// One player's game, as the game actor reports it.
#[derive(Clone, Debug, PartialEq, Eq)]
pub struct WordleGame {
    pub word: String,
    pub attempts: u8,
    pub max_attempts: u8,
}

} // verus!
