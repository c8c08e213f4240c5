//! The entry points of the session actor.
use crate::effect::Effect;
use crate::ids::{ActorId, MessageId};
use crate::io::{
    Event, Outcome, Session, SessionAction, SessionEvent, SessionStatus, SessionStatusView,
    StateQuery, StateQueryReply, StateQueryReplyView,
};
use crate::model::{
    after_command, after_reply, after_request, awaits_reply, effect_of_command, error_reply,
    holds_guessed_word, idle, in_flight_reason, initial_session, known_players,
    no_attempts_reason, round_expired, timeout_reason, MAX_ATTEMPTS, ROUND_BUDGET, WORD_LENGTH,
};
use crate::wordle::WordleAction;
use vstd::prelude::*;

verus! {

impl Session {
    /// The record of a session that forwards to `target_program_id`, set up at height
    /// `block_height`: no game started, all attempts left, no request recorded.
    pub fn new(target_program_id: ActorId, block_height: u32) -> (session: Session)
        ensures
            session@ == initial_session(target_program_id@, block_height as nat),
    {
        Session {
            target_program_id,
            session_status: SessionStatus::NotStarted,
            start_block_height: block_height,
            attempts: MAX_ATTEMPTS,
            msg_ids: (MessageId::zero(), MessageId::zero()),
        }
    }

    /// Handles the command `action`, which `source` sent and which is handled at height
    /// `block_height`, and says what to do for its caller.
    ///
    /// An idle session forwards `StartGame` and `CheckWord` to the game actor, after it has
    /// reset the round for the first and unless no attempt is left for the second, which ends
    /// the game as lost. `CheckGameStatus` ends the game as lost once the round ran over its
    /// budget and is silent before. While a request is in flight every command is turned away.
    /// A session that holds an answer serves it to the caller, whatever `action` is: a started
    /// game opens the round, a guessed word wins, any other guess costs one attempt. A game
    /// that is over takes no command.
    pub fn handle(
        &mut self,
        action: SessionAction,
        block_height: u32,
        source: ActorId,
    ) -> (effect: Effect)
        ensures
            final(self)@ == after_command(old(self)@, action@, block_height as nat),
            effect@ == effect_of_command(old(self)@, action@, block_height as nat, source@),
            // A guessed word wins, however many attempts are left.
            holds_guessed_word(old(self)@.session_status) ==> final(self)@.session_status
                == SessionStatusView::GameOver(Outcome::Win),
            // A word that arrives when no attempt is left ends the game, and nothing goes out.
            idle(old(self)@.session_status) && action@ is CheckWord && old(self)@.attempts == 0
                ==> final(self)@.session_status == SessionStatusView::GameOver(Outcome::Lose)
                && effect@ == error_reply(no_attempts_reason()),
            // A status check ends a round that ran over its budget, and no other.
            idle(old(self)@.session_status) && action@ is CheckGameStatus && round_expired(
                old(self)@,
                block_height as nat,
            ) ==> final(self)@.session_status == SessionStatusView::GameOver(Outcome::Lose)
                && effect@ == error_reply(timeout_reason()),
            idle(old(self)@.session_status) && action@ is CheckGameStatus && !round_expired(
                old(self)@,
                block_height as nat,
            ) ==> final(self)@ == old(self)@ && effect@ is Idle,
            // While a request is in flight nothing moves.
            old(self)@.session_status is MessageSent ==> final(self)@ == old(self)@ && effect@
                == error_reply(in_flight_reason()),
            // A game that is over stays as it is.
            old(self)@.session_status is GameOver ==> final(self)@ == old(self)@ && effect@ is Idle,
    {
        match &self.session_status {
            SessionStatus::NotStarted | SessionStatus::Waiting => match action {
                SessionAction::StartGame => {
                    self.start_block_height = block_height;
                    self.attempts = MAX_ATTEMPTS;
                    Effect::Forward {
                        destination: self.target_program_id,
                        request: WordleAction::StartGame { user: source },
                    }
                },
                SessionAction::CheckWord(word) => {
                    if self.attempts == 0 {
                        self.session_status = SessionStatus::GameOver(Outcome::Lose);
                        Effect::Reply {
                            event: SessionEvent::GameError(String::from_str("No more attempts left")),
                        }
                    } else {
                        Effect::Forward {
                            destination: self.target_program_id,
                            request: WordleAction::CheckWord { user: source, word },
                        }
                    }
                },
                SessionAction::CheckGameStatus => {
                    if block_height.saturating_sub(self.start_block_height) >= ROUND_BUDGET {
                        self.session_status = SessionStatus::GameOver(Outcome::Lose);
                        Effect::Reply { event: SessionEvent::GameError(String::from_str("Game timeout")) }
                    } else {
                        Effect::Idle
                    }
                },
            },
            SessionStatus::MessageSent => Effect::Reply {
                event: SessionEvent::GameError(String::from_str("Message has already been sent")),
            },
            SessionStatus::MessageReceived(Event::GameStarted { user }) => {
                let event = SessionEvent::GameStarted { user: *user };
                self.session_status = SessionStatus::Waiting;
                Effect::ScheduleCheck {
                    command: SessionAction::CheckGameStatus,
                    delay: ROUND_BUDGET,
                    event,
                }
            },
            SessionStatus::MessageReceived(
                Event::WordChecked { user, correct_positions, contained_in_word },
            ) => {
                let guessed = correct_positions.len() == WORD_LENGTH;
                let event = SessionEvent::WordChecked {
                    user: *user,
                    correct_positions: correct_positions.clone(),
                    contained_in_word: contained_in_word.clone(),
                };
                if guessed {
                    self.session_status = SessionStatus::GameOver(Outcome::Win);
                } else {
                    self.attempts = self.attempts.saturating_sub(1);
                    self.session_status = SessionStatus::Waiting;
                }
                Effect::Reply { event }
            },
            SessionStatus::GameOver(_) => Effect::Idle,
        }
    }

    /// Records that the request which `handle` asked to forward went out as `request_id`, for
    /// the caller `caller_id`, and says whether it was recorded. Only an idle session has room
    /// for a request: any other stays as it is.
    pub fn request_sent(&mut self, request_id: MessageId, caller_id: MessageId) -> (recorded: bool)
        ensures
            recorded == idle(old(self)@.session_status),
            final(self)@ == after_request(old(self)@, request_id@, caller_id@),
    {
        match &self.session_status {
            SessionStatus::NotStarted | SessionStatus::Waiting => {
                self.msg_ids = (request_id, caller_id);
                self.session_status = SessionStatus::MessageSent;
                true
            },
            _ => false,
        }
    }

    /// Takes `event`, which arrived as the answer to the request `reply_to`, and names the
    /// parked caller to wake. An answer to any other request than the one in flight, or one
    /// that arrives when none is in flight, is dropped: the record stays as it is and nobody
    /// is woken.
    pub fn handle_reply(&mut self, reply_to: MessageId, event: Event) -> (woken: Option<MessageId>)
        ensures
            final(self)@ == after_reply(old(self)@, reply_to@, event@),
            woken is Some == awaits_reply(old(self)@, reply_to@),
            woken matches Some(caller) ==> caller@ == old(self)@.msg_ids.1,
            reply_to@ != old(self)@.msg_ids.0 ==> final(self)@ == old(self)@ && woken is None,
    {
        match &self.session_status {
            SessionStatus::MessageSent => {
                if reply_to == self.msg_ids.0 {
                    self.session_status = SessionStatus::MessageReceived(event);
                    Some(self.msg_ids.1)
                } else {
                    None
                }
            },
            _ => None,
        }
    }

    /// Answers a query on the state, which it leaves as it is: the whole record for the query
    /// on a player, the players that the record names for the query on all.
    pub fn state(&self, query: &StateQuery) -> (reply: StateQueryReply)
        ensures
            query is Player ==> reply@ == StateQueryReplyView::Game(self@),
            query is All ==> reply@ == StateQueryReplyView::All(known_players(self@)),
    {
        match query {
            StateQuery::Player(_) => StateQueryReply::Game(self.clone()),
            StateQuery::All => {
                let mut players: Vec<ActorId> = Vec::new();
                match &self.session_status {
                    SessionStatus::MessageReceived(Event::GameStarted { user }) => {
                        players.push(*user);
                    },
                    SessionStatus::MessageReceived(Event::WordChecked { user, .. }) => {
                        players.push(*user);
                    },
                    _ => {},
                }
                let reply = StateQueryReply::All(players);
                assert(reply@->All_0 =~= known_players(self@));
                reply
            },
        }
    }
}

} // verus!
