//! The session as a state machine over mathematical values.
//!
//! A command moves the record by `after_command` and asks for `effect_of_command`; a request
//! that went out moves it by `after_request`; an answer of the game actor moves it by
//! `after_reply`. The executable entry points are proved against these functions.
use crate::effect::EffectView;
use crate::io::{
    EventView, Outcome, SessionActionView, SessionEventView, SessionStatusView, SessionView,
};
use crate::wordle::WordleActionView;
use vstd::prelude::*;

verus! {

/// The attempts that a game starts with.
pub const MAX_ATTEMPTS: u8 = 5;

/// The blocks after which a round counts as abandoned.
pub const ROUND_BUDGET: u32 = 200;

/// The number of letters in the word to guess.
pub const WORD_LENGTH: usize = 5;

/// The reason given when a word arrives and no attempt is left.
pub open spec fn no_attempts_reason() -> Seq<char> {
    "No more attempts left"@
}

/// The reason given when a round ran over its budget.
pub open spec fn timeout_reason() -> Seq<char> {
    "Game timeout"@
}

/// The reason given when a command arrives while a request is in flight.
pub open spec fn in_flight_reason() -> Seq<char> {
    "Message has already been sent"@
}

/// The record that initialization sets up.
pub open spec fn initial_session(target: Seq<u8>, now: nat) -> SessionView {
    SessionView {
        target_program_id: target,
        session_status: SessionStatusView::NotStarted,
        start_block_height: now,
        attempts: MAX_ATTEMPTS as nat,
        msg_ids: (crate::ids::zero_id(), crate::ids::zero_id()),
    }
}

/// No request is in flight, no answer is waiting, and the game has not ended.
pub open spec fn idle(status: SessionStatusView) -> bool {
    status is NotStarted || status is Waiting
}

/// The blocks between `start` and `now`; none where `now` lies before `start`.
pub open spec fn elapsed_blocks(start: nat, now: nat) -> nat {
    if now >= start {
        (now - start) as nat
    } else {
        0
    }
}

/// The current round ran over its budget at height `now`.
pub open spec fn round_expired(s: SessionView, now: nat) -> bool {
    elapsed_blocks(s.start_block_height, now) >= ROUND_BUDGET
}

/// The answer lists every letter of the word as standing at its place.
pub open spec fn word_guessed(correct_positions: Seq<u8>) -> bool {
    correct_positions.len() == WORD_LENGTH
}

/// The status holds an answer that wins the game: a checked word with every letter in place.
pub open spec fn holds_guessed_word(status: SessionStatusView) -> bool {
    status matches SessionStatusView::MessageReceived(
        EventView::WordChecked { correct_positions, .. },
    ) && word_guessed(correct_positions)
}

/// The status holds an answer that costs an attempt: a checked word with a letter out of place.
pub open spec fn holds_missed_word(status: SessionStatusView) -> bool {
    status matches SessionStatusView::MessageReceived(
        EventView::WordChecked { correct_positions, .. },
    ) && !word_guessed(correct_positions)
}

/// `s` with the status replaced.
pub open spec fn with_status(s: SessionView, status: SessionStatusView) -> SessionView {
    SessionView { session_status: status, ..s }
}

/// `s` ended as lost.
pub open spec fn lost(s: SessionView) -> SessionView {
    with_status(s, SessionStatusView::GameOver(Outcome::Lose))
}

/// The error reply with the given reason.
pub open spec fn error_reply(reason: Seq<char>) -> EffectView {
    EffectView::Reply { event: SessionEventView::GameError(reason) }
}

/// The record after the answer `event` was served to the parked caller.
pub open spec fn after_round(s: SessionView, event: EventView) -> SessionView {
    match event {
        EventView::GameStarted { .. } => with_status(s, SessionStatusView::Waiting),
        EventView::WordChecked { correct_positions, .. } => {
            if word_guessed(correct_positions) {
                with_status(s, SessionStatusView::GameOver(Outcome::Win))
            } else {
                SessionView {
                    session_status: SessionStatusView::Waiting,
                    attempts: if s.attempts > 0 {
                        (s.attempts - 1) as nat
                    } else {
                        0
                    },
                    ..s
                }
            }
        },
    }
}

/// What serving the answer `event` asks for.
pub open spec fn effect_of_round(event: EventView) -> EffectView {
    match event {
        EventView::GameStarted { user } => EffectView::ScheduleCheck {
            command: SessionActionView::CheckGameStatus,
            delay: ROUND_BUDGET as nat,
            event: SessionEventView::GameStarted { user },
        },
        EventView::WordChecked { user, correct_positions, contained_in_word } => {
            EffectView::Reply {
                event: SessionEventView::WordChecked { user, correct_positions, contained_in_word },
            }
        },
    }
}

/// The record after the command `action` was handled at height `now`.
pub open spec fn after_command(s: SessionView, action: SessionActionView, now: nat) -> SessionView {
    match s.session_status {
        SessionStatusView::NotStarted | SessionStatusView::Waiting => match action {
            SessionActionView::StartGame => SessionView {
                start_block_height: now,
                attempts: MAX_ATTEMPTS as nat,
                ..s
            },
            SessionActionView::CheckWord(_) => if s.attempts == 0 {
                lost(s)
            } else {
                s
            },
            SessionActionView::CheckGameStatus => if round_expired(s, now) {
                lost(s)
            } else {
                s
            },
        },
        SessionStatusView::MessageSent => s,
        SessionStatusView::MessageReceived(event) => after_round(s, event),
        SessionStatusView::GameOver(_) => s,
    }
}

/// What the command `action`, sent by `source` and handled at height `now`, asks for.
pub open spec fn effect_of_command(
    s: SessionView,
    action: SessionActionView,
    now: nat,
    source: Seq<u8>,
) -> EffectView {
    match s.session_status {
        SessionStatusView::NotStarted | SessionStatusView::Waiting => match action {
            SessionActionView::StartGame => EffectView::Forward {
                destination: s.target_program_id,
                request: WordleActionView::StartGame { user: source },
            },
            SessionActionView::CheckWord(word) => if s.attempts == 0 {
                error_reply(no_attempts_reason())
            } else {
                EffectView::Forward {
                    destination: s.target_program_id,
                    request: WordleActionView::CheckWord { user: source, word },
                }
            },
            SessionActionView::CheckGameStatus => if round_expired(s, now) {
                error_reply(timeout_reason())
            } else {
                EffectView::Idle
            },
        },
        SessionStatusView::MessageSent => error_reply(in_flight_reason()),
        SessionStatusView::MessageReceived(event) => effect_of_round(event),
        SessionStatusView::GameOver(_) => EffectView::Idle,
    }
}

/// The record after the request `request_id` went out for the caller `caller_id`. A session
/// that is not idle has no room for a request and stays as it is.
pub open spec fn after_request(s: SessionView, request_id: Seq<u8>, caller_id: Seq<u8>) -> SessionView {
    if idle(s.session_status) {
        SessionView {
            session_status: SessionStatusView::MessageSent,
            msg_ids: (request_id, caller_id),
            ..s
        }
    } else {
        s
    }
}

/// The session waits for the answer to the request `reply_to`.
pub open spec fn awaits_reply(s: SessionView, reply_to: Seq<u8>) -> bool {
    s.session_status is MessageSent && s.msg_ids.0 == reply_to
}

/// The record after `event` arrived as the answer to the request `reply_to`. An answer that
/// the session does not wait for changes nothing.
pub open spec fn after_reply(s: SessionView, reply_to: Seq<u8>, event: EventView) -> SessionView {
    if awaits_reply(s, reply_to) {
        with_status(s, SessionStatusView::MessageReceived(event))
    } else {
        s
    }
}

/// The players that the record names: the one of the answer that waits to be served.
pub open spec fn known_players(s: SessionView) -> Seq<Seq<u8>> {
    match s.session_status {
        SessionStatusView::MessageReceived(EventView::GameStarted { user }) => seq![user],
        SessionStatusView::MessageReceived(EventView::WordChecked { user, .. }) => seq![user],
        _ => Seq::empty(),
    }
}

} // verus!
