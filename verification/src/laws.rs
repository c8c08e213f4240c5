//! What holds of every run of the session, proved over the state machine of `model`.
use crate::effect::EffectView;
use crate::io::{
    EventView, Outcome, SessionActionView, SessionEventView, SessionStatusView, SessionView,
};
use crate::model::{
    after_command, after_reply, after_request, effect_of_command, elapsed_blocks, error_reply,
    holds_missed_word, idle, initial_session, no_attempts_reason, word_guessed, MAX_ATTEMPTS,
    ROUND_BUDGET,
};
use vstd::prelude::*;

verus! {

/// One exchange with the game actor, as the session lives through it: the request goes out as
/// `request_id` for the caller `caller_id`, the answer `event` comes back for it, and the caller
/// is served when it runs again.
pub struct Exchange {
    /// The height at which the command is handled.
    pub asked_at: nat,
    /// Who sent the command.
    pub source: Seq<u8>,
    pub request_id: Seq<u8>,
    pub caller_id: Seq<u8>,
    pub event: EventView,
    /// The height at which the caller runs again.
    pub served_at: nat,
}

/// The record after the command `action` went through the exchange `x`: handled, sent,
/// answered, and served to the caller, which runs `action` again.
pub open spec fn after_exchange(s: SessionView, action: SessionActionView, x: Exchange) -> SessionView {
    let handled = after_command(s, action, x.asked_at);
    let sent = after_request(handled, x.request_id, x.caller_id);
    let answered = after_reply(sent, x.request_id, x.event);
    after_command(answered, action, x.served_at)
}

/// One guess: the word and the exchange that carries it.
pub struct Guess {
    pub word: Seq<char>,
    pub exchange: Exchange,
}

/// The guess is answered by a checked word that does not have every letter at its place.
pub open spec fn missed(g: Guess) -> bool {
    g.exchange.event matches EventView::WordChecked { correct_positions, .. } && !word_guessed(
        correct_positions,
    )
}

/// The record after one guess. A session with no attempt left sends nothing, so the rest of
/// the exchange finds nothing to act on.
pub open spec fn after_guess(s: SessionView, g: Guess) -> SessionView {
    after_exchange(s, SessionActionView::CheckWord(g.word), g.exchange)
}

/// The record after the guesses of `guesses`, first to last.
pub open spec fn after_guesses(s: SessionView, guesses: Seq<Guess>) -> SessionView
    decreases guesses.len(),
{
    if guesses.len() == 0 {
        s
    } else {
        after_guess(after_guesses(s, guesses.drop_last()), guesses.last())
    }
}

/// A fresh session that starts a game and is served the confirmation of the game actor waits
/// for a word with every attempt left, whatever the heights, the identifiers and the player
/// are. On the way it asks for one request to the game actor, and in the end for the reply to
/// the caller and the deferred status check.
pub proof fn lemma_fresh_start(
    target: Seq<u8>,
    created_at: nat,
    x: Exchange,
    user: Seq<u8>,
)
    requires
        x.event == (EventView::GameStarted { user }),
    ensures
        ({
            let fresh = initial_session(target, created_at);
            let handled = after_command(fresh, SessionActionView::StartGame, x.asked_at);
            let answered = after_reply(
                after_request(handled, x.request_id, x.caller_id),
                x.request_id,
                x.event,
            );
            let served = after_exchange(fresh, SessionActionView::StartGame, x);
            &&& effect_of_command(fresh, SessionActionView::StartGame, x.asked_at, x.source)
                is Forward
            &&& effect_of_command(answered, SessionActionView::StartGame, x.served_at, x.source)
                == (EffectView::ScheduleCheck {
                command: SessionActionView::CheckGameStatus,
                delay: ROUND_BUDGET as nat,
                event: SessionEventView::GameStarted { user },
            })
            &&& served.session_status is Waiting
            &&& served.attempts == MAX_ATTEMPTS
            &&& served.start_block_height == x.asked_at
            &&& served.target_program_id == target
        }),
{
}

/// One missed guess on an idle session with an attempt left costs exactly that attempt and
/// leaves the session waiting for the next word.
pub proof fn lemma_missed_guess(s: SessionView, g: Guess)
    requires
        idle(s.session_status),
        s.attempts > 0,
        missed(g),
    ensures
        after_guess(s, g) == (SessionView {
            session_status: SessionStatusView::Waiting,
            attempts: (s.attempts - 1) as nat,
            msg_ids: (g.exchange.request_id, g.exchange.caller_id),
            ..s
        }),
{
}

/// Missed guesses count the attempts down one by one: after `n` of them, on an idle session
/// with at least `n` attempts, exactly `n` attempts fewer are left, and the session still
/// waits for a word. The count is a natural number: it stops at none.
pub proof fn lemma_missed_guesses_count_down(s: SessionView, guesses: Seq<Guess>)
    requires
        idle(s.session_status),
        guesses.len() <= s.attempts,
        forall|i: int| 0 <= i < guesses.len() ==> missed(#[trigger] guesses[i]),
    ensures
        after_guesses(s, guesses).attempts == s.attempts - guesses.len(),
        idle(after_guesses(s, guesses).session_status),
        guesses.len() > 0 ==> after_guesses(s, guesses).session_status is Waiting,
        after_guesses(s, guesses).target_program_id == s.target_program_id,
        after_guesses(s, guesses).start_block_height == s.start_block_height,
    decreases guesses.len(),
{
    if guesses.len() > 0 {
        lemma_missed_guesses_count_down(s, guesses.drop_last());
        lemma_missed_guess(after_guesses(s, guesses.drop_last()), guesses.last());
    }
}

/// Once missed guesses have used up every attempt, the next word ends the game as lost: the
/// caller gets the error and nothing goes to the game actor.
pub proof fn lemma_exhausted_session_loses(
    s: SessionView,
    guesses: Seq<Guess>,
    word: Seq<char>,
    now: nat,
    source: Seq<u8>,
)
    requires
        idle(s.session_status),
        guesses.len() == s.attempts,
        forall|i: int| 0 <= i < guesses.len() ==> missed(#[trigger] guesses[i]),
    ensures
        ({
            let used_up = after_guesses(s, guesses);
            let action = SessionActionView::CheckWord(word);
            &&& used_up.attempts == 0
            &&& idle(used_up.session_status)
            &&& after_command(used_up, action, now).session_status
                == SessionStatusView::GameOver(Outcome::Lose)
            &&& effect_of_command(used_up, action, now, source) == error_reply(
                no_attempts_reason(),
            )
        }),
{
    lemma_missed_guesses_count_down(s, guesses);
}

/// A status check that an earlier round start has scheduled finds nothing to do once a later
/// round start has moved the start of the round: it fires `ROUND_BUDGET` blocks after the
/// earlier start, which is less than the budget after the later one.
pub proof fn lemma_stale_check_is_silent(s: SessionView, earlier: nat, source: Seq<u8>)
    requires
        idle(s.session_status) || s.session_status is GameOver,
        earlier < s.start_block_height,
    ensures
        ({
            let fired_at = (earlier + ROUND_BUDGET) as nat;
            &&& elapsed_blocks(s.start_block_height, fired_at) < ROUND_BUDGET
            &&& after_command(s, SessionActionView::CheckGameStatus, fired_at) == s
            &&& effect_of_command(s, SessionActionView::CheckGameStatus, fired_at, source)
                is Idle
        }),
{
}

/// A game that is over is a steady state: no command, no request and no answer changes the
/// record, and no command asks for anything.
pub proof fn lemma_game_over_is_final(
    s: SessionView,
    action: SessionActionView,
    now: nat,
    source: Seq<u8>,
    request_id: Seq<u8>,
    caller_id: Seq<u8>,
    reply_to: Seq<u8>,
    event: EventView,
)
    requires
        s.session_status is GameOver,
    ensures
        after_command(s, action, now) == s,
        effect_of_command(s, action, now, source) is Idle,
        after_request(s, request_id, caller_id) == s,
        after_reply(s, reply_to, event) == s,
{
}

/// While a request is in flight the session issues no other: a command changes nothing and
/// asks for no request, and a second request finds no room.
pub proof fn lemma_single_request_in_flight(
    s: SessionView,
    action: SessionActionView,
    now: nat,
    source: Seq<u8>,
    request_id: Seq<u8>,
    caller_id: Seq<u8>,
)
    requires
        s.session_status is MessageSent,
    ensures
        after_command(s, action, now) == s,
        !(effect_of_command(s, action, now, source) is Forward),
        after_request(s, request_id, caller_id) == s,
{
}

/// The attempts change in two places only: a game start on an idle session sets them to the
/// maximum, and a missed guess that is served to its caller takes one away, if one is left.
/// Nothing else that a command does touches them.
pub proof fn lemma_attempts_after_command(s: SessionView, action: SessionActionView, now: nat)
    ensures
        ({
            let next = after_command(s, action, now);
            if idle(s.session_status) && action is StartGame {
                next.attempts == MAX_ATTEMPTS
            } else if holds_missed_word(s.session_status) {
                next.attempts == if s.attempts > 0 {
                    s.attempts - 1
                } else {
                    0
                }
            } else {
                next.attempts == s.attempts
            }
        }),
{
}

/// The attempts never exceed the maximum: a record that respects it still does after any
/// command, request or answer.
pub proof fn lemma_attempts_stay_within_maximum(
    s: SessionView,
    action: SessionActionView,
    now: nat,
    request_id: Seq<u8>,
    caller_id: Seq<u8>,
    reply_to: Seq<u8>,
    event: EventView,
)
    requires
        s.attempts <= MAX_ATTEMPTS,
    ensures
        after_command(s, action, now).attempts <= MAX_ATTEMPTS,
        after_request(s, request_id, caller_id).attempts <= MAX_ATTEMPTS,
        after_reply(s, reply_to, event).attempts <= MAX_ATTEMPTS,
{
}

/// A request that goes out and an answer that comes in leave the attempts, the start of the
/// round and the game actor as they are; a command leaves the game actor and the recorded
/// request as they are.
pub proof fn lemma_what_stays(
    s: SessionView,
    action: SessionActionView,
    now: nat,
    request_id: Seq<u8>,
    caller_id: Seq<u8>,
    reply_to: Seq<u8>,
    event: EventView,
)
    ensures
        after_command(s, action, now).target_program_id == s.target_program_id,
        after_command(s, action, now).msg_ids == s.msg_ids,
        after_request(s, request_id, caller_id).target_program_id == s.target_program_id,
        after_request(s, request_id, caller_id).attempts == s.attempts,
        after_request(s, request_id, caller_id).start_block_height == s.start_block_height,
        after_reply(s, reply_to, event).target_program_id == s.target_program_id,
        after_reply(s, reply_to, event).attempts == s.attempts,
        after_reply(s, reply_to, event).start_block_height == s.start_block_height,
        after_reply(s, reply_to, event).msg_ids == s.msg_ids,
{
}

} // verus!
