use session_game::effect::Effect;
use session_game::ids::{ActorId, MessageId};
use session_game::io::{
    Event, Outcome, Session, SessionAction, SessionEvent, SessionStatus, StateQuery,
    StateQueryReply,
};
use session_game::model::{MAX_ATTEMPTS, ROUND_BUDGET, WORD_LENGTH};
use session_game::wordle::WordleAction;

fn actor(byte: u8) -> ActorId {
    ActorId::new([byte; 32])
}

fn message(byte: u8) -> MessageId {
    MessageId::new([byte; 32])
}

fn target() -> ActorId {
    actor(0xAA)
}

fn player() -> ActorId {
    actor(0x11)
}

fn error(reason: &str) -> Effect {
    Effect::Reply { event: SessionEvent::GameError(reason.to_string()) }
}

fn missed(user: ActorId) -> Event {
    Event::WordChecked { user, correct_positions: vec![0, 2], contained_in_word: vec![1] }
}

fn guessed(user: ActorId) -> Event {
    Event::WordChecked {
        user,
        correct_positions: vec![0, 1, 2, 3, 4],
        contained_in_word: vec![],
    }
}

/// A session in which a game was started at `height` and the start was served.
fn started_session(height: u32) -> Session {
    let mut session = Session::new(target(), height);
    let effect = session.handle(SessionAction::StartGame, height, player());
    assert!(matches!(effect, Effect::Forward { .. }));
    assert!(session.request_sent(message(1), message(2)));
    assert_eq!(
        session.handle_reply(message(1), Event::GameStarted { user: player() }),
        Some(message(2))
    );
    let effect = session.handle(SessionAction::StartGame, height, player());
    assert!(matches!(effect, Effect::ScheduleCheck { .. }));
    session
}

/// Runs one guess through the session: the word goes out as request `id`, `answer` comes back.
fn guess(session: &mut Session, word: &str, id: u8, answer: Event) -> Effect {
    let action = SessionAction::CheckWord(word.to_string());
    let effect = session.handle(action.clone(), 20, player());
    assert_eq!(
        effect,
        Effect::Forward {
            destination: target(),
            request: WordleAction::CheckWord { user: player(), word: word.to_string() },
        }
    );
    assert!(session.request_sent(message(id), message(id + 100)));
    assert_eq!(session.session_status, SessionStatus::MessageSent);
    assert_eq!(session.handle_reply(message(id), answer), Some(message(id + 100)));
    session.handle(action, 21, player())
}

#[test]
fn constants_have_the_documented_values() {
    assert_eq!(MAX_ATTEMPTS, 5);
    assert_eq!(ROUND_BUDGET, 200);
    assert_eq!(WORD_LENGTH, 5);
}

#[test]
fn new_session_has_not_started() {
    let session = Session::new(target(), 42);
    assert_eq!(
        session,
        Session {
            target_program_id: target(),
            session_status: SessionStatus::NotStarted,
            start_block_height: 42,
            attempts: 5,
            msg_ids: (MessageId::zero(), MessageId::zero()),
        }
    );
}

#[test]
fn start_game_forwards_one_request_and_resets_the_round() {
    let mut session = Session::new(target(), 10);
    session.attempts = 2;
    let effect = session.handle(SessionAction::StartGame, 17, player());
    assert_eq!(
        effect,
        Effect::Forward {
            destination: target(),
            request: WordleAction::StartGame { user: player() },
        }
    );
    assert_eq!(session.start_block_height, 17);
    assert_eq!(session.attempts, 5);
    assert_eq!(session.session_status, SessionStatus::NotStarted);
    assert_eq!(session.msg_ids, (MessageId::zero(), MessageId::zero()));
}

#[test]
fn request_sent_records_the_pair_and_parks_the_caller() {
    let mut session = Session::new(target(), 10);
    session.handle(SessionAction::StartGame, 17, player());
    assert!(session.request_sent(message(7), message(8)));
    assert_eq!(session.session_status, SessionStatus::MessageSent);
    assert_eq!(session.msg_ids, (message(7), message(8)));
    assert_eq!(session.attempts, 5);
    assert_eq!(session.start_block_height, 17);
}

#[test]
fn request_sent_finds_no_room_unless_idle() {
    let mut pending = Session::new(target(), 10);
    assert!(pending.request_sent(message(7), message(8)));
    let before = pending.clone();
    assert!(!pending.request_sent(message(9), message(10)));
    assert_eq!(pending, before);

    let mut answered = before.clone();
    answered.handle_reply(message(7), missed(player()));
    let before = answered.clone();
    assert!(!answered.request_sent(message(9), message(10)));
    assert_eq!(answered, before);

    let mut over = Session::new(target(), 10);
    over.session_status = SessionStatus::GameOver(Outcome::Win);
    let before = over.clone();
    assert!(!over.request_sent(message(9), message(10)));
    assert_eq!(over, before);
}

#[test]
fn fresh_session_waits_with_all_attempts_once_started() {
    let mut session = Session::new(target(), 3);
    session.handle(SessionAction::StartGame, 4, player());
    assert!(session.request_sent(message(1), message(2)));
    let woken = session.handle_reply(message(1), Event::GameStarted { user: player() });
    assert_eq!(woken, Some(message(2)));
    assert_eq!(
        session.session_status,
        SessionStatus::MessageReceived(Event::GameStarted { user: player() })
    );
    let effect = session.handle(SessionAction::StartGame, 6, player());
    assert_eq!(
        effect,
        Effect::ScheduleCheck {
            command: SessionAction::CheckGameStatus,
            delay: 200,
            event: SessionEvent::GameStarted { user: player() },
        }
    );
    assert_eq!(session.session_status, SessionStatus::Waiting);
    assert_eq!(session.attempts, MAX_ATTEMPTS);
    assert_eq!(session.start_block_height, 4);
    assert_eq!(session.target_program_id, target());
}

#[test]
fn missed_guesses_count_the_attempts_down_to_zero() {
    let mut session = started_session(10);
    for round in 1..=5u8 {
        let effect = guess(&mut session, "house", round, missed(player()));
        assert_eq!(
            effect,
            Effect::Reply {
                event: SessionEvent::WordChecked {
                    user: player(),
                    correct_positions: vec![0, 2],
                    contained_in_word: vec![1],
                },
            }
        );
        assert_eq!(session.attempts, 5 - round);
        assert_eq!(session.session_status, SessionStatus::Waiting);
    }
    assert_eq!(session.attempts, 0);
    assert_eq!(session.session_status, SessionStatus::Waiting);

    let effect = session.handle(SessionAction::CheckWord("horse".to_string()), 30, player());
    assert_eq!(effect, error("No more attempts left"));
    assert_eq!(session.session_status, SessionStatus::GameOver(Outcome::Lose));
    assert_eq!(session.attempts, 0);
}

#[test]
fn guessed_word_wins_with_one_attempt_left() {
    let mut session = started_session(10);
    for round in 1..=4u8 {
        guess(&mut session, "house", round, missed(player()));
    }
    assert_eq!(session.attempts, 1);
    let effect = guess(&mut session, "horse", 5, guessed(player()));
    assert_eq!(
        effect,
        Effect::Reply {
            event: SessionEvent::WordChecked {
                user: player(),
                correct_positions: vec![0, 1, 2, 3, 4],
                contained_in_word: vec![],
            },
        }
    );
    assert_eq!(session.session_status, SessionStatus::GameOver(Outcome::Win));
    assert_eq!(session.attempts, 1);
}

#[test]
fn guessed_word_wins_with_all_attempts_left() {
    let mut session = started_session(10);
    guess(&mut session, "horse", 1, guessed(player()));
    assert_eq!(session.session_status, SessionStatus::GameOver(Outcome::Win));
    assert_eq!(session.attempts, 5);
}

#[test]
fn only_five_correct_positions_count_as_guessed() {
    for count in [0usize, 1, 4, 6] {
        let mut session = started_session(10);
        let answer = Event::WordChecked {
            user: player(),
            correct_positions: vec![0; count],
            contained_in_word: vec![],
        };
        guess(&mut session, "horse", 1, answer);
        assert_eq!(session.session_status, SessionStatus::Waiting);
        assert_eq!(session.attempts, 4);
    }
}

#[test]
fn word_without_attempts_loses_and_sends_nothing() {
    for status in [SessionStatus::NotStarted, SessionStatus::Waiting] {
        let mut session = Session::new(target(), 10);
        session.session_status = status;
        session.attempts = 0;
        session.msg_ids = (message(3), message(4));
        let effect = session.handle(SessionAction::CheckWord("horse".to_string()), 11, player());
        assert_eq!(effect, error("No more attempts left"));
        assert_eq!(session.session_status, SessionStatus::GameOver(Outcome::Lose));
        assert_eq!(session.attempts, 0);
        assert_eq!(session.msg_ids, (message(3), message(4)));
        assert_eq!(session.start_block_height, 10);
    }
}

#[test]
fn word_is_forwarded_before_any_game_was_started() {
    let mut session = Session::new(target(), 10);
    let effect = session.handle(SessionAction::CheckWord("horse".to_string()), 11, player());
    assert_eq!(
        effect,
        Effect::Forward {
            destination: target(),
            request: WordleAction::CheckWord { user: player(), word: "horse".to_string() },
        }
    );
    assert_eq!(session, Session::new(target(), 10));
}

#[test]
fn status_check_ends_a_round_at_the_budget() {
    let mut session = started_session(1000);
    let effect = session.handle(SessionAction::CheckGameStatus, 1200, player());
    assert_eq!(effect, error("Game timeout"));
    assert_eq!(session.session_status, SessionStatus::GameOver(Outcome::Lose));
    assert_eq!(session.attempts, 5);

    let mut late = started_session(1000);
    let effect = late.handle(SessionAction::CheckGameStatus, u32::MAX, player());
    assert_eq!(effect, error("Game timeout"));
    assert_eq!(late.session_status, SessionStatus::GameOver(Outcome::Lose));

    let mut fresh = Session::new(target(), 0);
    let effect = fresh.handle(SessionAction::CheckGameStatus, 200, player());
    assert_eq!(effect, error("Game timeout"));
    assert_eq!(fresh.session_status, SessionStatus::GameOver(Outcome::Lose));
}

#[test]
fn status_check_is_silent_within_the_budget() {
    let mut session = started_session(1000);
    let before = session.clone();
    for height in [0u32, 999, 1000, 1001, 1199] {
        let effect = session.handle(SessionAction::CheckGameStatus, height, player());
        assert_eq!(effect, Effect::Idle);
        assert_eq!(session, before);
    }
}

#[test]
fn status_check_of_an_earlier_round_is_silent_after_a_new_start() {
    let mut session = started_session(1000);
    // The check of the first start is due at 1200; the player starts again at 1100.
    session.handle(SessionAction::StartGame, 1100, player());
    assert!(session.request_sent(message(5), message(6)));
    session.handle_reply(message(5), Event::GameStarted { user: player() });
    session.handle(SessionAction::StartGame, 1101, player());
    assert_eq!(session.start_block_height, 1100);
    let before = session.clone();
    let effect = session.handle(SessionAction::CheckGameStatus, 1200, player());
    assert_eq!(effect, Effect::Idle);
    assert_eq!(session, before);
    // The check of the second start is not stale.
    let effect = session.handle(SessionAction::CheckGameStatus, 1300, player());
    assert_eq!(effect, error("Game timeout"));
    assert_eq!(session.session_status, SessionStatus::GameOver(Outcome::Lose));
}

#[test]
fn stale_reply_changes_nothing_and_wakes_nobody() {
    let mut session = started_session(10);
    session.handle(SessionAction::CheckWord("horse".to_string()), 11, player());
    assert!(session.request_sent(message(5), message(6)));
    let before = session.clone();
    assert_eq!(session.handle_reply(message(4), guessed(player())), None);
    assert_eq!(session, before);
    assert_eq!(session.handle_reply(MessageId::zero(), missed(player())), None);
    assert_eq!(session, before);
    // The caller of the request is not a request.
    assert_eq!(session.handle_reply(message(6), missed(player())), None);
    assert_eq!(session, before);
}

#[test]
fn reply_with_no_request_in_flight_is_dropped() {
    let mut fresh = Session::new(target(), 10);
    let before = fresh.clone();
    assert_eq!(fresh.handle_reply(MessageId::zero(), missed(player())), None);
    assert_eq!(fresh, before);

    // A second answer to a request that was served already.
    let mut session = started_session(10);
    guess(&mut session, "house", 5, missed(player()));
    let before = session.clone();
    assert_eq!(session.msg_ids.0, message(5));
    assert_eq!(session.handle_reply(message(5), missed(player())), None);
    assert_eq!(session, before);

    // A second answer while the first waits to be served.
    let mut answered = started_session(10);
    answered.handle(SessionAction::CheckWord("horse".to_string()), 11, player());
    assert!(answered.request_sent(message(5), message(6)));
    assert_eq!(answered.handle_reply(message(5), missed(player())), Some(message(6)));
    let before = answered.clone();
    assert_eq!(answered.handle_reply(message(5), guessed(player())), None);
    assert_eq!(answered, before);

    let mut over = Session::new(target(), 10);
    over.session_status = SessionStatus::GameOver(Outcome::Lose);
    over.msg_ids = (message(5), message(6));
    let before = over.clone();
    assert_eq!(over.handle_reply(message(5), guessed(player())), None);
    assert_eq!(over, before);
}

#[test]
fn commands_are_turned_away_while_a_request_is_in_flight() {
    let mut session = started_session(10);
    session.handle(SessionAction::CheckWord("horse".to_string()), 11, player());
    assert!(session.request_sent(message(5), message(6)));
    let before = session.clone();
    let commands = [
        SessionAction::StartGame,
        SessionAction::CheckWord("house".to_string()),
        SessionAction::CheckGameStatus,
    ];
    for command in commands {
        let effect = session.handle(command, 5000, actor(0x22));
        assert_eq!(effect, error("Message has already been sent"));
        assert_eq!(session, before);
    }
    assert_eq!(session.msg_ids, (message(5), message(6)));
    assert_eq!(session.session_status, SessionStatus::MessageSent);
    assert_eq!(session.attempts, 5);
}

#[test]
fn finished_game_takes_no_command() {
    for outcome in [Outcome::Win, Outcome::Lose] {
        let mut session = started_session(10);
        session.session_status = SessionStatus::GameOver(outcome);
        let before = session.clone();
        let commands = [
            SessionAction::StartGame,
            SessionAction::CheckWord("house".to_string()),
            SessionAction::CheckGameStatus,
        ];
        for command in commands {
            let effect = session.handle(command, 5000, player());
            assert_eq!(effect, Effect::Idle);
            assert_eq!(session, before);
        }
    }
}

#[test]
fn answer_is_served_whatever_the_command_is() {
    let commands = [
        SessionAction::StartGame,
        SessionAction::CheckWord("house".to_string()),
        SessionAction::CheckGameStatus,
    ];
    for command in commands {
        let mut session = Session::new(target(), 10);
        assert!(session.request_sent(message(1), message(2)));
        session.handle_reply(message(1), missed(player()));
        let effect = session.handle(command, 100_000, actor(0x33));
        assert_eq!(
            effect,
            Effect::Reply {
                event: SessionEvent::WordChecked {
                    user: player(),
                    correct_positions: vec![0, 2],
                    contained_in_word: vec![1],
                },
            }
        );
        assert_eq!(session.session_status, SessionStatus::Waiting);
        assert_eq!(session.attempts, 4);
        assert_eq!(session.start_block_height, 10);
    }
}

#[test]
fn missed_guess_without_attempts_leaves_none() {
    let mut session = Session::new(target(), 10);
    session.attempts = 0;
    session.session_status = SessionStatus::MessageReceived(missed(player()));
    let effect = session.handle(SessionAction::CheckGameStatus, 11, player());
    assert!(matches!(effect, Effect::Reply { event: SessionEvent::WordChecked { .. } }));
    assert_eq!(session.attempts, 0);
    assert_eq!(session.session_status, SessionStatus::Waiting);
}

#[test]
fn state_answers_the_player_query_with_the_record() {
    let session = started_session(10);
    assert_eq!(session.state(&StateQuery::Player(player())), StateQueryReply::Game(session.clone()));
    assert_eq!(session.state(&StateQuery::Player(actor(0x77))), StateQueryReply::Game(session.clone()));
    assert_eq!(session, started_session(10));
}

#[test]
fn state_answers_the_query_on_all_with_the_players_it_names() {
    let mut session = started_session(10);
    assert_eq!(session.state(&StateQuery::All), StateQueryReply::All(vec![]));
    session.handle(SessionAction::CheckWord("horse".to_string()), 11, player());
    assert!(session.request_sent(message(5), message(6)));
    assert_eq!(session.state(&StateQuery::All), StateQueryReply::All(vec![]));
    session.handle_reply(message(5), missed(player()));
    assert_eq!(session.state(&StateQuery::All), StateQueryReply::All(vec![player()]));
    let mut other = Session::new(target(), 10);
    other.session_status = SessionStatus::MessageReceived(Event::GameStarted { user: actor(9) });
    assert_eq!(other.state(&StateQuery::All), StateQueryReply::All(vec![actor(9)]));
}

#[test]
fn clone_copies_every_field() {
    let mut session = started_session(10);
    session.handle(SessionAction::CheckWord("horse".to_string()), 11, player());
    session.request_sent(message(5), message(6));
    session.handle_reply(message(5), missed(player()));
    let copy = session.clone();
    assert_eq!(copy, session);
    assert_eq!(copy.session_status, SessionStatus::MessageReceived(missed(player())));
}
