use moser::MorseError;
use moser::scores::ScoreData;
use moser::scoring::score;
use moser::session::Mode;
use moser::session::Session;
use moser::session::SessionAction;
use moser::session::SessionEvent;

fn fresh() -> Session {
    Session::new(20, 15, ScoreData::new()).unwrap()
}

#[test]
fn new_session_starts_at_the_picker() {
    let s = fresh();
    assert!(matches!(s.mode, Mode::PickingLesson));
    assert_eq!(s.selected, 0);
    assert!(s.user_input.is_empty());
}

#[test]
fn invalid_speeds_are_rejected_at_session_start() {
    assert!(matches!(
        Session::new(10, 12, ScoreData::new()),
        Err(MorseError::InvalidSpeedConfiguration)
    ));
    assert!(matches!(
        Session::new(0, 0, ScoreData::new()),
        Err(MorseError::InvalidSpeedConfiguration)
    ));
}

#[test]
fn selection_wraps_in_both_directions() {
    let mut s = fresh();
    assert_eq!(s.handle_event(SessionEvent::MoveUp), SessionAction::Idle);
    assert_eq!(s.selected, 39);
    s.handle_event(SessionEvent::MoveDown);
    assert_eq!(s.selected, 0);
    s.handle_event(SessionEvent::MoveDown);
    assert_eq!(s.selected, 1);
}

#[test]
fn quit_is_reported_from_the_picker() {
    let mut s = fresh();
    assert_eq!(s.handle_event(SessionEvent::Quit), SessionAction::Quit);
    assert!(matches!(s.mode, Mode::PickingLesson));
}

#[test]
fn start_lesson_generates_text_and_plays() {
    let mut s = fresh();
    let act = s.handle_event(SessionEvent::StartLesson);
    assert_eq!(act, SessionAction::PlayLesson);
    assert!(matches!(s.mode, Mode::TypingLesson));
    assert_eq!(s.current_practice.len(), 59);
    assert!(s.user_input.is_empty());
}

#[test]
fn start_then_cancel_records_nothing() {
    let mut s = fresh();
    s.handle_event(SessionEvent::StartLesson);
    let act = s.handle_event(SessionEvent::Cancel);
    assert_eq!(act, SessionAction::StopAudio);
    assert!(matches!(s.mode, Mode::PickingLesson));
    assert!(s.scores.get_history(1).is_empty());
    assert!(s.user_input.is_empty());
}

#[test]
fn start_then_submit_records_exactly_one_score() {
    let mut s = fresh();
    s.handle_event(SessionEvent::StartLesson);
    let practice = s.current_practice.clone();
    for c in ['k', 'm', ' '] {
        s.handle_event(SessionEvent::TypeChar(c));
    }
    let act = s.handle_event(SessionEvent::Submit);
    assert_eq!(act, SessionAction::Persist);
    assert!(matches!(s.mode, Mode::PickingLesson));
    let history = s.scores.get_history(1);
    assert_eq!(history.len(), 1);
    // The recorded value is the score of the trimmed transcript.
    assert_eq!(history[0], score(&practice, &vec!['k', 'm']));
    assert!(s.scores.get_history(2).is_empty());
}

#[test]
fn submit_records_under_the_selected_lesson() {
    let mut s = fresh();
    s.handle_event(SessionEvent::MoveDown);
    s.handle_event(SessionEvent::StartLesson);
    let act = s.handle_event(SessionEvent::Submit);
    assert_eq!(act, SessionAction::Persist);
    // An empty transcript against the 59-character text scores zero.
    assert_eq!(s.scores.get_history(2), vec![0]);
    assert!(s.scores.get_history(1).is_empty());
}

#[test]
fn typing_and_backspace_edit_the_transcript() {
    let mut s = fresh();
    s.handle_event(SessionEvent::StartLesson);
    s.handle_event(SessionEvent::TypeChar('k'));
    s.handle_event(SessionEvent::TypeChar('m'));
    assert_eq!(s.user_input, vec!['k', 'm']);
    s.handle_event(SessionEvent::Backspace);
    assert_eq!(s.user_input, vec!['k']);
    s.handle_event(SessionEvent::Backspace);
    s.handle_event(SessionEvent::Backspace);
    assert!(s.user_input.is_empty());
}

#[test]
fn letter_drill_plays_the_new_characters() {
    let mut s = fresh();
    let act = s.handle_event(SessionEvent::StartLetterDrill);
    assert_eq!(act, SessionAction::PlayLetters);
    assert!(matches!(s.mode, Mode::LetterPractice));
    assert_eq!(s.letter_practice, vec!['K', 'M']);
    let act = s.handle_event(SessionEvent::Cancel);
    assert_eq!(act, SessionAction::StopAudio);
    assert!(matches!(s.mode, Mode::PickingLesson));
    assert!(s.scores.get_history(1).is_empty());
}

#[test]
fn submit_feedback_diff_is_for_display_only() {
    let mut s = fresh();
    s.handle_event(SessionEvent::StartLesson);
    s.handle_event(SessionEvent::TypeChar('k'));
    s.handle_event(SessionEvent::Submit);
    let cells = s.highlighted_results.as_ref().unwrap();
    assert_eq!(cells.len(), 59);
    assert_eq!(cells[0], ('K', s.current_practice[0] == 'K'));
}

#[test]
fn events_outside_their_mode_do_nothing() {
    let mut s = fresh();
    assert_eq!(s.handle_event(SessionEvent::Submit), SessionAction::Idle);
    assert_eq!(s.handle_event(SessionEvent::TypeChar('x')), SessionAction::Idle);
    assert!(matches!(s.mode, Mode::PickingLesson));
    assert!(s.scores.get_history(1).is_empty());
    s.handle_event(SessionEvent::StartLesson);
    assert_eq!(s.handle_event(SessionEvent::StartLesson), SessionAction::Idle);
    assert!(matches!(s.mode, Mode::TypingLesson));
}
