//! The session state machine: lesson picking, transcription, letter drill,
//! scoring and the actions the surrounding program must carry out (playing
//! or stopping audio, persisting scores, quitting).
//!
//! The machine is a pure function from state and event to next state and
//! action; everything it decides is captured by the [`step`] relation, and
//! the driving loop outside performs the returned action.

use vstd::prelude::*;

use crate::MorseError;
use crate::curriculum::TOTAL_LESSONS;
use crate::curriculum::new_letters_for_lesson;
use crate::curriculum::new_letters_spec;
use crate::curriculum::unlocked_spec;
use crate::curriculum::valid_lesson;
use crate::lesson::is_lesson_text;
use crate::lesson::lesson_text;
use crate::scores::ScoreData;
use crate::scoring::diff;
use crate::scoring::diff_spec;
use crate::scoring::score;
use crate::scoring::score_spec;
use crate::scoring::trim_spaces;
use crate::scoring::trim_spec;
use crate::timing::valid_speeds;

verus! {

/// What the session is currently doing.
#[derive(Clone, Copy, Debug, PartialEq, Eq, Structural)]
pub enum Mode {
    /// Browsing the lesson list.
    PickingLesson,
    /// Listening to a lesson and typing the transcript.
    TypingLesson,
    /// Listening to the newly introduced characters; no scoring.
    LetterPractice,
}

/// One discrete input, abstracted from the key that caused it.
#[derive(Clone, Copy, Debug, PartialEq, Eq, Structural)]
pub enum SessionEvent {
    /// Move the lesson selection down, wrapping around.
    MoveDown,
    /// Move the lesson selection up, wrapping around.
    MoveUp,
    /// Generate a practice text for the selected lesson and start typing.
    StartLesson,
    /// Listen to the characters the selected lesson introduces.
    StartLetterDrill,
    /// End the session.
    Quit,
    /// Append one character to the transcript.
    TypeChar(char),
    /// Remove the last transcript character.
    Backspace,
    /// Score the transcript and record the result.
    Submit,
    /// Leave the current activity without recording anything.
    Cancel,
}

/// What the surrounding program must do after a step.
#[derive(Clone, Copy, Debug, PartialEq, Eq, Structural)]
pub enum SessionAction {
    /// Nothing.
    Idle,
    /// End the session.
    Quit,
    /// Synthesize and play the practice text, replacing any earlier audio.
    PlayLesson,
    /// Synthesize and play the letter drill text, replacing any earlier
    /// audio.
    PlayLetters,
    /// Stop the playing audio at once.
    StopAudio,
    /// Write the score store to durable storage.
    Persist,
}

/// The session state. Audio handles and the tone frequency live outside the
/// library; the state here is everything the transitions decide on.
pub struct Session {
    /// Current activity.
    pub mode: Mode,
    /// Selected lesson, 0-based.
    pub selected: usize,
    /// First lesson row shown by the list view.
    pub scroll_offset: usize,
    /// Lesson rows the list view can show, set by the renderer.
    pub visible_rows: usize,
    /// The transcript typed so far.
    pub user_input: Vec<char>,
    /// The practice text generated at lesson start.
    pub current_practice: Vec<char>,
    /// The text of the letter drill.
    pub letter_practice: Vec<char>,
    /// Feedback diff of the last submission, for display only.
    pub highlighted_results: Option<Vec<(char, bool)>>,
    /// Accuracy histories per lesson.
    pub scores: ScoreData,
    /// Character speed, words per minute.
    pub wpm: u32,
    /// Effective (Farnsworth) speed, words per minute.
    pub effective_wpm: u32,
}

/// The feedback diff as a sequence, for contracts.
pub open spec fn opt_diff_view(o: Option<Vec<(char, bool)>>) -> Option<Seq<(char, bool)>> {
    match o {
        Some(v) => Some(v@),
        _ => None,
    }
}

impl Session {
    /// The selected lesson as its 1-based lesson number.
    pub open spec fn selected_lesson(self) -> int {
        self.selected + 1
    }

    /// Well-formedness: the selection stays on a lesson and the speed pair
    /// is valid.
    pub open spec fn wf(self) -> bool {
        &&& self.selected < TOTAL_LESSONS
        &&& valid_speeds(self.wpm, self.effective_wpm)
    }

    /// A fresh session at the lesson picker, rejecting an invalid speed
    /// pair. The score store is loaded by the caller and handed in.
    pub fn new(wpm: u32, effective_wpm: u32, scores: ScoreData) -> (r: Result<
        Session,
        MorseError,
    >)
        ensures
            valid_speeds(wpm, effective_wpm) ==> (r matches Ok(s) && s.wf() && s.mode
                is PickingLesson && s.selected == 0 && s.scroll_offset == 0 && s.visible_rows == 0
                && s.user_input@ == Seq::<char>::empty() && s.current_practice@
                == Seq::<char>::empty() && s.letter_practice@ == Seq::<char>::empty()
                && s.highlighted_results is None && s.scores == scores && s.wpm == wpm
                && s.effective_wpm == effective_wpm),
            !valid_speeds(wpm, effective_wpm) ==> (r matches Err(e) && e
                == MorseError::InvalidSpeedConfiguration),
    {
        if wpm == 0 || effective_wpm == 0 || effective_wpm > wpm {
            Err(MorseError::InvalidSpeedConfiguration)
        } else {
            Ok(
                Session {
                    mode: Mode::PickingLesson,
                    selected: 0,
                    scroll_offset: 0,
                    visible_rows: 0,
                    user_input: Vec::new(),
                    current_practice: Vec::new(),
                    letter_practice: Vec::new(),
                    highlighted_results: None,
                    scores,
                    wpm,
                    effective_wpm,
                },
            )
        }
    }

    /// Tells the session how many lesson rows the renderer can show.
    pub fn set_visible_rows(&mut self, rows: usize)
        ensures
            *final(self) == (Session { visible_rows: rows, ..*old(self) }),
    {
        self.visible_rows = rows;
    }

    /// Performs one step of the machine: consumes one event, updates the
    /// state, and returns the action the caller must carry out.
    pub fn handle_event(&mut self, ev: SessionEvent) -> (act: SessionAction)
        requires
            old(self).wf(),
        ensures
            final(self).wf(),
            step(*old(self), *final(self), ev, act),
    {
        match self.mode {
            Mode::PickingLesson => match ev {
                SessionEvent::Quit => SessionAction::Quit,
                SessionEvent::MoveDown => {
                    self.selected = (self.selected + 1) % TOTAL_LESSONS;
                    if self.scroll_offset <= self.selected && self.selected - self.scroll_offset
                        >= self.visible_rows {
                        self.scroll_offset = self.scroll_offset + 1;
                    }
                    SessionAction::Idle
                },
                SessionEvent::MoveUp => {
                    self.selected = (self.selected + TOTAL_LESSONS - 1) % TOTAL_LESSONS;
                    if self.selected < self.scroll_offset && self.scroll_offset > 0 {
                        self.scroll_offset = self.scroll_offset - 1;
                    }
                    SessionAction::Idle
                },
                SessionEvent::StartLesson => {
                    self.user_input = Vec::new();
                    self.highlighted_results = None;
                    self.current_practice = match lesson_text(self.selected + 1) {
                        Ok(t) => t,
                        _ => vstd::pervasive::unreached(),
                    };
                    self.mode = Mode::TypingLesson;
                    SessionAction::PlayLesson
                },
                SessionEvent::StartLetterDrill => {
                    self.letter_practice = match new_letters_for_lesson(self.selected + 1) {
                        Ok(t) => t,
                        _ => vstd::pervasive::unreached(),
                    };
                    self.mode = Mode::LetterPractice;
                    SessionAction::PlayLetters
                },
                _ => SessionAction::Idle,
            },
            Mode::TypingLesson => match ev {
                SessionEvent::TypeChar(c) => {
                    self.user_input.push(c);
                    SessionAction::Idle
                },
                SessionEvent::Backspace => {
                    self.user_input.pop();
                    SessionAction::Idle
                },
                SessionEvent::Submit => {
                    let trimmed = trim_spaces(&self.user_input);
                    let cells = diff(&self.current_practice, &trimmed);
                    let value = score(&self.current_practice, &trimmed);
                    self.highlighted_results = Some(cells);
                    self.scores.append_score((self.selected + 1) as u32, value);
                    self.mode = Mode::PickingLesson;
                    SessionAction::Persist
                },
                SessionEvent::Cancel => {
                    self.user_input = Vec::new();
                    self.mode = Mode::PickingLesson;
                    SessionAction::StopAudio
                },
                _ => SessionAction::Idle,
            },
            Mode::LetterPractice => match ev {
                SessionEvent::Cancel => {
                    self.mode = Mode::PickingLesson;
                    SessionAction::StopAudio
                },
                _ => SessionAction::Idle,
            },
        }
    }
}

/// Everything outside the lesson list selection is unchanged.
pub open spec fn same_but_selection(pre: Session, post: Session) -> bool {
    &&& post.mode == pre.mode
    &&& post.visible_rows == pre.visible_rows
    &&& post.user_input@ == pre.user_input@
    &&& post.current_practice@ == pre.current_practice@
    &&& post.letter_practice@ == pre.letter_practice@
    &&& opt_diff_view(post.highlighted_results) == opt_diff_view(pre.highlighted_results)
    &&& scores_unchanged(pre, post)
    &&& post.wpm == pre.wpm
    &&& post.effective_wpm == pre.effective_wpm
}

/// No lesson's score history changes.
pub open spec fn scores_unchanged(pre: Session, post: Session) -> bool {
    forall|k: u32| post.scores.history(k) == pre.scores.history(k)
}

/// Nothing at all changes.
pub open spec fn unchanged(pre: Session, post: Session) -> bool {
    &&& same_but_selection(pre, post)
    &&& post.selected == pre.selected
    &&& post.scroll_offset == pre.scroll_offset
}

/// The transition relation of the session machine: exactly what one step on
/// `ev` may do to the state, and which action it returns. Only the practice
/// text of a started lesson is underdetermined — it is drawn at random — and
/// even it must have the lesson-text shape over the selected lesson's
/// unlocked alphabet.
pub open spec fn step(pre: Session, post: Session, ev: SessionEvent, act: SessionAction) -> bool {
    match pre.mode {
        Mode::PickingLesson => match ev {
            SessionEvent::Quit => unchanged(pre, post) && act == SessionAction::Quit,
            SessionEvent::MoveDown => {
                let sel = (pre.selected + 1) % (TOTAL_LESSONS as int);
                &&& same_but_selection(pre, post)
                &&& post.selected == sel
                &&& post.scroll_offset == if sel >= pre.scroll_offset + pre.visible_rows {
                    pre.scroll_offset + 1
                } else {
                    pre.scroll_offset as int
                }
                &&& act == SessionAction::Idle
            },
            SessionEvent::MoveUp => {
                let sel = (pre.selected + TOTAL_LESSONS - 1) % (TOTAL_LESSONS as int);
                &&& same_but_selection(pre, post)
                &&& post.selected == sel
                &&& post.scroll_offset == if sel < pre.scroll_offset && pre.scroll_offset > 0 {
                    pre.scroll_offset - 1
                } else {
                    pre.scroll_offset as int
                }
                &&& act == SessionAction::Idle
            },
            SessionEvent::StartLesson => {
                &&& post.mode == Mode::TypingLesson
                &&& post.selected == pre.selected
                &&& post.scroll_offset == pre.scroll_offset
                &&& post.visible_rows == pre.visible_rows
                &&& post.user_input@ == Seq::<char>::empty()
                &&& is_lesson_text(post.current_practice@, unlocked_spec(pre.selected_lesson()))
                &&& post.letter_practice@ == pre.letter_practice@
                &&& post.highlighted_results is None
                &&& scores_unchanged(pre, post)
                &&& post.wpm == pre.wpm
                &&& post.effective_wpm == pre.effective_wpm
                &&& act == SessionAction::PlayLesson
            },
            SessionEvent::StartLetterDrill => {
                &&& post.mode == Mode::LetterPractice
                &&& post.selected == pre.selected
                &&& post.scroll_offset == pre.scroll_offset
                &&& post.visible_rows == pre.visible_rows
                &&& post.user_input@ == pre.user_input@
                &&& post.current_practice@ == pre.current_practice@
                &&& (valid_lesson(pre.selected_lesson()) ==> post.letter_practice@
                    == new_letters_spec(pre.selected_lesson()))
                &&& opt_diff_view(post.highlighted_results) == opt_diff_view(
                    pre.highlighted_results,
                )
                &&& scores_unchanged(pre, post)
                &&& post.wpm == pre.wpm
                &&& post.effective_wpm == pre.effective_wpm
                &&& act == SessionAction::PlayLetters
            },
            _ => unchanged(pre, post) && act == SessionAction::Idle,
        },
        Mode::TypingLesson => match ev {
            SessionEvent::TypeChar(c) => {
                &&& same_but_input(pre, post)
                &&& post.mode == pre.mode
                &&& post.user_input@ == pre.user_input@.push(c)
                &&& act == SessionAction::Idle
            },
            SessionEvent::Backspace => {
                &&& same_but_input(pre, post)
                &&& post.mode == pre.mode
                &&& post.user_input@ == if pre.user_input@.len() > 0 {
                    pre.user_input@.drop_last()
                } else {
                    pre.user_input@
                }
                &&& act == SessionAction::Idle
            },
            SessionEvent::Submit => {
                let typed = trim_spec(pre.user_input@);
                let key = pre.selected_lesson() as u32;
                &&& post.mode == Mode::PickingLesson
                &&& post.selected == pre.selected
                &&& post.scroll_offset == pre.scroll_offset
                &&& post.visible_rows == pre.visible_rows
                &&& post.user_input@ == pre.user_input@
                &&& post.current_practice@ == pre.current_practice@
                &&& post.letter_practice@ == pre.letter_practice@
                &&& opt_diff_view(post.highlighted_results) == Some(
                    diff_spec(pre.current_practice@, typed),
                )
                &&& post.scores.history(key) == pre.scores.history(key).push(
                    score_spec(pre.current_practice@, typed) as u32,
                )
                &&& (forall|k: u32|
                    k != key ==> post.scores.history(k) == pre.scores.history(k))
                &&& post.wpm == pre.wpm
                &&& post.effective_wpm == pre.effective_wpm
                &&& act == SessionAction::Persist
            },
            SessionEvent::Cancel => {
                &&& same_but_input(pre, post)
                &&& post.mode == Mode::PickingLesson
                &&& post.user_input@ == Seq::<char>::empty()
                &&& act == SessionAction::StopAudio
            },
            _ => unchanged(pre, post) && act == SessionAction::Idle,
        },
        Mode::LetterPractice => match ev {
            SessionEvent::Cancel => {
                &&& unchanged_but_mode(pre, post)
                &&& post.mode == Mode::PickingLesson
                &&& act == SessionAction::StopAudio
            },
            _ => unchanged(pre, post) && act == SessionAction::Idle,
        },
    }
}

/// Everything outside the transcript and the mode is unchanged.
pub open spec fn same_but_input(pre: Session, post: Session) -> bool {
    &&& post.selected == pre.selected
    &&& post.scroll_offset == pre.scroll_offset
    &&& post.visible_rows == pre.visible_rows
    &&& post.current_practice@ == pre.current_practice@
    &&& post.letter_practice@ == pre.letter_practice@
    &&& opt_diff_view(post.highlighted_results) == opt_diff_view(pre.highlighted_results)
    &&& scores_unchanged(pre, post)
    &&& post.wpm == pre.wpm
    &&& post.effective_wpm == pre.effective_wpm
}

/// Everything but the mode is unchanged.
pub open spec fn unchanged_but_mode(pre: Session, post: Session) -> bool {
    &&& post.selected == pre.selected
    &&& post.scroll_offset == pre.scroll_offset
    &&& post.visible_rows == pre.visible_rows
    &&& post.user_input@ == pre.user_input@
    &&& post.current_practice@ == pre.current_practice@
    &&& post.letter_practice@ == pre.letter_practice@
    &&& opt_diff_view(post.highlighted_results) == opt_diff_view(pre.highlighted_results)
    &&& scores_unchanged(pre, post)
    &&& post.wpm == pre.wpm
    &&& post.effective_wpm == pre.effective_wpm
}

/// Starting a lesson and then cancelling returns to the lesson picker with
/// no lesson's score history changed: nothing is recorded.
pub proof fn lemma_start_then_cancel_records_nothing(
    s0: Session,
    s1: Session,
    s2: Session,
    a1: SessionAction,
    a2: SessionAction,
)
    requires
        s0.mode is PickingLesson,
        step(s0, s1, SessionEvent::StartLesson, a1),
        step(s1, s2, SessionEvent::Cancel, a2),
    ensures
        s2.mode is PickingLesson,
        forall|k: u32| s2.scores.history(k) == s0.scores.history(k),
{
}

/// Starting a lesson and then submitting a transcript returns to the lesson
/// picker with exactly one new score appended to the selected lesson's
/// history — the score of the transcript against the freshly generated
/// practice text — and every other history unchanged.
pub proof fn lemma_start_then_submit_records_one(
    s0: Session,
    s1: Session,
    s2: Session,
    a1: SessionAction,
    a2: SessionAction,
)
    requires
        s0.mode is PickingLesson,
        step(s0, s1, SessionEvent::StartLesson, a1),
        step(s1, s2, SessionEvent::Submit, a2),
    ensures
        s2.mode is PickingLesson,
        s2.scores.history((s0.selected + 1) as u32) == s0.scores.history(
            (s0.selected + 1) as u32,
        ).push(score_spec(s1.current_practice@, trim_spec(s1.user_input@)) as u32),
        s2.scores.history((s0.selected + 1) as u32).len() == s0.scores.history(
            (s0.selected + 1) as u32,
        ).len() + 1,
        forall|k: u32|
            k != (s0.selected + 1) as u32 ==> s2.scores.history(k) == s0.scores.history(k),
{
}

} // verus!
