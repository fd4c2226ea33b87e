//! The Koch curriculum: the fixed order in which characters are introduced,
//! the dot/dash pattern of each character, and the alphabet a lesson unlocks.

use vstd::prelude::*;

use crate::MorseError;

verus! {

/// Number of lessons. The curriculum holds 41 characters; lesson 1
/// introduces the first two (a single character cannot be meaningfully
/// drilled alone) and every later lesson introduces one more, so there is
/// one lesson fewer than characters.
pub const TOTAL_LESSONS: usize = 40;

/// The curriculum in Koch order: characters are introduced in this order,
/// one per lesson after the first.
pub open spec fn koch_seq() -> Seq<char> {
    seq![
        'K', 'M', 'U', 'R', 'E', 'S', 'N', 'A', 'P', 'T', 'L', 'W', 'I', '.',
        'J', 'Z', '=', 'F', 'O', 'Y', ',', 'V', 'G', '5', '/', 'Q', '9', '2',
        'H', '3', '8', 'B', '?', '4', '7', 'C', '1', 'D', '6', '0', 'X',
    ]
}

/// Executable copy of the curriculum.
pub fn koch_sequence() -> (v: Vec<char>)
    ensures
        v@ == koch_seq(),
{
    let v = vec![
        'K', 'M', 'U', 'R', 'E', 'S', 'N', 'A', 'P', 'T', 'L', 'W', 'I', '.',
        'J', 'Z', '=', 'F', 'O', 'Y', ',', 'V', 'G', '5', '/', 'Q', '9', '2',
        'H', '3', '8', 'B', '?', '4', '7', 'C', '1', 'D', '6', '0', 'X',
    ];
    proof {
        assert(v@ =~= koch_seq());
    }
    v
}

/// The dot/dash pattern of a character, or `None` for a character outside the
/// map. The space character is itself a valid key: its "pattern" is the
/// single space, which stands for the inter-word gap and is never broken
/// into dots and dashes.
pub open spec fn pattern_spec(c: char) -> Option<Seq<char>> {
    match c {
        'K' => Some(seq!['-', '.', '-']),
        'M' => Some(seq!['-', '-']),
        'U' => Some(seq!['.', '.', '-']),
        'R' => Some(seq!['.', '-', '.']),
        'E' => Some(seq!['.']),
        'S' => Some(seq!['.', '.', '.']),
        'N' => Some(seq!['-', '.']),
        'A' => Some(seq!['.', '-']),
        'P' => Some(seq!['.', '-', '-', '.']),
        'T' => Some(seq!['-']),
        'L' => Some(seq!['.', '-', '.', '.']),
        'W' => Some(seq!['.', '-', '-']),
        'I' => Some(seq!['.', '.']),
        '.' => Some(seq!['.', '-', '.', '-', '.', '-']),
        'J' => Some(seq!['.', '-', '-', '-']),
        'Z' => Some(seq!['-', '-', '.', '.']),
        '=' => Some(seq!['-', '.', '.', '.', '-']),
        'F' => Some(seq!['.', '.', '-', '.']),
        'O' => Some(seq!['-', '-', '-']),
        'Y' => Some(seq!['-', '.', '-', '-']),
        ',' => Some(seq!['-', '-', '.', '.', '-', '-']),
        'V' => Some(seq!['.', '.', '.', '-']),
        'G' => Some(seq!['-', '-', '.']),
        '5' => Some(seq!['.', '.', '.', '.', '.']),
        '/' => Some(seq!['-', '.', '.', '-', '.']),
        'Q' => Some(seq!['-', '-', '.', '-']),
        '9' => Some(seq!['-', '-', '-', '-', '.']),
        '2' => Some(seq!['.', '.', '-', '-', '-']),
        'H' => Some(seq!['.', '.', '.', '.']),
        '3' => Some(seq!['.', '.', '.', '-', '-']),
        '8' => Some(seq!['-', '-', '-', '.', '.']),
        'B' => Some(seq!['-', '.', '.', '.']),
        '?' => Some(seq!['.', '.', '-', '-', '.', '.']),
        '4' => Some(seq!['.', '.', '.', '.', '-']),
        '7' => Some(seq!['-', '-', '.', '.', '.']),
        'C' => Some(seq!['-', '.', '-', '.']),
        '1' => Some(seq!['.', '-', '-', '-', '-']),
        'D' => Some(seq!['-', '.', '.']),
        '6' => Some(seq!['-', '.', '.', '.', '.']),
        '0' => Some(seq!['-', '-', '-', '-', '-']),
        'X' => Some(seq!['-', '.', '.', '-']),
        ' ' => Some(seq![' ']),
        _ => None,
    }
}

/// Executable pattern lookup, total over the curriculum plus space.
pub fn pattern_of(c: char) -> (r: Option<Vec<char>>)
    ensures
        match r {
            Some(v) => pattern_spec(c) == Some(v@),
            None => pattern_spec(c) is None,
        },
{
    match c {
        'K' => Some(vec!['-', '.', '-']),
        'M' => Some(vec!['-', '-']),
        'U' => Some(vec!['.', '.', '-']),
        'R' => Some(vec!['.', '-', '.']),
        'E' => Some(vec!['.']),
        'S' => Some(vec!['.', '.', '.']),
        'N' => Some(vec!['-', '.']),
        'A' => Some(vec!['.', '-']),
        'P' => Some(vec!['.', '-', '-', '.']),
        'T' => Some(vec!['-']),
        'L' => Some(vec!['.', '-', '.', '.']),
        'W' => Some(vec!['.', '-', '-']),
        'I' => Some(vec!['.', '.']),
        '.' => Some(vec!['.', '-', '.', '-', '.', '-']),
        'J' => Some(vec!['.', '-', '-', '-']),
        'Z' => Some(vec!['-', '-', '.', '.']),
        '=' => Some(vec!['-', '.', '.', '.', '-']),
        'F' => Some(vec!['.', '.', '-', '.']),
        'O' => Some(vec!['-', '-', '-']),
        'Y' => Some(vec!['-', '.', '-', '-']),
        ',' => Some(vec!['-', '-', '.', '.', '-', '-']),
        'V' => Some(vec!['.', '.', '.', '-']),
        'G' => Some(vec!['-', '-', '.']),
        '5' => Some(vec!['.', '.', '.', '.', '.']),
        '/' => Some(vec!['-', '.', '.', '-', '.']),
        'Q' => Some(vec!['-', '-', '.', '-']),
        '9' => Some(vec!['-', '-', '-', '-', '.']),
        '2' => Some(vec!['.', '.', '-', '-', '-']),
        'H' => Some(vec!['.', '.', '.', '.']),
        '3' => Some(vec!['.', '.', '.', '-', '-']),
        '8' => Some(vec!['-', '-', '-', '.', '.']),
        'B' => Some(vec!['-', '.', '.', '.']),
        '?' => Some(vec!['.', '.', '-', '-', '.', '.']),
        '4' => Some(vec!['.', '.', '.', '.', '-']),
        '7' => Some(vec!['-', '-', '.', '.', '.']),
        'C' => Some(vec!['-', '.', '-', '.']),
        '1' => Some(vec!['.', '-', '-', '-', '-']),
        'D' => Some(vec!['-', '.', '.']),
        '6' => Some(vec!['-', '.', '.', '.', '.']),
        '0' => Some(vec!['-', '-', '-', '-', '-']),
        'X' => Some(vec!['-', '.', '.', '-']),
        ' ' => Some(vec![' ']),
        _ => None,
    }
}

/// The curriculum never repeats a character, so each lesson introduces
/// something new.
pub proof fn lemma_curriculum_distinct()
    ensures
        koch_seq().no_duplicates(),
{
}

/// The pattern map is total over the curriculum: every character a lesson
/// can unlock has a dot/dash pattern.
pub proof fn lemma_patterns_cover_curriculum()
    ensures
        forall|i: int| 0 <= i < koch_seq().len() ==> pattern_spec(#[trigger] koch_seq()[i]) is Some,
{
}

/// Whether a lesson index is valid: 1-based, up to the lesson count.
pub open spec fn valid_lesson(lesson: int) -> bool {
    1 <= lesson <= TOTAL_LESSONS
}

/// The alphabet unlocked by a lesson: the curriculum prefix of length
/// `lesson + 1`, so lesson 1 unlocks two characters and each later lesson
/// adds one.
pub open spec fn unlocked_spec(lesson: int) -> Seq<char> {
    koch_seq().take(lesson + 1)
}

/// The characters a learner may be drilled on in a lesson.
pub fn unlocked_alphabet(lesson: usize) -> (r: Result<Vec<char>, MorseError>)
    ensures
        valid_lesson(lesson as int) ==> (r matches Ok(v) && v@ == unlocked_spec(lesson as int)),
        !valid_lesson(lesson as int) ==> (r matches Err(e) && e == MorseError::InvalidLesson),
{
    if lesson < 1 || lesson > TOTAL_LESSONS {
        Err(MorseError::InvalidLesson)
    } else {
        let mut v = koch_sequence();
        v.truncate(lesson + 1);
        Ok(v)
    }
}

/// The characters a valid lesson introduces: the first two curriculum
/// characters for lesson 1, the single character at (0-based) position
/// `lesson` for every later lesson.
pub open spec fn new_letters_spec(lesson: int) -> Seq<char> {
    if lesson == 1 {
        koch_seq().take(2)
    } else {
        seq![koch_seq()[lesson]]
    }
}

/// The characters a lesson introduces.
pub fn new_letters_for_lesson(lesson_num: usize) -> (r: Result<Vec<char>, MorseError>)
    ensures
        valid_lesson(lesson_num as int) ==> (r matches Ok(v) && v@ == new_letters_spec(
            lesson_num as int,
        )),
        !valid_lesson(lesson_num as int) ==> (r matches Err(e) && e == MorseError::InvalidLesson),
{
    if lesson_num < 1 || lesson_num > TOTAL_LESSONS {
        Err(MorseError::InvalidLesson)
    } else if lesson_num == 1 {
        let s = koch_sequence();
        let v = vec![s[0], s[1]];
        proof {
            assert(v@ =~= koch_seq().take(2));
        }
        Ok(v)
    } else {
        let s = koch_sequence();
        let v = vec![s[lesson_num]];
        proof {
            assert(v@ =~= seq![koch_seq()[lesson_num as int]]);
        }
        Ok(v)
    }
}

} // verus!
