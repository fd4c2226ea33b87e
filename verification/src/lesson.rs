//! The lesson text generator: ten five-character words drawn uniformly, with
//! replacement, from the alphabet a lesson unlocks, joined by single spaces.

use vstd::prelude::*;

use crate::MorseError;
use crate::curriculum::unlocked_alphabet;
use crate::curriculum::unlocked_spec;
use crate::curriculum::valid_lesson;

verus! {

/// Number of words in a lesson text.
pub const WORD_COUNT: usize = 10;

/// Number of characters in each word.
pub const WORD_LEN: usize = 5;

/// Number of characters drawn for one text.
pub const PICK_COUNT: usize = 50;

/// Total length of a lesson text: ten five-character words and the nine
/// single spaces between them.
pub const TEXT_LEN: usize = 59;

/// The shape every lesson text has: ten five-character words joined by
/// single spaces — every sixth position a space, every other position a
/// character of the alphabet.
pub open spec fn is_lesson_text(s: Seq<char>, alphabet: Seq<char>) -> bool {
    &&& s.len() == TEXT_LEN
    &&& forall|i: int|
        0 <= i < TEXT_LEN ==> if i % 6 == 5 {
            s[i] == ' '
        } else {
            alphabet.contains(#[trigger] s[i])
        }
}

/// Relies on rand::random_range over `0..n`: a uniformly drawn index below
/// `n`. The draw depends on the thread's generator, so nothing beyond the
/// bound is promised.
#[verifier::external_body]
fn random_index(n: usize) -> (r: usize)
    requires
        n >= 1,
    ensures
        r < n,
{
    rand::random_range(0..n)
}

/// The deterministic core of the generator: character `j` of word `w` is the
/// letter chosen by pick `5*w + j`. Reproducible by construction: the same
/// picks give the same text.
pub fn words_from_picks(letters: &Vec<char>, picks: &Vec<usize>) -> (r: Vec<char>)
    requires
        letters@.len() >= 1,
        picks@.len() == PICK_COUNT,
        forall|i: int| 0 <= i < PICK_COUNT ==> #[trigger] picks@[i] < letters@.len(),
    ensures
        is_lesson_text(r@, letters@),
        forall|i: int|
            0 <= i < TEXT_LEN && i % 6 != 5 ==> #[trigger] r@[i] == letters@[picks@[5 * (i / 6) + i
                % 6] as int],
{
    let mut r: Vec<char> = Vec::new();
    let mut w: usize = 0;
    while w < WORD_COUNT
        invariant
            w <= WORD_COUNT,
            letters@.len() >= 1,
            picks@.len() == PICK_COUNT,
            forall|i: int| 0 <= i < PICK_COUNT ==> #[trigger] picks@[i] < letters@.len(),
            r@.len() == if w == 0 {
                0int
            } else {
                6 * w - 1
            },
            forall|i: int|
                0 <= i < r@.len() ==> if i % 6 == 5 {
                    r@[i] == ' '
                } else {
                    letters@.contains(#[trigger] r@[i])
                },
            forall|i: int|
                0 <= i < r@.len() && i % 6 != 5 ==> #[trigger] r@[i] == letters@[picks@[5 * (i / 6)
                    + i % 6] as int],
        decreases WORD_COUNT - w,
    {
        if w > 0 {
            r.push(' ');
        }
        let mut j: usize = 0;
        while j < WORD_LEN
            invariant
                j <= WORD_LEN,
                w < WORD_COUNT,
                letters@.len() >= 1,
                picks@.len() == PICK_COUNT,
                forall|i: int| 0 <= i < PICK_COUNT ==> #[trigger] picks@[i] < letters@.len(),
                r@.len() == 6 * w + j,
                forall|i: int|
                    0 <= i < r@.len() ==> if i % 6 == 5 {
                        r@[i] == ' '
                    } else {
                        letters@.contains(#[trigger] r@[i])
                    },
                forall|i: int|
                    0 <= i < r@.len() && i % 6 != 5 ==> #[trigger] r@[i] == letters@[picks@[5 * (i
                        / 6) + i % 6] as int],
            decreases WORD_LEN - j,
        {
            let pick = picks[5 * w + j];
            r.push(letters[pick]);
            proof {
                let i = r@.len() - 1;
                assert(i == 6 * w + j);
                assert(i % 6 == j) by (nonlinear_arith)
                    requires
                        i == 6 * w + j,
                        0 <= w,
                        0 <= j < 5,
                ;
                assert(i / 6 == w) by (nonlinear_arith)
                    requires
                        i == 6 * w + j,
                        0 <= w,
                        0 <= j < 5,
                ;
            }
            j += 1;
        }
        w += 1;
    }
    r
}

/// Generates a fresh practice text for a lesson: ten five-character words
/// drawn uniformly and independently, with replacement, from the lesson's
/// unlocked alphabet, joined by single spaces. Every character of the result
/// belongs to the unlocked alphabet.
pub fn lesson_text(current_lesson: usize) -> (r: Result<Vec<char>, MorseError>)
    ensures
        valid_lesson(current_lesson as int) ==> (r matches Ok(v) && is_lesson_text(
            v@,
            unlocked_spec(current_lesson as int),
        )),
        !valid_lesson(current_lesson as int) ==> (r matches Err(e) && e
            == MorseError::InvalidLesson),
{
    let letters = match unlocked_alphabet(current_lesson) {
        Ok(l) => l,
        Err(e) => {
            return Err(e);
        },
    };
    let mut picks: Vec<usize> = Vec::new();
    let mut i: usize = 0;
    while i < PICK_COUNT
        invariant
            i <= PICK_COUNT,
            letters@.len() >= 1,
            picks@.len() == i,
            forall|k: int| 0 <= k < i ==> #[trigger] picks@[k] < letters@.len(),
        decreases PICK_COUNT - i,
    {
        let p = random_index(letters.len());
        picks.push(p);
        i += 1;
    }
    Ok(words_from_picks(&letters, &picks))
}

} // verus!
