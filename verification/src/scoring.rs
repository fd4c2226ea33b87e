//! The accuracy scorer: case-folds both strings, measures their Levenshtein
//! edit distance, and turns it into a percentage; plus the position-by-
//! position feedback diff, kept separate so display formatting can never
//! influence the numeric score.

use vstd::prelude::*;

verus! {

/// ASCII uppercase of one character; everything else is unchanged. The
/// curriculum is case-insensitive by convention, so both the expected text
/// and the transcript are folded before comparison.
pub open spec fn fold_char_spec(c: char) -> char {
    match c {
        'a' => 'A',
        'b' => 'B',
        'c' => 'C',
        'd' => 'D',
        'e' => 'E',
        'f' => 'F',
        'g' => 'G',
        'h' => 'H',
        'i' => 'I',
        'j' => 'J',
        'k' => 'K',
        'l' => 'L',
        'm' => 'M',
        'n' => 'N',
        'o' => 'O',
        'p' => 'P',
        'q' => 'Q',
        'r' => 'R',
        's' => 'S',
        't' => 'T',
        'u' => 'U',
        'v' => 'V',
        'w' => 'W',
        'x' => 'X',
        'y' => 'Y',
        'z' => 'Z',
        _ => c,
    }
}

/// A string folded to uppercase, character by character.
pub open spec fn fold_spec(s: Seq<char>) -> Seq<char> {
    s.map_values(|c: char| fold_char_spec(c))
}

/// Executable ASCII uppercase of one character.
pub fn fold_char(c: char) -> (r: char)
    ensures
        r == fold_char_spec(c),
{
    match c {
        'a' => 'A',
        'b' => 'B',
        'c' => 'C',
        'd' => 'D',
        'e' => 'E',
        'f' => 'F',
        'g' => 'G',
        'h' => 'H',
        'i' => 'I',
        'j' => 'J',
        'k' => 'K',
        'l' => 'L',
        'm' => 'M',
        'n' => 'N',
        'o' => 'O',
        'p' => 'P',
        'q' => 'Q',
        'r' => 'R',
        's' => 'S',
        't' => 'T',
        'u' => 'U',
        'v' => 'V',
        'w' => 'W',
        'x' => 'X',
        'y' => 'Y',
        'z' => 'Z',
        _ => c,
    }
}

/// Folds a whole string to uppercase.
pub fn fold_upper(s: &Vec<char>) -> (r: Vec<char>)
    ensures
        r@ == fold_spec(s@),
{
    let mut r: Vec<char> = Vec::new();
    let mut i: usize = 0;
    while i < s.len()
        invariant
            i <= s@.len(),
            r@ == fold_spec(s@.take(i as int)),
        decreases s@.len() - i,
    {
        r.push(fold_char(s[i]));
        proof {
            assert(fold_spec(s@.take(i as int)).push(fold_char_spec(s@[i as int])) =~= fold_spec(
                s@.take(i as int + 1),
            ));
        }
        i += 1;
    }
    proof {
        assert(s@.take(s@.len() as int) =~= s@);
    }
    r
}

/// A transcript with its leading and trailing spaces removed; interior
/// spaces stay.
pub open spec fn trim_spec(s: Seq<char>) -> Seq<char>
    decreases s.len(),
{
    if s.len() > 0 && s[0] == ' ' {
        trim_spec(s.drop_first())
    } else if s.len() > 0 && s.last() == ' ' {
        trim_spec(s.drop_last())
    } else {
        s
    }
}

/// Strips leading and trailing spaces from a transcript.
pub fn trim_spaces(s: &Vec<char>) -> (r: Vec<char>)
    ensures
        r@ == trim_spec(s@),
{
    proof {
        assert(s@.skip(0) =~= s@);
    }
    let mut start: usize = 0;
    while start < s.len() && s[start] == ' '
        invariant
            start <= s@.len(),
            trim_spec(s@) == trim_spec(s@.skip(start as int)),
        decreases s@.len() - start,
    {
        proof {
            assert(s@.skip(start as int).drop_first() =~= s@.skip(start as int + 1));
        }
        start += 1;
    }
    proof {
        assert(s@.skip(start as int) =~= s@.subrange(start as int, s@.len() as int));
    }
    let mut end: usize = s.len();
    while end > start && s[end - 1] == ' '
        invariant
            start <= end <= s@.len(),
            start == s@.len() || s@[start as int] != ' ',
            trim_spec(s@) == trim_spec(s@.subrange(start as int, end as int)),
        decreases end,
    {
        proof {
            let cur = s@.subrange(start as int, end as int);
            assert(cur.drop_last() =~= s@.subrange(start as int, end as int - 1));
        }
        end -= 1;
    }
    let mut r: Vec<char> = Vec::new();
    let mut i: usize = start;
    while i < end
        invariant
            start <= i <= end <= s@.len(),
            r@ == s@.subrange(start as int, i as int),
        decreases end - i,
    {
        r.push(s[i]);
        proof {
            assert(s@.subrange(start as int, i as int).push(s@[i as int]) =~= s@.subrange(
                start as int,
                i as int + 1,
            ));
        }
        i += 1;
    }
    proof {
        assert(r@ == s@.subrange(start as int, end as int));
        assert(trim_spec(s@.subrange(start as int, end as int)) == s@.subrange(
            start as int,
            end as int,
        ));
    }
    r
}

/// The smallest of three numbers.
pub open spec fn min3(x: nat, y: nat, z: nat) -> nat {
    if x <= y && x <= z {
        x
    } else if y <= z {
        y
    } else {
        z
    }
}

/// Levenshtein edit distance: the minimum number of single-character
/// insertions, deletions and substitutions that turn `a` into `b`.
pub open spec fn lev(a: Seq<char>, b: Seq<char>) -> nat
    decreases a.len(), b.len(),
{
    if a.len() == 0 {
        b.len()
    } else if b.len() == 0 {
        a.len()
    } else {
        let del = lev(a.drop_last(), b) + 1;
        let ins = lev(a, b.drop_last()) + 1;
        let sub = lev(a.drop_last(), b.drop_last()) + if a.last() == b.last() {
            0nat
        } else {
            1nat
        };
        min3(del, ins, sub)
    }
}

/// The edit distance never exceeds the longer length: replacing every
/// character and inserting or deleting the difference always suffices.
pub proof fn lemma_lev_le_max(a: Seq<char>, b: Seq<char>)
    ensures
        lev(a, b) <= if a.len() >= b.len() {
            a.len()
        } else {
            b.len()
        },
    decreases a.len(), b.len(),
{
    if a.len() == 0 || b.len() == 0 {
    } else {
        lemma_lev_le_max(a.drop_last(), b.drop_last());
    }
}

/// The distance of a string to itself is zero.
pub proof fn lemma_lev_self(a: Seq<char>)
    ensures
        lev(a, a) == 0,
    decreases a.len(),
{
    if a.len() > 0 {
        lemma_lev_self(a.drop_last());
    }
}

/// Relies on strsim::levenshtein: the minimum number of single-character
/// insertions, deletions and substitutions turning one string into the
/// other, which is exactly the recurrence `lev`.
#[verifier::external_body]
fn levenshtein_chars(a: &Vec<char>, b: &Vec<char>) -> (r: usize)
    ensures
        r == lev(a@, b@),
{
    let sa: String = a.iter().collect();
    let sb: String = b.iter().collect();
    strsim::levenshtein(&sa, &sb)
}

/// The accuracy percentage: with `e` and `t` the folded strings and
/// `m` the longer length, the score is `(m - lev(e, t)) * 100 / m`,
/// truncated; two empty strings score zero, a degenerate case rather than a
/// perfect match.
pub open spec fn score_spec(expected: Seq<char>, typed: Seq<char>) -> int {
    let e = fold_spec(expected);
    let t = fold_spec(typed);
    let m: int = if e.len() >= t.len() {
        e.len() as int
    } else {
        t.len() as int
    };
    if m == 0 {
        0
    } else {
        (m - lev(e, t)) * 100 / m
    }
}

/// Scores a transcript against the expected text: 0 to 100.
pub fn score(expected: &Vec<char>, typed: &Vec<char>) -> (r: u32)
    ensures
        r == score_spec(expected@, typed@),
        r <= 100,
{
    let e = fold_upper(expected);
    let t = fold_upper(typed);
    let m = if e.len() >= t.len() {
        e.len()
    } else {
        t.len()
    };
    if m == 0 {
        0
    } else {
        let d = levenshtein_chars(&e, &t);
        proof {
            lemma_lev_le_max(e@, t@);
        }
        let kept = (m - d) as u128;
        let r = (kept * 100) / (m as u128);
        proof {
            vstd::arithmetic::div_mod::lemma_div_is_ordered(
                kept as int * 100,
                m as int * 100,
                m as int,
            );
            assert((m as int * 100) / (m as int) == 100) by {
                vstd::arithmetic::div_mod::lemma_div_multiples_vanish(100, m as int);
            }
        }
        r as u32
    }
}

/// Scoring any transcript that case-folds to the expected non-empty text
/// gives exactly 100: identical strings in any casing are a perfect score.
pub proof fn lemma_score_identical(expected: Seq<char>, typed: Seq<char>)
    requires
        fold_spec(expected) == fold_spec(typed),
        expected.len() > 0,
    ensures
        score_spec(expected, typed) == 100,
{
    let e = fold_spec(expected);
    lemma_lev_self(e);
    assert((e.len() as int * 100) / (e.len() as int) == 100) by {
        vstd::arithmetic::div_mod::lemma_div_multiples_vanish(100, e.len() as int);
    }
}

/// An empty transcript against a non-empty expected text scores zero: every
/// character is missing.
pub proof fn lemma_score_empty_typed(expected: Seq<char>)
    requires
        expected.len() > 0,
    ensures
        score_spec(expected, Seq::<char>::empty()) == 0,
{
    let e = fold_spec(expected);
    assert(fold_spec(Seq::<char>::empty()) =~= Seq::<char>::empty());
    assert(lev(e, Seq::<char>::empty()) == e.len());
    assert((0int) / (e.len() as int) == 0) by {
        vstd::arithmetic::div_mod::lemma_div_of0(e.len() as int);
    }
}

/// The feedback diff, a presentation artifact independent of the score: one
/// cell per expected character, holding for the compared prefix the typed
/// character and whether it matches, and for the expected excess the missed
/// character marked wrong. Typed excess beyond the expected length is not
/// shown.
pub open spec fn diff_spec(expected: Seq<char>, typed: Seq<char>) -> Seq<(char, bool)> {
    let e = fold_spec(expected);
    let t = fold_spec(typed);
    Seq::new(
        e.len(),
        |i: int|
            if i < t.len() {
                (t[i], t[i] == e[i])
            } else {
                (e[i], false)
            },
    )
}

/// Builds the feedback diff of a transcript against the expected text.
pub fn diff(expected: &Vec<char>, typed: &Vec<char>) -> (r: Vec<(char, bool)>)
    ensures
        r@ == diff_spec(expected@, typed@),
{
    let e = fold_upper(expected);
    let t = fold_upper(typed);
    let mut r: Vec<(char, bool)> = Vec::new();
    let mut i: usize = 0;
    while i < e.len()
        invariant
            i <= e@.len(),
            e@ == fold_spec(expected@),
            t@ == fold_spec(typed@),
            r@ == diff_spec(expected@, typed@).take(i as int),
        decreases e@.len() - i,
    {
        if i < t.len() {
            r.push((t[i], t[i] == e[i]));
        } else {
            r.push((e[i], false));
        }
        proof {
            assert(r@ =~= diff_spec(expected@, typed@).take(i as int + 1));
        }
        i += 1;
    }
    proof {
        assert(diff_spec(expected@, typed@).take(e@.len() as int) =~= diff_spec(
            expected@,
            typed@,
        ));
    }
    r
}

} // verus!
