use moser::scoring::diff;
use moser::scoring::score;
use moser::scoring::trim_spaces;

fn chars(s: &str) -> Vec<char> {
    s.chars().collect()
}

#[test]
fn identical_strings_score_100() {
    assert_eq!(score(&chars("HELLO"), &chars("HELLO")), 100);
    assert_eq!(score(&chars("K"), &chars("K")), 100);
}

#[test]
fn casing_does_not_matter() {
    assert_eq!(score(&chars("HELLO"), &chars("hello")), 100);
    assert_eq!(score(&chars("kmu"), &chars("KMU")), 100);
}

#[test]
fn empty_versus_empty_scores_zero() {
    assert_eq!(score(&chars(""), &chars("")), 0);
}

#[test]
fn empty_transcript_scores_zero() {
    assert_eq!(score(&chars("HELLO"), &chars("")), 0);
}

#[test]
fn one_substitution_in_three() {
    // distance 1, longer length 3: (3 - 1) * 100 / 3 = 66, truncated.
    assert_eq!(score(&chars("KMU"), &chars("KMX")), 66);
}

#[test]
fn kitten_versus_sitting() {
    // The classic pair: distance 3, longer length 7: 400 / 7 = 57.
    assert_eq!(score(&chars("kitten"), &chars("sitting")), 57);
}

#[test]
fn excess_typed_characters_cost() {
    // "HELLO" vs "HELLO " folded: distance 1, longer length 6: 500/6 = 83.
    assert_eq!(score(&chars("HELLO"), &chars("HELLO ")), 83);
}

#[test]
fn trim_strips_only_the_ends() {
    assert_eq!(trim_spaces(&chars("  a b  ")), chars("a b"));
    assert_eq!(trim_spaces(&chars("ab")), chars("ab"));
    assert_eq!(trim_spaces(&chars("   ")), chars(""));
    assert_eq!(trim_spaces(&chars("")), chars(""));
}

#[test]
fn diff_marks_matches_and_mismatches() {
    let cells = diff(&chars("AB"), &chars("ac"));
    assert_eq!(cells, vec![('A', true), ('C', false)]);
}

#[test]
fn diff_marks_missing_expected_tail() {
    let cells = diff(&chars("ABC"), &chars("A"));
    assert_eq!(cells, vec![('A', true), ('B', false), ('C', false)]);
}

#[test]
fn diff_drops_typed_excess() {
    let cells = diff(&chars("A"), &chars("AB"));
    assert_eq!(cells, vec![('A', true)]);
}

#[test]
fn diff_of_empty_expected_is_empty() {
    assert_eq!(diff(&chars(""), &chars("XY")), vec![]);
}
