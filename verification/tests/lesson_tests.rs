use moser::MorseError;
use moser::curriculum::unlocked_alphabet;
use moser::lesson::lesson_text;
use moser::lesson::words_from_picks;

#[test]
fn text_is_ten_words_of_five_characters() {
    let text: String = lesson_text(3).unwrap().into_iter().collect();
    let words: Vec<&str> = text.split(' ').collect();
    assert_eq!(words.len(), 10);
    for w in words {
        assert_eq!(w.chars().count(), 5);
    }
}

#[test]
fn every_character_belongs_to_the_unlocked_alphabet() {
    for lesson in [1, 2, 7, 40] {
        let alphabet = unlocked_alphabet(lesson).unwrap();
        let text = lesson_text(lesson).unwrap();
        assert_eq!(text.len(), 59);
        for (i, c) in text.iter().enumerate() {
            if i % 6 == 5 {
                assert_eq!(*c, ' ');
            } else {
                assert!(alphabet.contains(c), "{c} outside lesson {lesson}");
            }
        }
    }
}

#[test]
fn invalid_lesson_is_rejected() {
    assert_eq!(lesson_text(0), Err(MorseError::InvalidLesson));
    assert_eq!(lesson_text(41), Err(MorseError::InvalidLesson));
}

#[test]
fn picks_determine_the_text() {
    let letters = vec!['K', 'M'];
    let picks = vec![0usize; 50];
    let text: String = words_from_picks(&letters, &picks).into_iter().collect();
    assert_eq!(text, "KKKKK KKKKK KKKKK KKKKK KKKKK KKKKK KKKKK KKKKK KKKKK KKKKK");
}

#[test]
fn same_picks_give_the_same_text() {
    let letters = unlocked_alphabet(4).unwrap();
    let picks: Vec<usize> = (0..50).map(|i| i % letters.len()).collect();
    let a = words_from_picks(&letters, &picks);
    let b = words_from_picks(&letters, &picks);
    assert_eq!(a, b);
}

#[test]
fn alternating_picks_alternate_letters() {
    let letters = vec!['K', 'M'];
    let picks: Vec<usize> = (0..50).map(|i| i % 2).collect();
    let text: String = words_from_picks(&letters, &picks).into_iter().collect();
    assert_eq!(text, "KMKMK MKMKM KMKMK MKMKM KMKMK MKMKM KMKMK MKMKM KMKMK MKMKM");
}
