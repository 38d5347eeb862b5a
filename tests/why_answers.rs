use woofer::why::{
    adjective, article, intensifier, noun, noun_phrase, object, phrase, sentence, special, why,
};

#[test]
fn why_gives_an_answer() {
    for _ in 0..200 {
        let w = why();
        assert!(!w.is_empty());
        assert!(!w.starts_with(' '));
        assert!(!w.ends_with(' '));
    }
}

#[test]
fn words_come_from_their_lists() {
    for _ in 0..50 {
        assert!(["the", "some", "a"].contains(&article().as_str()));
        assert!(!noun().is_empty());
        assert!(!adjective().is_empty());
        let i = intensifier();
        assert!(!i.is_empty());
    }
}

#[test]
fn special_answers_are_stock() {
    let known = [
        "why not?",
        "woof woof!",
        "why indeed?",
        "THERE IS AS YET INSUFFICIENT DATA FOR A MEANINGFUL ANSWER",
        "life is full of mysteries",
        "I'm not telling you",
        "you know why",
    ];
    for _ in 0..50 {
        assert!(known.contains(&special().as_str()));
    }
}

#[test]
fn phrases_have_their_openings() {
    for _ in 0..100 {
        let p = phrase();
        assert!(
            p.starts_with("for the ")
                || p.starts_with("because ")
                || p.starts_with("so as to ")
                || p.starts_with("to ")
        );
    }
}

#[test]
fn objects_use_an_before_vowels() {
    for _ in 0..200 {
        let o = object();
        assert!(!o.starts_with("a a") && !o.starts_with("a e") && !o.starts_with("a i"));
        assert!(!o.starts_with("a o") && !o.starts_with("a u"));
    }
}

#[test]
fn nesting_zero_gives_a_noun() {
    for _ in 0..20 {
        let n = noun_phrase(0);
        assert!(!n.contains(" and "));
    }
    assert!(sentence().contains(' '));
}
