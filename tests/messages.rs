use woofer::text::{author_name_from_msg, is_whitespace, split_string};

#[test]
fn short_reply_is_one_piece() {
    assert_eq!(split_string("hello"), vec!["hello".to_string()]);
    assert_eq!(split_string(""), vec!["".to_string()]);
    let exact = "x".repeat(2000);
    assert_eq!(split_string(&exact), vec![exact.clone()]);
}

#[test]
fn long_reply_without_breaks_is_cut_at_the_limit() {
    let text = "x".repeat(2500);
    assert_eq!(split_string(&text), vec!["x".repeat(2000), "x".repeat(500)]);
}

#[test]
fn long_reply_is_cut_after_a_blank_line() {
    let text = format!("{}\n\n{}", "a".repeat(1500), "b".repeat(1000));
    let parts = split_string(&text);
    assert_eq!(parts, vec![format!("{}\n", "a".repeat(1500)), format!("\n{}", "b".repeat(1000))]);
    assert_eq!(parts.concat(), text);
}

#[test]
fn long_reply_is_cut_after_a_line() {
    let text = format!("{}\n{}\n{}", "a".repeat(800), "b".repeat(800), "c".repeat(800));
    let parts = split_string(&text);
    assert_eq!(
        parts,
        vec![format!("{}\n{}\n", "a".repeat(800), "b".repeat(800)), "c".repeat(800)]
    );
}

#[test]
fn long_reply_is_cut_after_a_word() {
    let text = "word ".repeat(500);
    let parts = split_string(&text);
    assert_eq!(parts, vec!["word ".repeat(400), "word ".repeat(100)]);
}

#[test]
fn pieces_count_bytes() {
    let text = "é".repeat(3000);
    let parts = split_string(&text);
    assert_eq!(parts, vec!["é".repeat(1000), "é".repeat(1000), "é".repeat(1000)]);
    let text = "€".repeat(1000);
    let parts = split_string(&text);
    assert_eq!(parts, vec!["€".repeat(666), "€".repeat(334)]);
    for p in &parts {
        assert!(p.len() <= 2000);
    }
    let fits = "é".repeat(1000);
    assert_eq!(split_string(&fits), vec![fits.clone()]);
}

#[test]
fn whitespace_matches_std() {
    for u in 0..=0x10FFFFu32 {
        if let Some(c) = char::from_u32(u) {
            assert_eq!(is_whitespace(c), c.is_whitespace(), "{u:#x}");
        }
    }
}

#[test]
fn author_names() {
    let name = "someone".to_string();
    assert_eq!(author_name_from_msg(&None, &name, &None), "someone");
    assert_eq!(author_name_from_msg(&Some("Some One".to_string()), &name, &None), "Some One");
    assert_eq!(
        author_name_from_msg(&Some("Some One".to_string()), &name, &Some("nick".to_string())),
        "nick"
    );
    assert_eq!(
        author_name_from_msg(&Some("Purple Puppy".to_string()), &name, &None),
        "Fake Deformed Purple Puppy"
    );
    assert_eq!(
        author_name_from_msg(&None, &"purplepuppy".to_string(), &Some("Purple Puppy".to_string())),
        "Purple Puppy"
    );
}
