use woofer::chat::{custom_emoji_code, own_message, participants, strip_speaker, trim, user_message};

#[test]
fn known_emoji_codes() {
    assert_eq!(custom_emoji_code("woof"), Some("<:woof:441843756040323092>".to_string()));
    assert_eq!(custom_emoji_code("petpup"), Some("<a:petpup:915489497490292757>".to_string()));
    assert_eq!(custom_emoji_code("pupsplit"), Some("<:pupsplit:948732828886118410>".to_string()));
    assert_eq!(custom_emoji_code("cat"), None);
    assert_eq!(custom_emoji_code(""), None);
}

#[test]
fn speaker_label_is_dropped() {
    assert_eq!(strip_speaker("woofer: hi there"), "hi there");
    assert_eq!(strip_speaker("Woofer: hi"), "hi");
    assert_eq!(strip_speaker("WOOFER: hi"), "WOOFER: hi");
    assert_eq!(strip_speaker("hello woofer: x"), "hello woofer: x");
    assert_eq!(strip_speaker("woofer:"), "woofer:");
    assert_eq!(strip_speaker("woofer: "), "");
}

#[test]
fn participants_are_named_once_in_order() {
    let names: Vec<String> = ["Ann", "Bo", "Ann", "Cy", "Bo"].iter().map(|s| s.to_string()).collect();
    assert_eq!(participants(&names), "Ann, Bo, Cy");
    assert_eq!(participants(&vec![]), "");
    assert_eq!(participants(&vec!["Solo".to_string(), "Solo".to_string()]), "Solo");
}

#[test]
fn trim_drops_outer_white_space() {
    assert_eq!(trim("  hi there \n"), "hi there");
    assert_eq!(trim("\u{3000}x\u{a0}"), "x");
    assert_eq!(trim("   "), "");
    assert_eq!(trim(""), "");
    assert_eq!(trim("a b"), "a b");
}

#[test]
fn own_messages_lose_the_reply_prefix() {
    assert_eq!(own_message("<:pupgpt:1121198908593426462> woof! "), "woof!");
    assert_eq!(own_message(" plain "), "plain");
}

#[test]
fn user_messages_lose_the_command() {
    assert_eq!(user_message("puppy gpt what is a dog"), "what is a dog");
    assert_eq!(user_message("Puppy GPT hello"), "hello");
    assert_eq!(user_message("puppy gpt"), "puppy gpt");
    assert_eq!(user_message("hello puppy gpt x"), "hello puppy gpt x");
}
