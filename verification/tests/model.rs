use chat_exchange::message::Message;
use chat_exchange::order::compare_text;
use chat_exchange::role::Role;
use chat_exchange::text::trim;
use std::cmp::Ordering;

fn message(role: Role, content: &str, uuid: u128) -> Message {
    Message { role, content: content.to_string(), uuid }
}

#[test]
fn role_is_written_by_its_name() {
    assert_eq!(Role::User.to_string(), "User");
    assert_eq!(Role::Ai.to_string(), "Ai");
}

#[test]
fn role_is_read_from_its_exact_name_only() {
    assert_eq!(Role::from_text("User"), Some(Role::User));
    assert_eq!(Role::from_text("Ai"), Some(Role::Ai));
    assert_eq!(Role::from_text("user"), None);
    assert_eq!(Role::from_text("AI"), None);
    assert_eq!(Role::from_text(" Ai"), None);
    assert_eq!(Role::from_text(""), None);
}

#[test]
fn user_orders_before_ai() {
    assert!(Role::User < Role::Ai);
    assert_eq!(Role::User.partial_cmp(&Role::Ai), Some(Ordering::Less));
    assert_eq!(Role::Ai.partial_cmp(&Role::User), Some(Ordering::Greater));
    assert_eq!(Role::Ai.partial_cmp(&Role::Ai), Some(Ordering::Equal));
    assert_eq!(Role::User.cmp(&Role::Ai), Ordering::Less);
}

#[test]
fn trim_takes_white_space_off_both_ends() {
    assert_eq!(trim("  hello  "), "hello");
    assert_eq!(trim("hello"), "hello");
    assert_eq!(trim("\t hello world\r\n"), "hello world");
    assert_eq!(trim("a"), "a");
    assert_eq!(trim(" a"), "a");
    assert_eq!(trim("a "), "a");
}

#[test]
fn trim_leaves_nothing_of_a_blank_text() {
    assert_eq!(trim(""), "");
    assert_eq!(trim("   "), "");
    assert_eq!(trim(" \t\n\r"), "");
    assert_eq!(trim("\u{a0}\u{2003}\u{3000}"), "");
}

#[test]
fn trim_agrees_with_the_standard_library() {
    let samples = [
        "",
        " ",
        "x",
        "  x y  ",
        "\u{a0}gr\u{fc}\u{df}e \u{2003}",
        "\u{200b}zero width\u{200b}",
        " \u{1f600} ",
        "\n\n line \n two \n\n",
    ];
    for sample in samples {
        assert_eq!(trim(sample), sample.trim());
    }
}

#[test]
fn texts_compare_by_code_point() {
    assert_eq!(compare_text("", ""), Ordering::Equal);
    assert_eq!(compare_text("", "a"), Ordering::Less);
    assert_eq!(compare_text("a", ""), Ordering::Greater);
    assert_eq!(compare_text("abc", "abd"), Ordering::Less);
    assert_eq!(compare_text("abc", "ab"), Ordering::Greater);
    assert_eq!(compare_text("Z", "a"), Ordering::Less);
    assert_eq!(compare_text("\u{e9}", "z"), Ordering::Greater);
    assert_eq!(compare_text("\u{ffff}", "\u{10000}"), Ordering::Less);
}

#[test]
fn text_comparison_agrees_with_the_standard_library() {
    let samples = ["", "a", "ab", "b", "B", "\u{e9}", "\u{ffff}", "\u{10000}", "ab\u{e9}", "abz"];
    for left in samples {
        for right in samples {
            assert_eq!(compare_text(left, right), left.cmp(right));
        }
    }
}

#[test]
fn messages_compare_by_role_first() {
    let user = message(Role::User, "zzz", 9);
    let ai = message(Role::Ai, "aaa", 1);
    assert_eq!(user.partial_cmp(&ai), Some(Ordering::Less));
    assert_eq!(ai.partial_cmp(&user), Some(Ordering::Greater));
    assert!(user < ai);
}

#[test]
fn messages_of_one_role_compare_by_content_then_identifier() {
    let first = message(Role::User, "apple", 9);
    let second = message(Role::User, "pear", 1);
    assert_eq!(first.partial_cmp(&second), Some(Ordering::Less));
    let low = message(Role::User, "pear", 1);
    let high = message(Role::User, "pear", 2);
    assert_eq!(low.partial_cmp(&high), Some(Ordering::Less));
    assert_eq!(high.partial_cmp(&low), Some(Ordering::Greater));
    assert_eq!(low.partial_cmp(&second), Some(Ordering::Equal));
}

#[test]
fn the_order_by_hand_agrees_with_the_total_order() {
    let all = [
        message(Role::User, "", 0),
        message(Role::User, "a", 5),
        message(Role::User, "a", 6),
        message(Role::User, "b", 1),
        message(Role::Ai, "", 0),
        message(Role::Ai, "a", u128::MAX),
    ];
    for left in &all {
        for right in &all {
            assert_eq!(left.partial_cmp(right), Some(left.cmp(right)));
            assert_eq!(left == right, left.cmp(right) == Ordering::Equal);
        }
    }
}

#[test]
fn messages_are_equal_when_all_three_fields_are() {
    let one = message(Role::User, "hi", 7);
    assert_eq!(one, message(Role::User, "hi", 7));
    assert_ne!(one, message(Role::Ai, "hi", 7));
    assert_ne!(one, message(Role::User, "ho", 7));
    assert_ne!(one, message(Role::User, "hi", 8));
    assert_eq!(one.clone(), one);
}

#[test]
fn a_new_message_has_a_time_ordered_identifier() {
    let made = Message::new(Role::Ai, "x".to_string());
    assert_eq!(made.role, Role::Ai);
    assert_eq!(made.content, "x");
    assert_eq!((made.uuid >> 76) & 0xf, 7);
    assert_eq!((made.uuid >> 62) & 0x3, 2);
}

#[test]
fn identifiers_made_in_sequence_are_distinct_and_ascend() {
    let mut last = Message::new(Role::User, String::new()).uuid;
    for _ in 0..200 {
        let next = Message::new(Role::User, String::new()).uuid;
        assert!(last < next);
        assert_ne!(last, next);
        last = next;
    }
}

#[test]
fn an_identifier_carries_the_time_of_its_making() {
    let before = std::time::SystemTime::now()
        .duration_since(std::time::UNIX_EPOCH)
        .unwrap()
        .as_millis();
    let made = Message::new(Role::User, String::new()).uuid;
    let carried = made >> 80;
    assert!(carried + 1000 >= before);
    assert!(carried <= before + 60_000);
}

#[test]
fn white_space_is_what_the_standard_library_says() {
    let marked = |c: char| {
        matches!(
            c,
            '\u{9}'..='\u{d}'
                | '\u{20}'
                | '\u{85}'
                | '\u{a0}'
                | '\u{1680}'
                | '\u{2000}'..='\u{200a}'
                | '\u{2028}'
                | '\u{2029}'
                | '\u{202f}'
                | '\u{205f}'
                | '\u{3000}'
        )
    };
    let mut count = 0;
    for c in '\u{0}'..=char::MAX {
        assert_eq!(c.is_whitespace(), marked(c));
        if marked(c) {
            count += 1;
        }
    }
    assert_eq!(count, 25);
}

#[test]
fn trim_drops_each_white_space_character_and_no_other() {
    let mut buffer = [0u8; 4];
    for c in '\u{0}'..=char::MAX {
        let alone = trim(c.encode_utf8(&mut buffer));
        assert_eq!(alone.is_empty(), c.is_whitespace());
    }
    assert_eq!(trim("\u{1680}x\u{205f}"), "x");
    assert_eq!(trim("\u{180e}x\u{200b}"), "\u{180e}x\u{200b}");
}

#[test]
fn a_message_is_made_round_the_identifier_given() {
    let made = Message::with_id(Role::User, "hi".to_string(), 77);
    assert_eq!(made, message(Role::User, "hi", 77));
    let other = Message::with_id(Role::Ai, String::new(), u128::MAX);
    assert_eq!(other, message(Role::Ai, "", u128::MAX));
}
