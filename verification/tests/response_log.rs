use syndicode::client::response::{classify_game_update, DomainResponse, GameUpdateKind, ResponseType};
use syndicode::client::response_list::{ResponseListWidget, MAX_RESPONSES};
use syndicode::client::text::compact_message;
use time::OffsetDateTime;

fn response(kind: ResponseType, code: &str) -> DomainResponse {
    DomainResponse {
        response_type: kind,
        code: code.to_string(),
        message: format!("message {code}"),
        timestamp: OffsetDateTime::UNIX_EPOCH,
    }
}

fn codes(list: &ResponseListWidget) -> Vec<String> {
    list.responses.iter().map(|r| r.code.clone()).collect()
}

#[test]
fn new_log_is_empty() {
    let list = ResponseListWidget::new();
    assert!(list.responses.is_empty());
    assert!(list.get_response(0, false).is_none());
    assert_eq!(list.visible_count(false), 0);
    let default_list = ResponseListWidget::default();
    assert!(default_list.responses.is_empty());
}

#[test]
fn push_puts_newest_first() {
    let mut list = ResponseListWidget::new();
    list.push(response(ResponseType::Info, "a"));
    list.push(response(ResponseType::Success, "b"));
    list.push(response(ResponseType::Error, "c"));
    assert_eq!(codes(&list), vec!["c", "b", "a"]);
    assert_eq!(list.get_response(0, false).unwrap().code, "c");
    assert_eq!(list.get_response(2, false).unwrap().code, "a");
    assert!(list.get_response(3, false).is_none());
}

#[test]
fn hidden_game_ticks_are_skipped_when_indexing() {
    let mut list = ResponseListWidget::new();
    list.push(response(ResponseType::Info, "a"));
    list.push(response(ResponseType::GameTickeNotification, "t1"));
    list.push(response(ResponseType::Success, "b"));
    list.push(response(ResponseType::GameTickeNotification, "t2"));
    // newest first: t2, b, t1, a
    assert_eq!(list.get_response(0, true).unwrap().code, "b");
    assert_eq!(list.get_response(1, true).unwrap().code, "a");
    assert!(list.get_response(2, true).is_none());
    assert_eq!(list.get_response(0, false).unwrap().code, "t2");
    assert_eq!(list.get_response(2, false).unwrap().code, "t1");
    assert_eq!(list.visible_count(true), 2);
    assert_eq!(list.visible_count(false), 4);
}

#[test]
fn full_log_drops_oldest_game_tick_first() {
    let mut list = ResponseListWidget::new();
    list.push(response(ResponseType::Info, "oldest"));
    list.push(response(ResponseType::GameTickeNotification, "tick-old"));
    list.push(response(ResponseType::GameTickeNotification, "tick-new"));
    for i in 0..(MAX_RESPONSES - 3) {
        list.push(response(ResponseType::Info, &format!("r{i}")));
    }
    assert_eq!(list.responses.len(), MAX_RESPONSES);
    list.push(response(ResponseType::Success, "newest"));
    assert_eq!(list.responses.len(), MAX_RESPONSES);
    let all = codes(&list);
    assert_eq!(all[0], "newest");
    assert!(!all.contains(&"tick-old".to_string()));
    assert!(all.contains(&"tick-new".to_string()));
    assert!(all.contains(&"oldest".to_string()));
}

#[test]
fn full_log_without_game_ticks_drops_oldest() {
    let mut list = ResponseListWidget::new();
    for i in 0..MAX_RESPONSES {
        list.push(response(ResponseType::Info, &format!("r{i}")));
    }
    list.push(response(ResponseType::Error, "newest"));
    assert_eq!(list.responses.len(), MAX_RESPONSES);
    let all = codes(&list);
    assert_eq!(all[0], "newest");
    assert_eq!(all[MAX_RESPONSES - 1], "r1");
    assert!(!all.contains(&"r0".to_string()));
}

#[test]
fn log_grows_by_one_below_the_bound() {
    let mut list = ResponseListWidget::new();
    for i in 0..10 {
        list.push(response(ResponseType::Info, &format!("r{i}")));
        assert_eq!(list.responses.len(), i + 1);
    }
}

#[test]
fn compact_message_joins_words_with_single_spaces() {
    assert_eq!(compact_message("  hello \n\t world  "), "hello world");
    assert_eq!(compact_message("GameUpdate {\n    update: Some(\n        Tick,\n    ),\n}"), "GameUpdate { update: Some( Tick, ), }");
    assert_eq!(compact_message(""), "");
    assert_eq!(compact_message(" \n "), "");
    assert_eq!(compact_message("one"), "one");
    assert_eq!(compact_message("a\u{3000}b"), "a b");
    assert_eq!(compact_message("a\u{200b}b"), "a\u{200b}b");
    assert_eq!(compact_message("a\u{85}\u{a0}b"), "a b");
}

#[test]
fn game_updates_are_classified() {
    assert_eq!(classify_game_update(GameUpdateKind::TickNotification), (ResponseType::GameTickeNotification, "OK"));
    assert_eq!(classify_game_update(GameUpdateKind::ActionFailed), (ResponseType::Error, "ERR"));
    assert_eq!(classify_game_update(GameUpdateKind::Other), (ResponseType::Info, "OK"));
}

#[test]
fn game_tick_detection() {
    assert!(response(ResponseType::GameTickeNotification, "t").is_game_tick_notification());
    assert!(!response(ResponseType::Info, "i").is_game_tick_notification());
}

#[test]
fn list_item_texts() {
    let mut r = response(ResponseType::Error, "ERR");
    r.message = "  bad \n  request ".to_string();
    assert!(ResponseListWidget::create_list_item(&r, 0, Some("12:00:00 ".to_string())).is_none());
    let t = ResponseListWidget::create_list_item(&r, 10, Some("12:00:00 ".to_string())).unwrap();
    assert_eq!(t.timestamp, "12:00:00 ");
    assert_eq!(t.icon, "✗  ");
    assert_eq!(t.code, "ERR");
    assert_eq!(t.message, "bad request");
    let t = ResponseListWidget::create_list_item(&response(ResponseType::Success, "OK"), 1, None).unwrap();
    assert_eq!(t.timestamp, "TimeErr ");
    assert_eq!(t.icon, "✓  ");
    let t = ResponseListWidget::create_list_item(&response(ResponseType::GameTickeNotification, "OK"), 1, None).unwrap();
    assert_eq!(t.icon, "ℹ  ");
    assert_eq!(ResponseListWidget::item_content_width(2), 0);
    assert_eq!(ResponseListWidget::item_content_width(40), 37);
}

#[test]
fn whitespace_is_what_the_standard_library_calls_whitespace() {
    for u in 0u32..=0x3100 {
        if let Some(c) = char::from_u32(u) {
            let text = format!("a{}b", c);
            let expected = if c.is_whitespace() { "a b".to_string() } else { text.clone() };
            assert_eq!(compact_message(&text), expected, "code point {:#x}", u);
        }
    }
}
