use differ::mcp::{
    comment_reply, decimal_text, get_next_comment, get_queue_status, next_comment_description,
    queue_status_description, server_instructions, NextComment,
};
use differ::state::CommentQueue;

#[test]
fn test_next_comment_on_empty_queue_is_the_sentinel() {
    let mut queue = CommentQueue::new();
    match get_next_comment(&mut queue) {
        NextComment::Nothing(text) => assert_eq!(text, "No comments pending."),
        NextComment::Deliver(_) => panic!("nothing was pending"),
    }
    assert_eq!(queue.len(), 0);
    assert_eq!(queue.enqueue("a.rs".into(), 1, 1, "".into(), "a".into()), 1);
}

#[test]
fn test_next_comment_takes_exactly_one() {
    let mut queue = CommentQueue::new();
    queue.enqueue("a.rs".into(), 1, 2, "ctx".into(), "first".into());
    queue.enqueue("b.rs".into(), 3, 4, "ctx".into(), "second".into());
    match get_next_comment(&mut queue) {
        NextComment::Deliver(comment) => {
            assert_eq!(comment.id, 1);
            assert_eq!(comment.file, "a.rs");
            assert_eq!(comment.comment, "first");
        }
        NextComment::Nothing(_) => panic!("a comment was pending"),
    }
    assert_eq!(queue.len(), 1);
    match get_next_comment(&mut queue) {
        NextComment::Deliver(comment) => assert_eq!(comment.comment, "second"),
        NextComment::Nothing(_) => panic!("a comment was pending"),
    }
    assert_eq!(queue.len(), 0);
}

#[test]
fn test_comment_reply() {
    assert_eq!(comment_reply(Some("{\"id\": 1}".to_string())), "{\"id\": 1}");
    assert_eq!(comment_reply(None), "Serialization error");
}

#[test]
fn test_queue_status_body() {
    let mut queue = CommentQueue::new();
    assert_eq!(get_queue_status(&queue), "{\"pending\": 0}");
    for i in 0..12u32 {
        queue.enqueue("a.rs".into(), i, i, "".into(), "x".into());
    }
    assert_eq!(get_queue_status(&queue), "{\"pending\": 12}");
    assert_eq!(queue.len(), 12);
    queue.dequeue();
    assert_eq!(get_queue_status(&queue), "{\"pending\": 11}");
}

#[test]
fn test_decimal_text() {
    assert_eq!(decimal_text(0), "0");
    assert_eq!(decimal_text(7), "7");
    assert_eq!(decimal_text(10), "10");
    assert_eq!(decimal_text(1234567890), "1234567890");
    assert_eq!(decimal_text(usize::MAX), format!("{}", usize::MAX));
}

#[test]
fn test_advertised_texts() {
    assert!(server_instructions().contains("Process comments one at a time"));
    assert!(server_instructions().contains("oldest first"));
    assert!(next_comment_description().contains("removes exactly one comment"));
    assert!(next_comment_description().contains("in the order the comments were submitted"));
    assert!(server_instructions().starts_with("Differ review tool."));
    assert!(next_comment_description().starts_with("Get the next review comment from the queue."));
    assert_eq!(
        queue_status_description(),
        "Get the number of pending review comments in the queue. Nothing is removed."
    );
}
