use differ::commands::{get_queue_length, submit_comment};
use differ::state::CommentQueue;
use std::sync::Arc;
use tokio::sync::Mutex;

#[test]
fn test_enqueue_dequeue() {
    let mut queue = CommentQueue::new();
    let id = queue.enqueue(
        "src/main.rs".into(),
        10,
        12,
        "let x = 1;".into(),
        "Use a constant".into(),
    );
    assert_eq!(id, 1);
    assert_eq!(queue.len(), 1);

    let comment = queue.dequeue().unwrap();
    assert_eq!(comment.id, 1);
    assert_eq!(comment.file, "src/main.rs");
    assert_eq!(comment.start_line, 10);
    assert_eq!(comment.end_line, 12);
    assert_eq!(comment.comment, "Use a constant");
    assert_eq!(queue.len(), 0);
}

#[test]
fn test_fifo_order() {
    let mut queue = CommentQueue::new();
    queue.enqueue("a.rs".into(), 1, 1, "".into(), "first".into());
    queue.enqueue("b.rs".into(), 2, 2, "".into(), "second".into());

    assert_eq!(queue.dequeue().unwrap().comment, "first");
    assert_eq!(queue.dequeue().unwrap().comment, "second");
    assert!(queue.dequeue().is_none());
}

#[test]
fn test_dequeue_empty() {
    let mut queue = CommentQueue::new();
    assert!(queue.dequeue().is_none());
    assert_eq!(queue.len(), 0);
}

#[test]
fn test_ids_increment() {
    let mut queue = CommentQueue::new();
    let id1 = queue.enqueue("a.rs".into(), 1, 1, "".into(), "a".into());
    let id2 = queue.enqueue("b.rs".into(), 1, 1, "".into(), "b".into());
    assert_eq!(id1, 1);
    assert_eq!(id2, 2);
}

#[test]
fn test_enqueue_keeps_every_field() {
    let mut queue = CommentQueue::new();
    queue.enqueue("lib.rs".into(), 7, 9, "fn f() {}".into(), "rename f".into());
    let comment = queue.dequeue().unwrap();
    assert_eq!(comment.id, 1);
    assert_eq!(comment.file, "lib.rs");
    assert_eq!(comment.start_line, 7);
    assert_eq!(comment.end_line, 9);
    assert_eq!(comment.code_context, "fn f() {}");
    assert_eq!(comment.comment, "rename f");
}

#[test]
fn test_ids_count_up_across_dequeues() {
    let mut queue = CommentQueue::new();
    let mut issued: Vec<u64> = Vec::new();
    for round in 0..20u32 {
        issued.push(queue.enqueue("a.rs".into(), round, round, "".into(), "x".into()));
        if round % 3 == 0 {
            queue.dequeue();
            queue.dequeue();
        }
    }
    let expected: Vec<u64> = (1..=20).collect();
    assert_eq!(issued, expected);
}

#[test]
fn test_ids_not_reused_after_drain() {
    let mut queue = CommentQueue::new();
    assert_eq!(queue.enqueue("a.rs".into(), 1, 1, "".into(), "a".into()), 1);
    assert_eq!(queue.dequeue().unwrap().id, 1);
    assert!(queue.dequeue().is_none());
    assert_eq!(queue.enqueue("b.rs".into(), 1, 1, "".into(), "b".into()), 2);
    assert_eq!(queue.dequeue().unwrap().id, 2);
}

#[test]
fn test_submit_then_drain_leaves_nothing() {
    let mut queue = CommentQueue::new();
    for i in 0..5u32 {
        queue.enqueue(format!("f{}.rs", i), i, i + 1, "".into(), format!("c{}", i));
    }
    assert_eq!(queue.len(), 5);
    for i in 0..5u32 {
        let comment = queue.dequeue().unwrap();
        assert_eq!(comment.id, u64::from(i) + 1);
        assert_eq!(comment.comment, format!("c{}", i));
        assert_eq!(queue.len(), (4 - i) as usize);
    }
    assert_eq!(queue.len(), 0);
    assert!(queue.dequeue().is_none());
    assert!(queue.dequeue().is_none());
}

#[test]
fn test_delivered_and_pending_add_up() {
    let mut queue = CommentQueue::new();
    let mut delivered: Vec<u64> = Vec::new();
    for i in 0..10u32 {
        queue.enqueue("a.rs".into(), i, i, "".into(), "x".into());
        if i % 2 == 1 {
            delivered.push(queue.dequeue().unwrap().id);
        }
    }
    assert_eq!(delivered.len() + queue.len(), 10);
    while let Some(comment) = queue.dequeue() {
        delivered.push(comment.id);
    }
    let expected: Vec<u64> = (1..=10).collect();
    assert_eq!(delivered, expected);
}

#[test]
fn test_submit_comment_and_queue_length() {
    let mut queue = CommentQueue::new();
    assert_eq!(get_queue_length(&queue), Ok(0));
    let first = submit_comment("a.rs".into(), 9, 3, "ctx".into(), "odd range".into(), &mut queue);
    assert_eq!(first, Ok(1));
    let second = submit_comment("b.rs".into(), 0, 0, "".into(), "".into(), &mut queue);
    assert_eq!(second, Ok(2));
    assert_eq!(get_queue_length(&queue), Ok(2));
    let comment = queue.dequeue().unwrap();
    assert_eq!((comment.start_line, comment.end_line), (9, 3));
    assert_eq!(get_queue_length(&queue), Ok(1));
}

#[test]
fn test_concurrent_submits_get_distinct_ids() {
    let runtime = tokio::runtime::Builder::new_multi_thread().worker_threads(4).build().unwrap();
    let queue = Arc::new(Mutex::new(CommentQueue::new()));
    let mut issued: Vec<u64> = runtime.block_on(async {
        let mut workers = Vec::new();
        for w in 0..4u32 {
            let queue = Arc::clone(&queue);
            workers.push(tokio::spawn(async move {
                let mut ids: Vec<u64> = Vec::new();
                for i in 0..50u32 {
                    let mut guard = queue.lock().await;
                    ids.push(guard.enqueue(format!("w{}.rs", w), i, i, "".into(), "x".into()));
                    drop(guard);
                    tokio::task::yield_now().await;
                }
                ids
            }));
        }
        let mut all: Vec<u64> = Vec::new();
        for worker in workers {
            all.extend(worker.await.unwrap());
        }
        all
    });
    issued.sort();
    let expected: Vec<u64> = (1..=200).collect();
    assert_eq!(issued, expected);

    let mut guard = queue.blocking_lock();
    assert_eq!(guard.len(), 200);
    let mut delivered: Vec<u64> = Vec::new();
    while let Some(comment) = guard.dequeue() {
        delivered.push(comment.id);
    }
    assert_eq!(delivered, expected);
}

#[test]
fn test_submissions_only_number_in_order() {
    let mut queue = CommentQueue::new();
    for i in 0..25u32 {
        let id = submit_comment(format!("f{}.rs", i), i, i, "".into(), format!("c{}", i), &mut queue);
        assert_eq!(id, Ok(u64::from(i) + 1));
        assert_eq!(get_queue_length(&queue), Ok(i as usize + 1));
    }
    for i in 0..25u32 {
        let comment = queue.dequeue().unwrap();
        assert_eq!(comment.id, u64::from(i) + 1);
        assert_eq!(comment.file, format!("f{}.rs", i));
    }
}
