use gs_slack_bot::bot_cmd::{BotTask, SlackMessageContext};
use gs_slack_bot::queue::{TaskQueue, QUEUE_CAPACITY};

fn task(ts: &str) -> BotTask {
    BotTask {
        message_context: SlackMessageContext {
            channel: String::from("C0123456789"),
            ts: String::from(ts),
            thread_ts: None,
            real_name: String::from("jdoe"),
            is_admin: false,
            text: String::from("unrelated"),
        },
    }
}

#[test]
fn tasks_come_out_in_arrival_order() {
    let mut queue = TaskQueue::new();
    assert!(queue.try_push(task("1.000100")));
    assert!(queue.try_push(task("1.000200")));
    assert!(queue.try_push(task("1.000300")));
    assert_eq!(queue.len(), 3);

    let first = queue.pop_front().expect("queue holds three tasks");
    assert_eq!(first.message_context.ts, "1.000100");
    let second = queue.pop_front().expect("queue holds two tasks");
    assert_eq!(second.message_context.ts, "1.000200");
    let third = queue.pop_front().expect("queue holds one task");
    assert_eq!(third.message_context.ts, "1.000300");
    assert!(queue.pop_front().is_none());
    assert_eq!(queue.len(), 0);
}

#[test]
fn a_full_queue_refuses_the_next_task() {
    let mut queue = TaskQueue::new();
    for i in 0..QUEUE_CAPACITY {
        assert!(queue.try_push(task(&format!("1.{:06}", i))));
    }
    assert_eq!(queue.len(), QUEUE_CAPACITY);
    // The producer must hold the task and wait: nothing is dropped.
    assert!(!queue.try_push(task("1.999999")));
    assert_eq!(queue.len(), QUEUE_CAPACITY);

    // Room opens as soon as the dispatcher takes one task.
    let oldest = queue.pop_front().expect("queue was full");
    assert_eq!(oldest.message_context.ts, "1.000000");
    assert!(queue.try_push(task("1.999999")));
    assert_eq!(queue.len(), QUEUE_CAPACITY);
}

#[test]
fn popping_an_empty_queue_changes_nothing() {
    let mut queue = TaskQueue::new();
    assert!(queue.pop_front().is_none());
    assert_eq!(queue.len(), 0);
}
