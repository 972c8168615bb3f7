use swarmd::notify::{render_notification, Notification, NotifyQueue};

#[test]
fn alert_then_trace_leave_in_order() {
    // Enqueue Alert("a") then Trace("b"): the outbound channel receives
    // "a" before "b", with nothing slipped in between.
    let mut q = NotifyQueue::new(8);
    assert!(q.enqueue(Notification::Alert("a".to_string())));
    assert!(q.enqueue(Notification::Trace("b".to_string())));

    let first = q.dequeue().expect("queue holds two");
    let second = q.dequeue().expect("queue holds one");
    assert_eq!(render_notification(&first), "🚨 [ALERT] a");
    assert_eq!(render_notification(&second), "👁️ [TRACE] b");
    assert!(q.dequeue().is_none());
}

#[test]
fn rendering_carries_the_tag_prefix() {
    assert_eq!(
        render_notification(&Notification::Trace("agent idle".to_string())),
        "👁️ [TRACE] agent idle"
    );
    assert_eq!(
        render_notification(&Notification::Alert("store down".to_string())),
        "🚨 [ALERT] store down"
    );
}

#[test]
fn full_queue_refuses_with_observable_signal() {
    let mut q = NotifyQueue::new(2);
    assert!(q.enqueue(Notification::Trace("one".to_string())));
    assert!(q.enqueue(Notification::Trace("two".to_string())));
    // At the bound: the entry is refused, never buffered.
    assert!(!q.enqueue(Notification::Alert("three".to_string())));
    assert_eq!(q.len(), 2);
    let first = q.dequeue().unwrap();
    assert_eq!(render_notification(&first), "👁️ [TRACE] one");
    assert_eq!(q.len(), 1);
}
