use bloop_shell::decimal::decimal_text;
use bloop_shell::toasts::ToastQueue;
use bloop_shell::types::ToastType;

fn ids(q: &ToastQueue) -> Vec<String> {
    q.toasts().iter().map(|t| t.id.clone()).collect()
}

#[test]
fn pushes_keep_order_and_removal_keeps_the_rest() {
    let mut q = ToastQueue::new();
    let a = q.push(ToastType::Success, "saved".to_string()).unwrap();
    let b = q.push(ToastType::Error, "failed".to_string()).unwrap();
    let c = q.push(ToastType::Info, "note".to_string()).unwrap();
    assert_eq!(q.len(), 3);
    let kinds: Vec<ToastType> = q.toasts().iter().map(|t| t.toast_type).collect();
    assert_eq!(kinds, vec![ToastType::Success, ToastType::Error, ToastType::Info]);
    q.remove(&b);
    assert_eq!(q.len(), 2);
    assert_eq!(ids(&q), vec![a, c]);
    let kinds: Vec<ToastType> = q.toasts().iter().map(|t| t.toast_type).collect();
    assert_eq!(kinds, vec![ToastType::Success, ToastType::Info]);
    assert_eq!(q.toasts()[1].message, "note");
    assert_eq!(q.toasts()[1].duration, None);
}

#[test]
fn removing_twice_is_removing_once() {
    let mut q = ToastQueue::new();
    let a = q.push(ToastType::Warning, "w".to_string()).unwrap();
    let b = q.push(ToastType::Info, "i".to_string()).unwrap();
    q.remove(&a);
    let once = ids(&q);
    q.remove(&a);
    assert_eq!(ids(&q), once);
    assert_eq!(once, vec![b]);
}

#[test]
fn removing_an_unknown_id_changes_nothing() {
    let mut q = ToastQueue::new();
    q.push(ToastType::Info, "i".to_string()).unwrap();
    let before = ids(&q);
    q.remove(&"no-such-id".to_string());
    assert_eq!(ids(&q), before);
    let mut empty = ToastQueue::new();
    empty.remove(&"0".to_string());
    assert_eq!(empty.len(), 0);
}

#[test]
fn ids_are_decimal_counters_and_unique() {
    let mut q = ToastQueue::new();
    let mut seen = Vec::new();
    for i in 0..12u32 {
        let id = q.push(ToastType::Info, format!("m{}", i)).unwrap();
        assert_eq!(id, i.to_string());
        assert!(!seen.contains(&id));
        seen.push(id);
    }
    q.remove(&"11".to_string());
    let next = q.push(ToastType::Info, "again".to_string()).unwrap();
    assert_eq!(next, "12");
}

#[test]
fn decimal_text_values() {
    assert_eq!(decimal_text(0), "0");
    assert_eq!(decimal_text(7), "7");
    assert_eq!(decimal_text(10), "10");
    assert_eq!(decimal_text(1234), "1234");
    assert_eq!(decimal_text(u64::MAX), "18446744073709551615");
}
