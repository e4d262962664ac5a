use research_jobs::bus::{Channel, EventBus, CHANNEL_CAPACITY};
use research_jobs::events::progress_event;
use research_jobs::models::SseEvent;
use research_jobs::registry::Registry;
use research_jobs::table::Table;
use tokio::sync::broadcast::error::TryRecvError;

fn numbered(n: i32) -> SseEvent {
    progress_event("k", "t", n)
}

fn progress_of(received: Result<SseEvent, TryRecvError>) -> i32 {
    received.unwrap().progress.unwrap()
}

#[test]
fn a_channel_hands_out_events_in_order() {
    let mut channel = Channel::new();
    let mut a = channel.subscribe();
    assert_eq!(a.try_recv(), Err(TryRecvError::Empty));
    channel.publish(numbered(1));
    channel.publish(numbered(2));
    let mut b = channel.subscribe();
    channel.publish(numbered(3));
    assert_eq!(progress_of(a.try_recv()), 1);
    assert_eq!(progress_of(a.try_recv()), 2);
    assert_eq!(progress_of(a.try_recv()), 3);
    assert_eq!(a.try_recv(), Err(TryRecvError::Empty));
    assert_eq!(progress_of(b.try_recv()), 3);
    assert_eq!(b.try_recv(), Err(TryRecvError::Empty));
}

#[test]
fn a_channel_keeps_at_least_a_hundred_events() {
    assert_eq!(CHANNEL_CAPACITY, 100);
    let mut channel = Channel::new();
    let mut s = channel.subscribe();
    for n in 0..100 {
        channel.publish(numbered(n));
    }
    for n in 0..100 {
        assert_eq!(progress_of(s.try_recv()), n);
    }
    assert_eq!(s.try_recv(), Err(TryRecvError::Empty));
}

#[test]
fn a_slow_subscriber_loses_the_oldest_events() {
    let mut channel = Channel::new();
    let mut slow = channel.subscribe();
    let mut quick = channel.subscribe();
    for n in 0..1000 {
        channel.publish(numbered(n));
        assert_eq!(progress_of(quick.try_recv()), n);
    }
    let missed = match slow.try_recv() {
        Err(TryRecvError::Lagged(missed)) => missed as i32,
        other => panic!("unexpected {other:?}"),
    };
    assert!(missed > 0 && missed <= 900);
    assert_eq!(progress_of(slow.try_recv()), missed);
    assert_eq!(progress_of(slow.try_recv()), missed + 1);
}

#[test]
fn publishing_without_subscribers_never_fails() {
    let mut channel = Channel::new();
    for n in 0..1000 {
        channel.publish(numbered(n));
    }
    let mut s = channel.subscribe();
    assert_eq!(s.try_recv(), Err(TryRecvError::Empty));
    channel.publish(numbered(7));
    assert_eq!(progress_of(s.try_recv()), 7);
}

#[test]
fn the_bus_keeps_one_channel_for_each_job() {
    let mut bus = EventBus::new();
    assert!(!bus.has_channel("a"));
    assert!(!bus.publish("a", numbered(1)));
    assert!(bus.subscribe("a").is_none());

    bus.create_channel("a");
    bus.create_channel("b");
    assert!(bus.has_channel("a"));
    let mut sa = bus.subscribe("a").unwrap();
    let mut sb = bus.subscribe("b").unwrap();
    assert!(bus.publish("a", numbered(1)));
    assert_eq!(progress_of(sa.try_recv()), 1);
    assert_eq!(sb.try_recv(), Err(TryRecvError::Empty));
    assert!(bus.publish("b", numbered(2)));
    assert_eq!(progress_of(sb.try_recv()), 2);
    assert_eq!(sa.try_recv(), Err(TryRecvError::Empty));

    assert!(bus.evict("a"));
    assert!(!bus.evict("a"));
    assert!(!bus.has_channel("a"));
    assert!(bus.has_channel("b"));
    assert_eq!(sa.try_recv(), Err(TryRecvError::Closed));
    assert!(!bus.publish("a", numbered(3)));
}

#[test]
fn a_fresh_channel_replaces_the_old_one() {
    let mut bus = EventBus::new();
    bus.create_channel("a");
    let mut old = bus.subscribe("a").unwrap();
    bus.publish("a", numbered(1));
    bus.create_channel("a");
    let mut new = bus.subscribe("a").unwrap();
    bus.publish("a", numbered(2));
    assert_eq!(progress_of(old.try_recv()), 1);
    assert_eq!(old.try_recv(), Err(TryRecvError::Closed));
    assert_eq!(progress_of(new.try_recv()), 2);
}

#[test]
fn the_registry_holds_one_handle_for_each_job() {
    let mut registry: Registry<String> = Registry::new();
    assert!(!registry.is_active("a"));
    assert_eq!(registry.register("a", "h1".to_string()), None);
    assert!(registry.is_active("a"));
    assert_eq!(registry.register("a", "h2".to_string()), Some("h1".to_string()));
    assert_eq!(registry.register("b", "h3".to_string()), None);
    assert_eq!(registry.take("a"), Some("h2".to_string()));
    assert_eq!(registry.take("a"), None);
    assert!(!registry.is_active("a"));
    assert!(registry.is_active("b"));
}

#[test]
fn the_table_is_a_map() {
    let mut table: Table<i32> = Table::new();
    assert_eq!(table.get("x"), None);
    assert!(!table.contains_key("x"));
    assert_eq!(table.insert("x".to_string(), 1), None);
    assert_eq!(table.insert("y".to_string(), 2), None);
    assert_eq!(table.insert("x".to_string(), 3), Some(1));
    assert_eq!(table.get("x"), Some(&3));
    assert_eq!(table.get("y"), Some(&2));
    assert_eq!(table.remove("x"), Some(3));
    assert_eq!(table.remove("x"), None);
    assert_eq!(table.get("y"), Some(&2));
    assert!(table.contains_key("y"));
    assert_eq!(table.insert("".to_string(), 0), None);
    assert_eq!(table.get(""), Some(&0));
}
