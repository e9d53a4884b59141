//! The event queue: drain order, targeted removal, clearing.

use bevy_discord_presence::Event;
use bevy_discord_presence::Events;

#[test]
fn fifo_order_is_preserved() {
    let mut q = Events::new();
    q.push(Event::Ready);
    q.push(Event::Connected);
    q.push(Event::Error);
    assert_eq!(q.respond(), Some(Event::Ready));
    assert_eq!(q.respond(), Some(Event::Connected));
    assert_eq!(q.respond(), Some(Event::Error));
    assert_eq!(q.respond(), None);
}

#[test]
fn tail_drain_returns_newest_first() {
    let mut q = Events::new();
    q.push(Event::Ready);
    q.push(Event::Connected);
    q.push(Event::Error);
    assert_eq!(q.respond_latest(), Some(Event::Error));
    assert_eq!(q.respond_latest(), Some(Event::Connected));
    assert_eq!(q.respond_latest(), Some(Event::Ready));
    assert_eq!(q.respond_latest(), None);
}

fn two_duplicates() -> Events {
    // The shape [a, x, b, x, c] with x the duplicated kind.
    let mut q = Events::new();
    q.push(Event::Ready);
    q.push(Event::Error);
    q.push(Event::Connected);
    q.push(Event::Error);
    q.push(Event::Disconnected);
    q
}

#[test]
fn respond_specific_removes_first_occurrence() {
    let mut q = two_duplicates();
    assert!(q.respond_specific(Event::Error));
    // [a, b, x, c] is left, in order.
    assert_eq!(q.respond(), Some(Event::Ready));
    assert_eq!(q.respond(), Some(Event::Connected));
    assert_eq!(q.respond(), Some(Event::Error));
    assert_eq!(q.respond(), Some(Event::Disconnected));
    assert_eq!(q.respond(), None);
}

#[test]
fn respond_specific_twice_removes_both_occurrences() {
    let mut q = two_duplicates();
    assert!(q.respond_specific(Event::Error));
    assert!(q.respond_specific(Event::Error));
    // [a, b, c] is left, in order.
    assert_eq!(q.respond(), Some(Event::Ready));
    assert_eq!(q.respond(), Some(Event::Connected));
    assert_eq!(q.respond(), Some(Event::Disconnected));
    assert_eq!(q.respond(), None);
}

#[test]
fn respond_specific_miss_leaves_queue_unchanged() {
    let mut q = two_duplicates();
    assert!(q.respond_specific(Event::Error));
    assert!(q.respond_specific(Event::Error));
    assert!(!q.respond_specific(Event::Error));
    // Still [a, b, c], untouched by the miss.
    assert_eq!(q.respond(), Some(Event::Ready));
    assert_eq!(q.respond(), Some(Event::Connected));
    assert_eq!(q.respond(), Some(Event::Disconnected));
    assert_eq!(q.respond(), None);
}

#[test]
fn clear_empties_a_nonempty_queue() {
    let mut q = Events::new();
    q.push(Event::Ready);
    q.push(Event::Ready);
    q.push(Event::Error);
    q.clear();
    assert_eq!(q.respond(), None);
    assert_eq!(q.respond_latest(), None);
    assert!(!q.respond_specific(Event::Ready));
}

#[test]
fn empty_queue_drains_nothing() {
    let mut q = Events::new();
    assert_eq!(q.respond(), None);
    assert_eq!(q.respond_latest(), None);
    assert!(!q.respond_specific(Event::Connected));
}

#[test]
fn all_lists_every_kind_once_in_order() {
    let all = Event::all();
    assert_eq!(
        all,
        vec![
            Event::Ready,
            Event::Connected,
            Event::Disconnected,
            Event::Error,
            Event::ActivityJoin,
            Event::ActivitySpectate,
            Event::ActivityJoinRequest,
        ]
    );
}
