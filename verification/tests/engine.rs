//! Configuration, startup stamping, conversion, and the tick engine.

use bevy_discord_presence::apply_startup;
use bevy_discord_presence::new_client;
use bevy_discord_presence::plan_tick;
use bevy_discord_presence::startup_client;
use bevy_discord_presence::tick;
use bevy_discord_presence::Activity;
use bevy_discord_presence::ActivityAssets;
use bevy_discord_presence::ActivityButton;
use bevy_discord_presence::ActivityParty;
use bevy_discord_presence::ActivitySecrets;
use bevy_discord_presence::ActivityState;
use bevy_discord_presence::ActivityTimestamps;
use bevy_discord_presence::ChangeTracker;
use bevy_discord_presence::Event;
use bevy_discord_presence::RPCConfig;
use bevy_discord_presence::RPCPlugin;
use bevy_discord_presence::DEFAULT_APP_ID;

#[test]
fn default_config_shows_time_with_stock_app_id() {
    let config = RPCConfig::default();
    assert_eq!(config.app_id, DEFAULT_APP_ID);
    assert_eq!(config.app_id, 425407036495495169);
    assert!(config.show_time);
}

#[test]
fn plugin_constructors_carry_the_config() {
    let p = RPCPlugin::new(7, false);
    assert_eq!(p.config.app_id, 7);
    assert!(!p.config.show_time);
    let config = RPCConfig { app_id: 9, show_time: true };
    let q = RPCPlugin::from_config(config);
    assert_eq!(q.config, config);
    let r = RPCPlugin::from(config);
    assert_eq!(r.config, config);
}

#[test]
fn default_snapshot_displays_nothing() {
    let s = ActivityState::default();
    assert_eq!(s.state, None);
    assert_eq!(s.details, None);
    assert_eq!(s.instance, None);
    assert_eq!(s.timestamps, None);
    assert_eq!(s.assets, None);
    assert_eq!(s.party, None);
    assert_eq!(s.secrets, None);
    assert!(s.buttons.is_empty());
    assert_eq!(s.events.respond(), None);
}

#[test]
fn startup_stamps_start_and_leaves_end_unset() {
    let client = new_client(11);
    let mut s = ActivityState::default();
    let config = RPCConfig { app_id: 11, show_time: true };
    startup_client(&client, &mut s, &config, 1234567);
    assert_eq!(
        s.timestamps,
        Some(ActivityTimestamps { start: Some(1234567), end: None })
    );
    // The snapshot's queue is still the same, working queue.
    s.events.push(Event::Ready);
    assert_eq!(s.events.respond(), Some(Event::Ready));
}

#[test]
fn startup_without_show_time_leaves_timestamps_alone() {
    let client = new_client(11);
    let mut s = ActivityState::default();
    let config = RPCConfig { app_id: 11, show_time: false };
    startup_client(&client, &mut s, &config, 1234567);
    assert_eq!(s.timestamps, None);
}

#[test]
fn apply_startup_overwrites_an_earlier_stamp() {
    let mut s = ActivityState::default();
    s.timestamps = Some(ActivityTimestamps { start: Some(1), end: Some(2) });
    apply_startup(&mut s, true, 50);
    assert_eq!(s.timestamps, Some(ActivityTimestamps { start: Some(50), end: None }));
}

fn full_snapshot() -> ActivityState {
    let mut s = ActivityState::default();
    s.state = Some("In a match".to_string());
    s.details = Some("Ranked".to_string());
    s.instance = Some(true);
    s.timestamps = Some(ActivityTimestamps { start: Some(10), end: Some(20) });
    s.assets = Some(ActivityAssets {
        large_image: Some("map".to_string()),
        large_text: Some("The map".to_string()),
        small_image: None,
        small_text: None,
    });
    s.party = Some(ActivityParty { id: Some("party-1".to_string()), size: Some((2, 5)) });
    s.secrets = Some(ActivitySecrets {
        join: Some("join-code".to_string()),
        spectate: None,
        game: None,
    });
    s.buttons = vec![
        ActivityButton { label: Some("Join".to_string()), url: Some("https://example.test".to_string()) },
    ];
    s
}

fn assert_is_wire_of(w: &Activity, s: &ActivityState) {
    assert_eq!(w.state, s.state);
    assert_eq!(w.details, s.details);
    assert_eq!(w.instance, s.instance);
    assert_eq!(w.timestamps, s.timestamps);
    assert_eq!(w.assets, s.assets);
    assert_eq!(w.party, s.party);
    assert_eq!(w.secrets, s.secrets);
    assert_eq!(w.buttons, s.buttons);
}

#[test]
fn conversion_copies_every_descriptive_field() {
    let s = full_snapshot();
    let copied = s.to_wire();
    assert_is_wire_of(&copied, &s);
    let moved = Activity::from(s);
    assert_eq!(moved, copied);
}

#[test]
fn unchanged_snapshot_is_not_resubmitted() {
    // Two consecutive ticks over an unchanged snapshot submit at most
    // once in total.
    let s = full_snapshot();
    let mut tracker = ChangeTracker::new();
    let first = tick(&mut tracker, 1, &s);
    assert!(first.is_some());
    assert_is_wire_of(&first.unwrap(), &s);
    let second = tick(&mut tracker, 1, &s);
    assert!(second.is_none());
}

#[test]
fn failed_submission_is_not_retried_until_mutation() {
    let mut s = full_snapshot();
    let mut tracker = ChangeTracker::new();
    let _ = tick(&mut tracker, 1, &s);
    // The snapshot is mutated between the first and the second tick:
    // the second tick submits exactly once.
    s.details = Some("Lobby".to_string());
    let attempt = tick(&mut tracker, 2, &s);
    assert!(attempt.is_some());
    // Suppose that submission failed: with no further mutation the
    // next tick must not re-attempt it.
    let after_failure = tick(&mut tracker, 2, &s);
    assert!(after_failure.is_none());
    // Only the next mutation triggers a new attempt.
    s.details = Some("Back in a match".to_string());
    let retried = tick(&mut tracker, 3, &s);
    assert!(retried.is_some());
}

#[test]
fn plan_tick_is_a_noop_without_change() {
    let s = full_snapshot();
    assert!(plan_tick(false, &s).is_none());
    let submitted = plan_tick(true, &s);
    assert_is_wire_of(&submitted.unwrap(), &s);
}
