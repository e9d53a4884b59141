//! A verified core for a Discord rich-presence plugin.
//!
//! The crate keeps a mutable description of the current activity (the
//! snapshot, [`ActivityState`]), collects asynchronous notifications
//! from the presence process in a thread-safe event queue, and decides
//! on each host tick whether the snapshot must be converted and
//! resubmitted to the presence client.
//!
//! The host runtime owns the snapshot and drives two entry points: a
//! startup step that stamps the elapsed-time marker and registers one
//! callback per [`Event`] kind, and a tick step that submits the wire
//! representation of the snapshot exactly when it has changed since
//! the last tick. A failed submission is reported and never retried
//! until the snapshot is mutated again.

use vstd::prelude::*;

mod client;
mod config;
mod state;

pub use client::new_client;
pub use client::register_event_handlers;

pub use config::DEFAULT_APP_ID;
pub use config::RPCConfig;
pub use config::RPCPlugin;
pub use state::Activity;
pub use state::ActivityAssets;
pub use state::ActivityButton;
pub use state::ActivityParty;
pub use state::ActivitySecrets;
pub use state::ActivityState;
pub use state::ActivityTimestamps;
pub use state::Event;
pub use state::Events;
pub use state::SharedEventQueue;
pub use state::after_back_response;
pub use state::after_front_response;
pub use state::after_pushes;
pub use state::after_specific_response;
pub use state::back_response;
pub use state::front_response;
pub use state::is_wire_of;
pub use state::lemma_clear_then_drain;
pub use state::lemma_fifo_order;
pub use state::lemma_lifo_order;
pub use state::lemma_pushes_append;
pub use state::lemma_wire_conversions_agree;
pub use state::wire_of;

verus! {

/// Startup entry point, minus the connection lifecycle: if the
/// configuration asks for an elapsed-time marker, stamp the snapshot's
/// start timestamp with the given wall-clock second count and leave
/// the end timestamp unset. Every other part of the snapshot is left
/// alone. The host performs the clock read, registers one queue-push
/// callback per [`Event`] kind (see [`Event::all`]) and then starts
/// the presence client's own connection lifecycle.
pub fn apply_startup(activity: &mut ActivityState, show_time: bool, now_secs: u64)
    ensures
        show_time ==> final(activity).timestamps == (Some(
            ActivityTimestamps { start: Some(now_secs), end: None },
        )),
        !show_time ==> final(activity).timestamps == old(activity).timestamps,
        final(activity).state == old(activity).state,
        final(activity).details == old(activity).details,
        final(activity).instance == old(activity).instance,
        final(activity).assets == old(activity).assets,
        final(activity).party == old(activity).party,
        final(activity).secrets == old(activity).secrets,
        final(activity).events == old(activity).events,
        final(activity).buttons == old(activity).buttons,
{
    if show_time {
        activity.timestamps = Some(ActivityTimestamps { start: Some(now_secs), end: None });
    }
}

/// The whole startup entry point, short of the transport: stamp the
/// elapsed-time marker as [`apply_startup`] does, then register one
/// queue-push callback per [`Event`] kind on the snapshot's own queue
/// with [`register_event_handlers`]. The host reads the clock for
/// `now_secs` beforehand and starts the client's connection lifecycle
/// afterwards; neither blocks on a connection.
pub fn startup_client(
    client: &discord_presence::Client,
    activity: &mut ActivityState,
    config: &RPCConfig,
    now_secs: u64,
)
    ensures
        config.show_time ==> final(activity).timestamps == (Some(
            ActivityTimestamps { start: Some(now_secs), end: None },
        )),
        !config.show_time ==> final(activity).timestamps == old(activity).timestamps,
        final(activity).state == old(activity).state,
        final(activity).details == old(activity).details,
        final(activity).instance == old(activity).instance,
        final(activity).assets == old(activity).assets,
        final(activity).party == old(activity).party,
        final(activity).secrets == old(activity).secrets,
        final(activity).events == old(activity).events,
        final(activity).buttons == old(activity).buttons,
{
    apply_startup(activity, config.show_time, now_secs);
    register_event_handlers(client, &activity.events);
}

/// The dirty signal the sync engine keeps for itself: the snapshot
/// version it observed on the previous tick, if any. A mutation of
/// the snapshot must move the version; comparing versions then admits
/// no false negative — a missed mutation cannot happen, while a
/// version moved without a real change merely costs a redundant
/// resubmission.
pub struct ChangeTracker {
    /// The version observed by the last tick; `None` before the first
    /// tick, so that the first tick always submits.
    pub last_seen: Option<u64>,
}

/// Whether a tick that finds the snapshot at `version` sees a change.
pub open spec fn sees_change(t: ChangeTracker, version: u64) -> bool {
    t.last_seen != Some(version)
}

/// The tracker state after a tick observed `version`.
pub open spec fn after_observe(version: u64) -> ChangeTracker {
    ChangeTracker { last_seen: Some(version) }
}

impl ChangeTracker {
    /// A tracker that has observed nothing yet.
    pub fn new() -> (r: ChangeTracker)
        ensures
            r.last_seen is None,
    {
        ChangeTracker { last_seen: None }
    }

    /// Record that a tick found the snapshot at `version`; returns
    /// whether that differs from what the previous tick observed.
    /// The record is updated whether or not the caller's submission
    /// then succeeds: a failed submission is not retried until the
    /// version moves again.
    pub fn observe(&mut self, version: u64) -> (changed: bool)
        ensures
            changed == sees_change(*old(self), version),
            *final(self) == after_observe(version),
    {
        let changed = match self.last_seen {
            Some(v) => v != version,
            None => true,
        };
        self.last_seen = Some(version);
        changed
    }
}

/// Tick entry point, given the host's own dirty signal: when the
/// snapshot changed since the last tick, its wire representation is
/// handed back for submission; when it did not, nothing is, and the
/// tick is a no-op. The host submits the returned value to the
/// presence client and reports a failure through its diagnostic
/// channel; nothing here retries.
pub fn plan_tick(changed: bool, activity: &ActivityState) -> (r: Option<Activity>)
    ensures
        changed ==> (r matches Some(w) && is_wire_of(w, *activity)),
        !changed ==> r is None,
{
    if changed {
        Some(activity.to_wire())
    } else {
        None
    }
}

/// Tick entry point for a host without a dirty signal of its own: the
/// tracker compares the snapshot's version with what the previous
/// tick observed, and the wire representation is handed back exactly
/// when they differ.
pub fn tick(tracker: &mut ChangeTracker, version: u64, activity: &ActivityState) -> (r: Option<
    Activity,
>)
    ensures
        *final(tracker) == after_observe(version),
        sees_change(*old(tracker), version) ==> (r matches Some(w) && is_wire_of(w, *activity)),
        !sees_change(*old(tracker), version) ==> r is None,
{
    let changed = tracker.observe(version);
    plan_tick(changed, activity)
}

/// No-op ticks do not resubmit: once a tick has observed a version,
/// a consecutive tick that finds the snapshot at the same version
/// sees no change and plans no submission — over the two ticks the
/// submission is attempted at most once.
pub proof fn lemma_unchanged_tick_plans_nothing(version: u64)
    ensures
        !sees_change(after_observe(version), version),
{
}

/// A mutation between two ticks is submitted exactly once: the tick
/// that first observes the moved version plans a submission, and the
/// next tick, with no further mutation, plans none. The tracker
/// records the observation regardless of how the submission fares, so
/// a failed submission is not re-attempted either — only the next
/// mutation triggers one.
pub proof fn lemma_mutation_submitted_once(v1: u64, v2: u64)
    requires
        v2 != v1,
    ensures
        sees_change(after_observe(v1), v2),
        !sees_change(after_observe(v2), v2),
{
}

} // verus!
