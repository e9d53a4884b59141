//! The trusted boundary to the presence client.
//!
//! The presence client owns the connection lifecycle and the
//! transport; nothing about either is promised here. What stands in
//! this module is the part of startup that only does bookkeeping:
//! building a client for an application ID and registering one
//! queue-push callback per event kind. Starting the connection and
//! submitting an activity are transport, and stay with the host.

use vstd::prelude::*;

use crate::state::Event;
use crate::state::SharedEventQueue;

verus! {

/// The presence client of the `discord_presence` crate. Opaque: only
/// the trusted items below touch it.
#[verifier::external_type_specification]
#[verifier::external_body]
pub struct ExClient(discord_presence::Client);

/// A presence client for the given application ID.
///
/// Relies on `discord_presence::Client::new`: it only builds the
/// client's channels and callback registry, and does not touch the
/// transport or spawn the connection.
#[verifier::external_body]
pub fn new_client(app_id: u64) -> (r: discord_presence::Client) {
    discord_presence::Client::new(app_id)
}

/// Register a callback that pushes `event` onto the shared queue
/// whenever the presence process reports that event kind.
///
/// Relies on `discord_presence::Client::on_event`: it stores the
/// closure in the client's registry, to be invoked on the client's
/// callback thread, and `EventCallbackHandle::persist` keeps the
/// registration alive. The closure only calls
/// [`SharedEventQueue::push`] on its own handle to the queue.
#[verifier::external_body]
fn on_event_push(client: &discord_presence::Client, event: Event, queue: &SharedEventQueue) {
    let q = queue.clone_handle();
    let kind = match event {
        Event::Ready => discord_presence::Event::Ready,
        Event::Connected => discord_presence::Event::Connected,
        Event::Disconnected => discord_presence::Event::Disconnected,
        Event::Error => discord_presence::Event::Error,
        Event::ActivityJoin => discord_presence::Event::ActivityJoin,
        Event::ActivitySpectate => discord_presence::Event::ActivitySpectate,
        Event::ActivityJoinRequest => discord_presence::Event::ActivityJoinRequest,
    };
    client.on_event(kind, move |_| q.push(event)).persist();
}

/// Register one queue-push callback with the presence client for
/// every event kind — each kind in [`Event::all`], each exactly once.
/// The registrations are an effect on the opaque client, so nothing
/// can be stated of them here; which kinds are covered is pinned by
/// the contract of [`Event::all`].
pub fn register_event_handlers(client: &discord_presence::Client, queue: &SharedEventQueue) {
    let all = Event::all();
    let n = all.len();
    let mut i: usize = 0;
    while i < n
        invariant
            n == all@.len(),
            i <= n,
        decreases n - i,
    {
        on_event_push(client, all[i], queue);
        i += 1;
    }
}

} // verus!
