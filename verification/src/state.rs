//! The presence snapshot, its event queue, and the wire conversion.

use std::collections::VecDeque;
use std::ops::Index;
use std::sync::Arc;
use vstd::prelude::*;

verus! {

/// An asynchronous notification kind that the external presence
/// process can emit. Closed, finite set known at compile time.
#[derive(Debug, Clone, Copy, PartialEq, Eq, Structural, Hash)]
pub enum Event {
    /// Fired when the client is ready, but not if an error occurs.
    Ready,
    /// Fired when the client successfully connects, re-connections included.
    Connected,
    /// Fired when the client was connected but loses connection.
    Disconnected,
    /// Fired on an error; overrides the `Ready` event.
    Error,
    /// Fired when the client's game is joined by a player.
    ActivityJoin,
    /// Fired when the client receives a spectate request.
    ActivitySpectate,
    /// Fired when the client receives a join request.
    ActivityJoinRequest,
}

impl Event {
    /// Every event kind, each exactly once, in declaration order.
    ///
    /// Used at startup to register one callback per kind.
    pub fn all() -> (r: Vec<Event>)
        ensures
            r@ == seq![
                Event::Ready,
                Event::Connected,
                Event::Disconnected,
                Event::Error,
                Event::ActivityJoin,
                Event::ActivitySpectate,
                Event::ActivityJoinRequest,
            ],
            forall|e: Event| r@.contains(e),
    {
        let r: Vec<Event> = vec![
            Event::Ready,
            Event::Connected,
            Event::Disconnected,
            Event::Error,
            Event::ActivityJoin,
            Event::ActivitySpectate,
            Event::ActivityJoinRequest,
        ];
        proof {
            assert forall|e: Event| r@.contains(e) by {
                match e {
                    Event::Ready => assert(r@[0] == e),
                    Event::Connected => assert(r@[1] == e),
                    Event::Disconnected => assert(r@[2] == e),
                    Event::Error => assert(r@[3] == e),
                    Event::ActivityJoin => assert(r@[4] == e),
                    Event::ActivitySpectate => assert(r@[5] == e),
                    Event::ActivityJoinRequest => assert(r@[6] == e),
                }
            }
        }
        r
    }
}

/// What a drain of the head returns: the oldest entry, or `None` on an
/// empty queue.
pub open spec fn front_response(s: Seq<Event>) -> Option<Event> {
    if s.len() == 0 {
        None
    } else {
        Some(s[0])
    }
}

/// The queue contents after a drain of the head.
pub open spec fn after_front_response(s: Seq<Event>) -> Seq<Event> {
    if s.len() == 0 {
        s
    } else {
        s.drop_first()
    }
}

/// What a drain of the tail returns: the most recent entry, or `None`
/// on an empty queue.
pub open spec fn back_response(s: Seq<Event>) -> Option<Event> {
    if s.len() == 0 {
        None
    } else {
        Some(s.last())
    }
}

/// The queue contents after a drain of the tail.
pub open spec fn after_back_response(s: Seq<Event>) -> Seq<Event> {
    if s.len() == 0 {
        s
    } else {
        s.drop_last()
    }
}

/// The queue contents after a targeted removal: the first occurrence
/// of `event` is taken out; without one the queue is unchanged.
pub open spec fn after_specific_response(s: Seq<Event>, event: Event) -> Seq<Event> {
    match s.index_of_first(event) {
        Some(i) => s.remove(i),
        None => s,
    }
}

/// An ordered, mutable buffer of [`Event`] values. Insertion order is
/// preserved and duplicates are permitted. Not inherently thread-safe;
/// see [`SharedEventQueue`] for the shared, lock-guarded form.
#[derive(Debug)]
pub struct Events {
    queue: VecDeque<Event>,
}

impl View for Events {
    type V = Seq<Event>;

    closed spec fn view(&self) -> Seq<Event> {
        self.queue@
    }
}

impl Events {
    /// An empty queue.
    pub fn new() -> (r: Events)
        ensures
            r@ == Seq::<Event>::empty(),
    {
        Events { queue: VecDeque::new() }
    }

    /// Append an event at the tail. No failure mode, unbounded.
    pub fn push(&mut self, event: Event)
        ensures
            final(self)@ == old(self)@.push(event),
    {
        self.queue.push_back(event);
    }

    /// Return and remove the earliest event in the queue.
    ///
    /// If it returns `None`, then the queue is empty.
    pub fn respond(&mut self) -> (r: Option<Event>)
        ensures
            r == front_response(old(self)@),
            final(self)@ == after_front_response(old(self)@),
    {
        self.queue.pop_front()
    }

    /// Return and remove the most recent event in the queue.
    ///
    /// If it returns `None`, then the queue is empty.
    pub fn respond_latest(&mut self) -> (r: Option<Event>)
        ensures
            r == back_response(old(self)@),
            final(self)@ == after_back_response(old(self)@),
    {
        self.queue.pop_back()
    }

    /// The index of the first entry equal to `event`, if any.
    fn position_of(&self, event: Event) -> (r: Option<usize>)
        ensures
            match r {
                Some(i) => self@.index_of_first(event) == Some(i as int),
                None => self@.index_of_first(event) is None,
            },
    {
        proof {
            self@.index_of_first_ensures(event);
        }
        let n = self.queue.len();
        let mut i: usize = 0;
        while i < n
            invariant
                n == self@.len(),
                i <= n,
                forall|j: int| 0 <= j < i ==> self@[j] != event,
            decreases n - i,
        {
            if *self.queue.index(i) == event {
                proof {
                    self@.index_of_first_ensures(event);
                    assert(self@[i as int] == event);
                    assert(self@.contains(event));
                    let k = self@.index_of_first(event).unwrap();
                    if k < i as int {
                        assert(self@[k] != event);
                    } else if (i as int) < k {
                        assert(self@[i as int] != event);
                    }
                }
                return Some(i);
            }
            i += 1;
        }
        None
    }

    /// Check if the given event has fired, removing its first
    /// occurrence from the queue if so. The relative order of the
    /// remaining entries is undisturbed.
    pub fn respond_specific(&mut self, event: Event) -> (r: bool)
        ensures
            r == old(self)@.contains(event),
            final(self)@ == after_specific_response(old(self)@, event),
    {
        proof {
            old(self)@.index_of_first_ensures(event);
        }
        if let Some(index) = self.position_of(event) {
            self.queue.remove(index);
            true
        } else {
            false
        }
    }

    /// Ignore all events, removing them.
    pub fn clear(&mut self)
        ensures
            final(self)@ == Seq::<Event>::empty(),
    {
        self.queue.clear()
    }
}

impl Default for Events {
    /// An empty queue, as [`Events::new`] builds one.
    fn default() -> (r: Events)
        ensures
            r@ == Seq::<Event>::empty(),
    {
        Events::new()
    }
}

/// A shared-ownership handle to one [`Events`] queue behind a
/// mutual-exclusion lock, safe for a producer on the presence client's
/// callback thread and arbitrary consumer threads.
///
/// Cloning the handle with [`SharedEventQueue::clone_handle`] yields a
/// new handle to the *same* underlying queue, not a copy. The lock is
/// held only for the duration of a single operation, and no
/// caller-supplied logic runs under it.
///
/// Because the queue behind the lock is reached through every handle
/// at once, and is filled from another thread, no contract here can
/// pin its contents; each operation is trusted to apply the
/// corresponding verified [`Events`] operation atomically. What each
/// operation does to the contents is stated and proved on [`Events`].
#[verifier::external_body]
pub struct SharedEventQueue {
    inner: Arc<parking_lot::Mutex<Events>>,
}

impl SharedEventQueue {
    /// A fresh handle to a new, empty queue.
    ///
    /// Relies on `parking_lot::Mutex::new` to wrap the queue.
    #[verifier::external_body]
    pub fn new() -> (r: SharedEventQueue) {
        SharedEventQueue { inner: Arc::new(parking_lot::Mutex::new(Events::new())) }
    }

    /// Another handle to the same underlying queue.
    ///
    /// Relies on `Arc::clone`: the two handles share one queue.
    #[verifier::external_body]
    pub fn clone_handle(&self) -> (r: SharedEventQueue) {
        SharedEventQueue { inner: Arc::clone(&self.inner) }
    }

    /// Append an event at the tail of the shared queue.
    ///
    /// Relies on `parking_lot::Mutex::lock`: exclusive access to the
    /// shared queue while the verified [`Events::push`] runs on it.
    #[verifier::external_body]
    pub fn push(&self, event: Event) {
        self.inner.lock().push(event)
    }

    /// Return and remove the earliest event in the shared queue;
    /// `None` if it was empty when the lock was taken.
    ///
    /// Relies on `parking_lot::Mutex::lock`: exclusive access to the
    /// shared queue while the verified [`Events::respond`] runs on it.
    #[verifier::external_body]
    pub fn respond(&self) -> (r: Option<Event>) {
        self.inner.lock().respond()
    }

    /// Return and remove the most recent event in the shared queue;
    /// `None` if it was empty when the lock was taken.
    ///
    /// Relies on `parking_lot::Mutex::lock`: exclusive access to the
    /// shared queue while the verified [`Events::respond_latest`] runs
    /// on it.
    #[verifier::external_body]
    pub fn respond_latest(&self) -> (r: Option<Event>) {
        self.inner.lock().respond_latest()
    }

    /// Check if the given event has fired, removing its first
    /// occurrence from the shared queue if so.
    ///
    /// Relies on `parking_lot::Mutex::lock`: exclusive access to the
    /// shared queue while the verified [`Events::respond_specific`]
    /// runs on it.
    #[verifier::external_body]
    pub fn respond_specific(&self, event: Event) -> (r: bool) {
        self.inner.lock().respond_specific(event)
    }

    /// Ignore all pending events on the shared queue, removing them.
    ///
    /// Relies on `parking_lot::Mutex::lock`: exclusive access to the
    /// shared queue while the verified [`Events::clear`] runs on it.
    #[verifier::external_body]
    pub fn clear(&self) {
        self.inner.lock().clear()
    }
}

/// Elapsed/remaining markers on a profile, in seconds since the epoch.
#[derive(Debug, Clone, Copy, PartialEq, Eq)]
pub struct ActivityTimestamps {
    /// When the activity started.
    pub start: Option<u64>,
    /// When the activity will end.
    pub end: Option<u64>,
}

/// Assets to display on a profile.
#[derive(Debug, Clone, PartialEq, Eq)]
pub struct ActivityAssets {
    /// The key of the large image.
    pub large_image: Option<String>,
    /// The tooltip of the large image.
    pub large_text: Option<String>,
    /// The key of the small image.
    pub small_image: Option<String>,
    /// The tooltip of the small image.
    pub small_text: Option<String>,
}

/// Information about a party.
#[derive(Debug, Clone, PartialEq, Eq)]
pub struct ActivityParty {
    /// The identifier of the party.
    pub id: Option<String>,
    /// The current and maximum size of the party.
    pub size: Option<(u32, u32)>,
}

/// Secret passwords for joining and spectating a game.
#[derive(Debug, Clone, PartialEq, Eq)]
pub struct ActivitySecrets {
    /// The secret for joining.
    pub join: Option<String>,
    /// The secret for spectating.
    pub spectate: Option<String>,
    /// The secret for the match.
    pub game: Option<String>,
}

/// A clickable button on a profile. The wire format caps how many of
/// these a submission may carry; the presence client enforces the cap.
#[derive(Debug, Clone, PartialEq, Eq)]
pub struct ActivityButton {
    /// Text shown on the button.
    pub label: Option<String>,
    /// URL opened when clicking the button.
    pub url: Option<String>,
}

/// The state that holds the Discord activity.
///
/// All descriptive fields are optional: an absent field means "do not
/// display this attribute". The snapshot is created once at startup
/// and mutated in place by arbitrary callers between ticks.
pub struct ActivityState {
    /// The player's current party status.
    pub state: Option<String>,
    /// What the player is currently doing.
    pub details: Option<String>,
    /// Whether this activity is an instanced context, like a match.
    pub instance: Option<bool>,
    /// Helps create elapsed/remaining timestamps on a player's profile.
    pub timestamps: Option<ActivityTimestamps>,
    /// Assets to display on the player's profile.
    pub assets: Option<ActivityAssets>,
    /// Information about the player's party.
    pub party: Option<ActivityParty>,
    /// Secret passwords for joining and spectating the player's game.
    pub secrets: Option<ActivitySecrets>,
    /// The events that have fired for this activity.
    pub events: SharedEventQueue,
    /// The buttons to be displayed on the player's profile.
    pub buttons: Vec<ActivityButton>,
}

impl Default for ActivityState {
    /// A snapshot with every descriptive field absent and a fresh,
    /// empty event queue.
    fn default() -> (r: Self)
        ensures
            r.state is None,
            r.details is None,
            r.instance is None,
            r.timestamps is None,
            r.assets is None,
            r.party is None,
            r.secrets is None,
            r.buttons@ == Seq::<ActivityButton>::empty(),
    {
        ActivityState {
            state: None,
            details: None,
            instance: None,
            timestamps: None,
            assets: None,
            party: None,
            secrets: None,
            events: SharedEventQueue::new(),
            buttons: Vec::new(),
        }
    }
}

/// The wire representation of a snapshot: every descriptive field,
/// and neither the event queue nor any change-tracking metadata.
#[derive(Debug, PartialEq)]
pub struct Activity {
    /// The player's current party status.
    pub state: Option<String>,
    /// What the player is currently doing.
    pub details: Option<String>,
    /// Whether this activity is an instanced context, like a match.
    pub instance: Option<bool>,
    /// Helps create elapsed/remaining timestamps on a player's profile.
    pub timestamps: Option<ActivityTimestamps>,
    /// Assets to display on the player's profile.
    pub assets: Option<ActivityAssets>,
    /// Information about the player's party.
    pub party: Option<ActivityParty>,
    /// Secret passwords for joining and spectating the player's game.
    pub secrets: Option<ActivitySecrets>,
    /// The buttons to be displayed on the player's profile.
    pub buttons: Vec<ActivityButton>,
}

/// The wire representation that a snapshot converts to: each
/// descriptive field copied verbatim, the event queue left behind.
pub open spec fn wire_of(s: ActivityState) -> Activity {
    Activity {
        state: s.state,
        details: s.details,
        instance: s.instance,
        timestamps: s.timestamps,
        assets: s.assets,
        party: s.party,
        secrets: s.secrets,
        buttons: s.buttons,
    }
}

/// Whether `w` carries exactly the descriptive fields of `s`: every
/// field verbatim, with the buttons compared entry for entry.
pub open spec fn is_wire_of(w: Activity, s: ActivityState) -> bool {
    &&& w.state == s.state
    &&& w.details == s.details
    &&& w.instance == s.instance
    &&& w.timestamps == s.timestamps
    &&& w.assets == s.assets
    &&& w.party == s.party
    &&& w.secrets == s.secrets
    &&& w.buttons@ == s.buttons@
}

impl From<ActivityState> for Activity {
    /// Converts the snapshot into the wire representation. Total: no
    /// validation happens here; string and button limits are the
    /// presence client's to enforce.
    fn from(state: ActivityState) -> (r: Self)
        ensures
            r == wire_of(state),
    {
        Activity {
            state: state.state,
            details: state.details,
            instance: state.instance,
            timestamps: state.timestamps,
            assets: state.assets,
            party: state.party,
            secrets: state.secrets,
            buttons: state.buttons,
        }
    }
}

impl vstd::std_specs::convert::FromSpecImpl<ActivityState> for Activity {
    open spec fn obeys_from_spec() -> bool {
        true
    }

    open spec fn from_spec(state: ActivityState) -> Self {
        wire_of(state)
    }
}

/// A copy of an optional string, equal to the original.
fn clone_opt_string(s: &Option<String>) -> (r: Option<String>)
    ensures
        r == *s,
{
    match s {
        Some(v) => Some(v.clone()),
        None => None,
    }
}

/// A copy of optional assets, equal to the original.
fn clone_opt_assets(a: &Option<ActivityAssets>) -> (r: Option<ActivityAssets>)
    ensures
        r == *a,
{
    match a {
        Some(v) => Some(
            ActivityAssets {
                large_image: clone_opt_string(&v.large_image),
                large_text: clone_opt_string(&v.large_text),
                small_image: clone_opt_string(&v.small_image),
                small_text: clone_opt_string(&v.small_text),
            },
        ),
        None => None,
    }
}

/// A copy of optional party information, equal to the original.
fn clone_opt_party(p: &Option<ActivityParty>) -> (r: Option<ActivityParty>)
    ensures
        r == *p,
{
    match p {
        Some(v) => Some(ActivityParty { id: clone_opt_string(&v.id), size: v.size }),
        None => None,
    }
}

/// A copy of optional secrets, equal to the original.
fn clone_opt_secrets(s: &Option<ActivitySecrets>) -> (r: Option<ActivitySecrets>)
    ensures
        r == *s,
{
    match s {
        Some(v) => Some(
            ActivitySecrets {
                join: clone_opt_string(&v.join),
                spectate: clone_opt_string(&v.spectate),
                game: clone_opt_string(&v.game),
            },
        ),
        None => None,
    }
}

/// A copy of a button list, entry for entry equal to the original.
fn clone_buttons(b: &Vec<ActivityButton>) -> (r: Vec<ActivityButton>)
    ensures
        r@ == b@,
{
    let mut r: Vec<ActivityButton> = Vec::new();
    let n = b.len();
    let mut i: usize = 0;
    while i < n
        invariant
            n == b@.len(),
            i <= n,
            r@ == b@.take(i as int),
        decreases n - i,
    {
        let entry = ActivityButton {
            label: clone_opt_string(&b[i].label),
            url: clone_opt_string(&b[i].url),
        };
        proof {
            assert(b@.take(i as int).push(b@[i as int]) =~= b@.take(i + 1));
        }
        r.push(entry);
        i += 1;
    }
    proof {
        assert(b@.take(n as int) =~= b@);
    }
    r
}

impl ActivityState {
    /// The wire representation of this snapshot: every descriptive
    /// field copied verbatim, the event queue and any change-tracking
    /// metadata left out. Total — no validation, no failure.
    pub fn to_wire(&self) -> (w: Activity)
        ensures
            is_wire_of(w, *self),
    {
        Activity {
            state: clone_opt_string(&self.state),
            details: clone_opt_string(&self.details),
            instance: self.instance,
            timestamps: self.timestamps,
            assets: clone_opt_assets(&self.assets),
            party: clone_opt_party(&self.party),
            secrets: clone_opt_secrets(&self.secrets),
            buttons: clone_buttons(&self.buttons),
        }
    }
}

/// The conversion that moves the snapshot and the one that copies it
/// agree: the moved-out wire value carries exactly the descriptive
/// fields of the snapshot it came from.
pub proof fn lemma_wire_conversions_agree(s: ActivityState)
    ensures
        is_wire_of(wire_of(s), s),
{
}

/// The queue contents after the events of `s` are pushed, oldest
/// first, onto a queue holding `q`.
pub open spec fn after_pushes(q: Seq<Event>, s: Seq<Event>) -> Seq<Event>
    decreases s.len(),
{
    if s.len() == 0 {
        q
    } else {
        after_pushes(q.push(s[0]), s.drop_first())
    }
}

/// Pushing appends: after the events of `s` are pushed one by one,
/// oldest first, a queue that held `q` holds `q + s` — in particular,
/// a queue first empty holds exactly `s`, in push order.
pub proof fn lemma_pushes_append(q: Seq<Event>, s: Seq<Event>)
    ensures
        after_pushes(q, s) == q + s,
    decreases s.len(),
{
    if s.len() == 0 {
        assert(q + s =~= q);
    } else {
        lemma_pushes_append(q.push(s[0]), s.drop_first());
        assert(q.push(s[0]) + s.drop_first() =~= q + s);
    }
}

/// FIFO law: a queue filled with the events of `s` and drained from
/// the head returns them in push order. After `i` head-drains the
/// queue holds `s.skip(i)`; the next drain returns exactly `s[i]` and
/// leaves `s.skip(i + 1)` — so `s.len()` drains return `s` itself,
/// with nothing lost and nothing duplicated.
pub proof fn lemma_fifo_order(s: Seq<Event>, i: int)
    requires
        0 <= i < s.len(),
    ensures
        front_response(s.skip(i)) == Some(s[i]),
        after_front_response(s.skip(i)) == s.skip(i + 1),
{
    assert(s.skip(i)[0] == s[i]);
    assert(s.skip(i).drop_first() =~= s.skip(i + 1));
}

/// LIFO law: a queue filled with the events of `s` and drained from
/// the tail returns them newest first. After `i` tail-drains the
/// queue holds `s.take(s.len() - i)`; the next drain returns exactly
/// `s[s.len() - i - 1]` and leaves the first `s.len() - i - 1`
/// entries.
pub proof fn lemma_lifo_order(s: Seq<Event>, i: int)
    requires
        0 <= i < s.len(),
    ensures
        back_response(s.take(s.len() - i)) == Some(s[s.len() - i - 1]),
        after_back_response(s.take(s.len() - i)) == s.take(s.len() - i - 1),
{
    assert(s.take(s.len() - i).last() == s[s.len() - i - 1]);
    assert(s.take(s.len() - i).drop_last() =~= s.take(s.len() - i - 1));
}

/// Clearing silences the queue: after [`Events::clear`] the contents
/// are the empty sequence, and an empty queue answers every drain,
/// from the head or from the tail, with `None`.
pub proof fn lemma_clear_then_drain()
    ensures
        front_response(Seq::<Event>::empty()) is None,
        back_response(Seq::<Event>::empty()) is None,
        after_front_response(Seq::<Event>::empty()) == Seq::<Event>::empty(),
        after_back_response(Seq::<Event>::empty()) == Seq::<Event>::empty(),
{
}

} // verus!
