//! Per-client sliding-window rate limiting.
//!
//! Every client owns a window: the instants of its requests that were
//! accepted during the last second. Instants are nanoseconds on a monotonic
//! clock. A request is accepted while the window holds fewer instants than
//! the ceiling allows, and only accepted requests are recorded.

use dashmap::DashMap;
use vstd::prelude::*;

verus! {

/// Length of the window, in nanoseconds.
pub const WINDOW_NANOS: u64 = 1_000_000_000;

/// Status answered to a client that exceeded its ceiling.
pub const TOO_MANY_REQUESTS: u16 = 429;

/// An instant `stamp` still counts at `now`: less than one window has passed
/// since. The difference saturates, so an instant ahead of `now` counts too.
pub open spec fn is_live(now: u64, stamp: u64) -> bool {
    stamp >= now || now - stamp < WINDOW_NANOS
}

/// The instants of a window that still count at `now`, in their order.
pub open spec fn retained(stamps: Seq<u64>, now: u64) -> Seq<u64> {
    stamps.filter(|stamp: u64| is_live(now, stamp))
}

/// Whether a request at `now` is accepted under the ceiling `limit`.
pub open spec fn admits(stamps: Seq<u64>, now: u64, limit: nat) -> bool {
    retained(stamps, now).len() < limit
}

/// The window after a request at `now` was judged under `limit`.
pub open spec fn after_check(stamps: Seq<u64>, now: u64, limit: nat) -> Seq<u64> {
    if admits(stamps, now, limit) {
        retained(stamps, now).push(now)
    } else {
        retained(stamps, now)
    }
}

/// The accepted requests of one client within the last second.
pub struct SlidingWindow {
    pub timestamps: Vec<u64>,
}

impl View for SlidingWindow {
    type V = Seq<u64>;

    open spec fn view(&self) -> Seq<u64> {
        self.timestamps@
    }
}

impl SlidingWindow {
    /// A window that has seen no request.
    pub fn new() -> (window: SlidingWindow)
        ensures
            window@ == Seq::<u64>::empty(),
    {
        SlidingWindow { timestamps: Vec::new() }
    }

    /// Drops the instants that no longer count at `now`.
    pub fn trim(&mut self, now: u64)
        ensures
            final(self)@ == retained(old(self)@, now),
    {
        let ghost live = |stamp: u64| is_live(now, stamp);
        let mut kept: Vec<u64> = Vec::new();
        let mut i: usize = 0;
        while i < self.timestamps.len()
            invariant
                i <= self.timestamps.len(),
                live == (|stamp: u64| is_live(now, stamp)),
                kept@ == self.timestamps@.take(i as int).filter(live),
            decreases self.timestamps.len() - i,
        {
            let stamp: u64 = self.timestamps[i];
            proof {
                let before = self.timestamps@.take(i as int);
                assert(self.timestamps@.take(i + 1) =~= before.push(stamp));
                before.lemma_filter_push(stamp, live);
            }
            if now.saturating_sub(stamp) < WINDOW_NANOS {
                kept.push(stamp);
            }
            i += 1;
        }
        assert(self.timestamps@.take(i as int) =~= self.timestamps@);
        self.timestamps = kept;
    }

    /// Judges a request at `now` under the ceiling `limit` and records it
    /// when it is accepted.
    pub fn check(&mut self, now: u64, limit: usize) -> (r: Result<(), u16>)
        ensures
            r == if admits(old(self)@, now, limit as nat) {
                Ok::<(), u16>(())
            } else {
                Err::<(), u16>(TOO_MANY_REQUESTS)
            },
            final(self)@ == after_check(old(self)@, now, limit as nat),
    {
        self.trim(now);
        if self.timestamps.len() >= limit {
            return Err(TOO_MANY_REQUESTS);
        }
        self.timestamps.push(now);
        Ok(())
    }
}

/// `dashmap::DashMap`, the sharded concurrent hash map that holds the
/// windows. Its inside is not visible here; [`stored_windows`] names what it
/// holds.
#[verifier::external_type_specification]
#[verifier::external_body]
#[verifier::reject_recursive_types(K)]
#[verifier::reject_recursive_types(V)]
#[verifier::reject_recursive_types(S)]
pub struct ExDashMap<K, V, S>(DashMap<K, V, S>);

/// The entries of a map of windows: each client with the instants stored
/// under its name.
pub uninterp spec fn stored_windows(map: DashMap<String, Vec<u64>>) -> Map<Seq<char>, Seq<u64>>;

/// `DashMap::new`: a map without entries.
#[verifier::external_body]
fn empty_map() -> (map: DashMap<String, Vec<u64>>)
    ensures
        stored_windows(map).dom() == Set::<Seq<char>>::empty(),
{
    DashMap::new()
}

/// `DashMap::get`: a copy of the value stored under `client`, or `None`
/// when the map has no such key. The map is left as it was.
#[verifier::external_body]
fn lookup(map: &DashMap<String, Vec<u64>>, client: &str) -> (found: Option<Vec<u64>>)
    ensures
        found is Some <==> stored_windows(*map).contains_key(client@),
        found matches Some(stamps) ==> stamps@ == stored_windows(*map)[client@],
{
    map.get(client).map(|entry| entry.value().clone())
}

/// `DashMap::insert`: afterwards `client` maps to `stamps`, whether or not
/// it had an entry before; every other entry is untouched.
#[verifier::external_body]
fn insert(map: &mut DashMap<String, Vec<u64>>, client: &str, stamps: Vec<u64>)
    ensures
        stored_windows(*final(map)) == stored_windows(*old(map)).insert(client@, stamps@),
{
    map.insert(client.to_string(), stamps);
}

/// The window a store holds for `client`; a client never seen has an empty
/// one.
pub open spec fn window_of(windows: Map<Seq<char>, Seq<u64>>, client: Seq<char>) -> Seq<u64> {
    if windows.contains_key(client) {
        windows[client]
    } else {
        Seq::empty()
    }
}

/// Whether a store accepts a request of `client` at `now` under `limit`.
pub open spec fn store_admits(
    windows: Map<Seq<char>, Seq<u64>>,
    client: Seq<char>,
    now: u64,
    limit: nat,
) -> bool {
    admits(window_of(windows, client), now, limit)
}

/// The store after it judged a request of `client` at `now` under `limit`.
pub open spec fn store_after(
    windows: Map<Seq<char>, Seq<u64>>,
    client: Seq<char>,
    now: u64,
    limit: nat,
) -> Map<Seq<char>, Seq<u64>> {
    windows.insert(client, after_check(window_of(windows, client), now, limit))
}

/// The windows of all clients, keyed by client identity.
pub struct RateLimitStore {
    windows: DashMap<String, Vec<u64>>,
}

impl View for RateLimitStore {
    type V = Map<Seq<char>, Seq<u64>>;

    closed spec fn view(&self) -> Map<Seq<char>, Seq<u64>> {
        stored_windows(self.windows)
    }
}

impl RateLimitStore {
    /// A store that has seen no client.
    pub fn new() -> (store: RateLimitStore)
        ensures
            store@.dom() == Set::<Seq<char>>::empty(),
    {
        RateLimitStore { windows: empty_map() }
    }

    /// The instants currently recorded for `client`.
    pub fn window(&self, client: &str) -> (stamps: Vec<u64>)
        ensures
            stamps@ == window_of(self@, client@),
    {
        match lookup(&self.windows, client) {
            Some(stamps) => stamps,
            None => Vec::new(),
        }
    }

    /// Judges a request of `client` at `now` under the ceiling `limit`:
    /// trims the client's window, refuses with 429 when it is full and
    /// records the request otherwise. No other client's window changes.
    pub fn check(&mut self, client: &str, now: u64, limit: usize) -> (r: Result<(), u16>)
        ensures
            r == if store_admits(old(self)@, client@, now, limit as nat) {
                Ok::<(), u16>(())
            } else {
                Err::<(), u16>(TOO_MANY_REQUESTS)
            },
            final(self)@ == store_after(old(self)@, client@, now, limit as nat),
    {
        let mut window = SlidingWindow { timestamps: self.window(client) };
        let verdict = window.check(now, limit);
        insert(&mut self.windows, client, window.timestamps);
        verdict
    }
}

/// The window after a run of requests at the instants `times`, judged one
/// after the other under `limit`.
pub open spec fn after_burst(stamps: Seq<u64>, times: Seq<u64>, limit: nat) -> Seq<u64>
    decreases times.len(),
{
    if times.len() == 0 {
        stamps
    } else {
        after_check(after_burst(stamps, times.drop_last(), limit), times.last(), limit)
    }
}

/// How many requests of such a run are accepted.
pub open spec fn accepted_in_burst(stamps: Seq<u64>, times: Seq<u64>, limit: nat) -> nat
    decreases times.len(),
{
    if times.len() == 0 {
        0
    } else {
        let earlier = times.drop_last();
        let accepted = accepted_in_burst(stamps, earlier, limit);
        if admits(after_burst(stamps, earlier, limit), times.last(), limit) {
            accepted + 1
        } else {
            accepted
        }
    }
}

/// The instants come in order and span less than one window.
pub open spec fn within_one_window(times: Seq<u64>) -> bool {
    &&& forall|i: int, j: int| 0 <= i <= j < times.len() ==> times[i] <= times[j]
    &&& times.len() > 0 ==> times.last() - times.first() < WINDOW_NANOS
}

/// The instants of a window that are not older than `since`.
pub open spec fn not_before(stamps: Seq<u64>, since: u64) -> Seq<u64> {
    stamps.filter(|stamp: u64| stamp >= since)
}

/// Filtering by a condition after filtering by a weaker one is filtering by
/// the condition alone.
proof fn lemma_filter_refines(stamps: Seq<u64>, strong: spec_fn(u64) -> bool, weak: spec_fn(u64) -> bool)
    requires
        forall|stamp: u64| #[trigger] strong(stamp) ==> weak(stamp),
    ensures
        stamps.filter(weak).filter(strong) == stamps.filter(strong),
    decreases stamps.len(),
{
    if stamps.len() == 0 {
        assert(stamps.filter(weak) =~= stamps);
    } else {
        let earlier = stamps.drop_last();
        let last = stamps.last();
        lemma_filter_refines(earlier, strong, weak);
        assert(stamps =~= earlier.push(last));
        earlier.lemma_filter_push(last, weak);
        earlier.lemma_filter_push(last, strong);
        if weak(last) {
            earlier.filter(weak).lemma_filter_push(last, strong);
        }
    }
}

/// During a burst the window holds every request of the burst that was
/// accepted, so there are never more of them than the ceiling allows.
proof fn lemma_burst_is_held(stamps: Seq<u64>, times: Seq<u64>, limit: nat)
    requires
        within_one_window(times),
        times.len() > 0,
    ensures
        accepted_in_burst(stamps, times, limit) <= not_before(
            after_burst(stamps, times, limit),
            times.first(),
        ).len(),
        accepted_in_burst(stamps, times, limit) <= limit,
    decreases times.len(),
{
    let first = times.first();
    let now = times.last();
    let earlier = times.drop_last();
    let fresh = |stamp: u64| stamp >= first;
    let live = |stamp: u64| is_live(now, stamp);
    let before = after_burst(stamps, earlier, limit);
    if earlier.len() == 0 {
        assert(accepted_in_burst(stamps, earlier, limit) == 0);
        assert(before == stamps);
    } else {
        assert(earlier.first() == first);
        assert(earlier.last() == times[times.len() - 2]);
        assert(within_one_window(earlier));
        lemma_burst_is_held(stamps, earlier, limit);
    }
    let kept = retained(before, now);
    assert forall|stamp: u64| #[trigger] fresh(stamp) implies live(stamp) by {
        assert(first <= now);
    }
    lemma_filter_refines(before, fresh, live);
    assert(not_before(kept, first) == not_before(before, first));
    kept.lemma_filter_len(fresh);
    kept.lemma_filter_push(now, fresh);
}

/// Over any span shorter than one second a client is accepted at most as
/// often as the ceiling allows, whatever its window held before.
pub proof fn lemma_burst_is_capped(stamps: Seq<u64>, times: Seq<u64>, limit: nat)
    requires
        within_one_window(times),
    ensures
        accepted_in_burst(stamps, times, limit) <= limit,
{
    if times.len() > 0 {
        lemma_burst_is_held(stamps, times, limit);
    }
}

/// Once a window holds as many live instants as the ceiling allows, the
/// next request is refused and leaves no trace.
pub proof fn lemma_full_window_refuses(stamps: Seq<u64>, now: u64, limit: nat)
    requires
        retained(stamps, now).len() >= limit,
    ensures
        !admits(stamps, now, limit),
        after_check(stamps, now, limit) == retained(stamps, now),
{
}

/// After a check at `now` every instant the window holds is live at `now`,
/// and a window that took the request holds no more instants than the
/// ceiling allows.
pub proof fn lemma_window_stays_live(stamps: Seq<u64>, now: u64, limit: nat)
    ensures
        forall|i: int|
            0 <= i < after_check(stamps, now, limit).len() ==> is_live(
                now,
                #[trigger] after_check(stamps, now, limit)[i],
            ),
        admits(stamps, now, limit) ==> after_check(stamps, now, limit).len() <= limit,
{
    let live = |stamp: u64| is_live(now, stamp);
    assert forall|i: int| 0 <= i < after_check(stamps, now, limit).len() implies is_live(
        now,
        #[trigger] after_check(stamps, now, limit)[i],
    ) by {
        if i < retained(stamps, now).len() {
            stamps.lemma_filter_pred(live, i);
        }
    }
}

/// A filter that every instant passes changes nothing.
proof fn lemma_filter_keeps_all(stamps: Seq<u64>, keep: spec_fn(u64) -> bool)
    requires
        forall|i: int| 0 <= i < stamps.len() ==> keep(#[trigger] stamps[i]),
    ensures
        stamps.filter(keep) == stamps,
    decreases stamps.len(),
{
    if stamps.len() == 0 {
        assert(stamps.filter(keep) =~= stamps);
    } else {
        let earlier = stamps.drop_last();
        lemma_filter_keeps_all(earlier, keep);
        assert(stamps =~= earlier.push(stamps.last()));
        earlier.lemma_filter_push(stamps.last(), keep);
    }
}

/// What a burst leaves in a window that was empty: its first requests, as
/// many as the ceiling allows.
proof fn lemma_fresh_burst_window(times: Seq<u64>, limit: nat, count: int)
    requires
        within_one_window(times),
        0 <= count <= times.len(),
    ensures
        after_burst(Seq::empty(), times.take(count), limit) == times.take(
            if count <= limit {
                count
            } else {
                limit as int
            },
        ),
    decreases count,
{
    let run = times.take(count);
    if count == 0 {
        assert(run =~= Seq::<u64>::empty());
        assert(times.take(0) =~= Seq::<u64>::empty());
    } else {
        let now = times[count - 1];
        let held = if count - 1 <= limit {
            count - 1
        } else {
            limit as int
        };
        lemma_fresh_burst_window(times, limit, count - 1);
        assert(run.drop_last() =~= times.take(count - 1));
        assert(run.last() == now);
        let before = times.take(held);
        let live = |stamp: u64| is_live(now, stamp);
        assert forall|i: int| 0 <= i < before.len() implies live(#[trigger] before[i]) by {
            assert(times[0] <= times[i] <= now);
            assert(now <= times.last());
        }
        lemma_filter_keeps_all(before, live);
        if count - 1 < limit {
            assert(before.push(now) =~= times.take(count));
        }
    }
}

/// From an empty window, a burst that spans less than one second has its
/// first requests accepted, as many as the ceiling allows, and every later
/// one refused.
pub proof fn lemma_fresh_burst(times: Seq<u64>, limit: nat, index: int)
    requires
        within_one_window(times),
        0 <= index < times.len(),
    ensures
        admits(after_burst(Seq::empty(), times.take(index), limit), times[index], limit) == (index
            < limit),
{
    let now = times[index];
    let held = if index <= limit {
        index
    } else {
        limit as int
    };
    lemma_fresh_burst_window(times, limit, index);
    let before = times.take(held);
    let live = |stamp: u64| is_live(now, stamp);
    assert forall|i: int| 0 <= i < before.len() implies live(#[trigger] before[i]) by {
        assert(times[0] <= times[i] <= now);
        assert(now <= times.last());
    }
    lemma_filter_keeps_all(before, live);
}

/// A check for one client leaves the window of every other client as it
/// was, and with it every later decision about that client.
pub proof fn lemma_clients_do_not_share(
    windows: Map<Seq<char>, Seq<u64>>,
    client: Seq<char>,
    other: Seq<char>,
    now: u64,
    limit: nat,
)
    requires
        client != other,
    ensures
        window_of(store_after(windows, other, now, limit), client) == window_of(windows, client),
        forall|at: u64, ceiling: nat|
            #[trigger] store_admits(store_after(windows, other, now, limit), client, at, ceiling)
                == store_admits(windows, client, at, ceiling),
{
}

} // verus!
