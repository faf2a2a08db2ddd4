//! How often a device may fetch key packages.
//!
//! A fetch is let through if fewer than a given number of fetches of the same
//! device lie within the window of time that ends with it.
use crate::assoc::AssocMap;
use crate::bytes::copy_bytes;
use crate::text::{byte_list, decimal, push_byte_list, push_decimal};
use crate::types::DeviceKey;
use vstd::prelude::*;
use vstd::string::*;

verus! {

/// Why a fetch is not let through.
#[derive(Debug, PartialEq, Eq)]
pub enum RateLimitError {
    /// The device has fetched too often.
    Exceeded {
        /// The user.
        user_id: Vec<u8>,
        /// The device.
        device_id: Vec<u8>,
        /// How many fetches may lie within the window.
        limit: usize,
        /// The length of the window in seconds.
        window_secs: u64,
    },
}

/// A `RateLimitError` with its identifiers as sequences.
pub enum RateLimitErrorView {
    /// See `RateLimitError::Exceeded`.
    Exceeded {
        /// The user.
        user_id: Seq<u8>,
        /// The device.
        device_id: Seq<u8>,
        /// How many fetches may lie within the window.
        limit: usize,
        /// The length of the window in seconds.
        window_secs: u64,
    },
}

impl View for RateLimitError {
    type V = RateLimitErrorView;

    open spec fn view(&self) -> RateLimitErrorView {
        match self {
            RateLimitError::Exceeded {
                user_id,
                device_id,
                limit,
                window_secs,
            } => RateLimitErrorView::Exceeded {
                user_id: user_id@,
                device_id: device_id@,
                limit: *limit,
                window_secs: *window_secs,
            },
        }
    }
}

/// Counts the fetches of each device.
#[derive(Debug)]
pub struct KeyPackageFetchRateLimiter {
    /// How many fetches of a device may lie within the window.
    pub max_fetches_per_window: usize,
    /// The length of the window in seconds.
    pub window_duration_secs: u64,
    fetches: AssocMap<DeviceKey, Vec<u64>>,
}

/// The contents of a `KeyPackageFetchRateLimiter`.
#[verifier::ext_equal]
pub struct LimiterView {
    /// See `KeyPackageFetchRateLimiter::max_fetches_per_window`.
    pub max_fetches_per_window: usize,
    /// See `KeyPackageFetchRateLimiter::window_duration_secs`.
    pub window_duration_secs: u64,
    /// The times of the fetches of each device that are on record.
    pub fetches: Map<(Seq<u8>, Seq<u8>), Seq<u64>>,
}

impl View for KeyPackageFetchRateLimiter {
    type V = LimiterView;

    closed spec fn view(&self) -> LimiterView {
        LimiterView {
            max_fetches_per_window: self.max_fetches_per_window,
            window_duration_secs: self.window_duration_secs,
            fetches: self.fetches@.map_values(|v: Vec<u64>| v@),
        }
    }
}

/// The earliest time within the window that ends at `now`.
pub open spec fn window_start(now: u64, window: u64) -> u64 {
    if now >= window {
        (now - window) as u64
    } else {
        0
    }
}

/// Those of `times` that are not before `cutoff`, in the same order.
pub open spec fn still_fresh(times: Seq<u64>, cutoff: u64) -> Seq<u64>
    decreases times.len(),
{
    if times.len() == 0 {
        Seq::empty()
    } else if times.last() >= cutoff {
        still_fresh(times.drop_last(), cutoff).push(times.last())
    } else {
        still_fresh(times.drop_last(), cutoff)
    }
}

/// The fetches of a device that are on record.
pub open spec fn on_record(l: LimiterView, device: (Seq<u8>, Seq<u8>)) -> Seq<u64> {
    if l.fetches.contains_key(device) {
        l.fetches[device]
    } else {
        Seq::empty()
    }
}

/// The fetches of a device that lie within the window that ends at `now`.
pub open spec fn in_window(l: LimiterView, device: (Seq<u8>, Seq<u8>), now: u64) -> Seq<u64> {
    still_fresh(on_record(l, device), window_start(now, l.window_duration_secs))
}

/// `times` as the record of a device. A device without fetches is not on record.
pub open spec fn with_record(
    l: LimiterView,
    device: (Seq<u8>, Seq<u8>),
    times: Seq<u64>,
) -> LimiterView {
    LimiterView {
        fetches: if times.len() == 0 {
            l.fetches.remove(device)
        } else {
            l.fetches.insert(device, times)
        },
        ..l
    }
}

/// What becomes of a fetch, and of the record: fetches before the window are
/// forgotten, and the new one is recorded if it is let through.
pub open spec fn fetch_outcome(l: LimiterView, device: (Seq<u8>, Seq<u8>), now: u64) -> (
    LimiterView,
    Option<RateLimitErrorView>,
) {
    let recent = in_window(l, device, now);
    if recent.len() >= l.max_fetches_per_window {
        (
            with_record(l, device, recent),
            Some(
                RateLimitErrorView::Exceeded {
                    user_id: device.0,
                    device_id: device.1,
                    limit: l.max_fetches_per_window,
                    window_secs: l.window_duration_secs,
                },
            ),
        )
    } else {
        (with_record(l, device, recent.push(now)), None)
    }
}

impl KeyPackageFetchRateLimiter {
    /// A limiter that has seen no fetch.
    pub fn new(max_fetches_per_window: usize, window_duration_secs: u64) -> (r: Self)
        ensures
            r@ == (LimiterView {
                max_fetches_per_window,
                window_duration_secs,
                fetches: Map::empty(),
            }),
    {
        let r = KeyPackageFetchRateLimiter {
            max_fetches_per_window,
            window_duration_secs,
            fetches: AssocMap::new(),
        };
        assert(r@.fetches =~= Map::empty());
        r
    }

    /// Lets a fetch through and records it, or refuses it.
    pub fn check_and_record(&mut self, user_id: &[u8], device_id: &[u8], now_secs: u64) -> (r:
        Result<(), RateLimitError>)
        ensures
            ({
                let (after, refusal) = fetch_outcome(
                    old(self)@,
                    (user_id@, device_id@),
                    now_secs,
                );
                &&& final(self)@ == after
                &&& match (r, refusal) {
                    (Ok(_), None) => true,
                    (Err(e), Some(f)) => e@ == f,
                    _ => false,
                }
            }),
    {
        let window: u64 = self.window_duration_secs;
        let cap: usize = self.max_fetches_per_window;
        let ghost device = (user_id@, device_id@);
        let key = DeviceKey::from_slices(user_id, device_id);
        let cutoff: u64 = now_secs.saturating_sub(window);
        let times: Vec<u64> = match self.fetches.remove(&key) {
            Some(times) => times,
            None => Vec::new(),
        };
        assert(times@ =~= on_record(old(self)@, device));
        let mut recent = Self::keep_fresh(&times, cutoff);
        if recent.len() >= cap {
            if recent.len() > 0 {
                self.fetches.insert(key, recent);
            }
            assert(self@.fetches =~= with_record(
                old(self)@,
                device,
                in_window(old(self)@, device, now_secs),
            ).fetches);
            return Err(
                RateLimitError::Exceeded {
                    user_id: copy_bytes(user_id),
                    device_id: copy_bytes(device_id),
                    limit: cap,
                    window_secs: window,
                },
            );
        }
        recent.push(now_secs);
        let ghost updated = recent@;
        self.fetches.insert(key, recent);
        assert(self@.fetches =~= with_record(old(self)@, device, updated).fetches);
        Ok(())
    }

    /// Those of `times` that are not before `cutoff`.
    fn keep_fresh(times: &Vec<u64>, cutoff: u64) -> (r: Vec<u64>)
        ensures
            r@ == still_fresh(times@, cutoff),
    {
        let mut kept: Vec<u64> = Vec::new();
        let mut i: usize = 0;
        while i < times.len()
            invariant
                i <= times@.len(),
                kept@ == still_fresh(times@.take(i as int), cutoff),
            decreases times@.len() - i,
        {
            assert(times@.take(i + 1).drop_last() =~= times@.take(i as int));
            if times[i] >= cutoff {
                kept.push(times[i]);
            }
            i += 1;
        }
        assert(times@.take(times@.len() as int) =~= times@);
        kept
    }

    /// Forgets the fetches of a device.
    pub fn reset(&mut self, user_id: &[u8], device_id: &[u8])
        ensures
            final(self)@ == (LimiterView {
                fetches: old(self)@.fetches.remove((user_id@, device_id@)),
                ..old(self)@
            }),
    {
        let _ = self.fetches.remove(&DeviceKey::from_slices(user_id, device_id));
        assert(self@.fetches =~= old(self)@.fetches.remove((user_id@, device_id@)));
    }

    /// The number of devices with a fetch on record.
    pub fn tracked_devices(&self) -> (r: usize)
        ensures
            r == self@.fetches.dom().len(),
    {
        assert(self@.fetches.dom() =~= self.fetches@.dom());
        self.fetches.len()
    }

    /// The times of the fetches of a device that are on record.
    pub fn recorded(&self, user_id: &[u8], device_id: &[u8]) -> (r: Option<&Vec<u64>>)
        ensures
            match r {
                Some(times) => self@.fetches.contains_key((user_id@, device_id@))
                    && self@.fetches[(user_id@, device_id@)] == times@,
                None => !self@.fetches.contains_key((user_id@, device_id@)),
            },
    {
        self.fetches.get(&DeviceKey::from_slices(user_id, device_id))
    }
}

/// What `still_fresh` keeps: nothing that is too old, and everything else.
pub proof fn lemma_still_fresh(times: Seq<u64>, cutoff: u64)
    ensures
        still_fresh(times, cutoff).len() <= times.len(),
        forall|i: int|
            0 <= i < still_fresh(times, cutoff).len() ==> #[trigger] still_fresh(times, cutoff)[i]
                >= cutoff,
        forall|t: u64|
            t >= cutoff && #[trigger] times.contains(t) ==> still_fresh(times, cutoff).contains(t),
    decreases times.len(),
{
    if times.len() > 0 {
        let init = times.drop_last();
        let kept = still_fresh(init, cutoff);
        lemma_still_fresh(init, cutoff);
        assert forall|t: u64| t >= cutoff && #[trigger] times.contains(t) implies still_fresh(
            times,
            cutoff,
        ).contains(t) by {
            let i = choose|i: int| 0 <= i < times.len() && times[i] == t;
            if i < init.len() {
                assert(init[i] == t);
                assert(init.contains(t));
                let j = choose|j: int| 0 <= j < kept.len() && kept[j] == t;
                assert(still_fresh(times, cutoff)[j] == t);
            } else {
                assert(still_fresh(times, cutoff)[kept.len() as int] == t);
            }
        }
    }
}

/// Every device on record has a fetch on record, and none has more than the limit.
pub open spec fn limiter_wf(l: LimiterView) -> bool {
    forall|d: (Seq<u8>, Seq<u8>)| #[trigger]
        l.fetches.contains_key(d) ==> 0 < l.fetches[d].len() <= l.max_fetches_per_window
}

/// A new limiter is well formed, and everything that happens to one keeps it so.
pub proof fn limiter_stays_well_formed(
    l: LimiterView,
    device: (Seq<u8>, Seq<u8>),
    now: u64,
    max: usize,
    window: u64,
)
    requires
        limiter_wf(l),
    ensures
        limiter_wf(
            LimiterView {
                max_fetches_per_window: max,
                window_duration_secs: window,
                fetches: Map::empty(),
            },
        ),
        limiter_wf(fetch_outcome(l, device, now).0),
        limiter_wf(LimiterView { fetches: l.fetches.remove(device), ..l }),
{
    lemma_still_fresh(on_record(l, device), window_start(now, l.window_duration_secs));
    let after = fetch_outcome(l, device, now).0;
    assert forall|d: (Seq<u8>, Seq<u8>)| #[trigger] after.fetches.contains_key(d) implies 0
        < after.fetches[d].len() <= after.max_fetches_per_window by {
        if d != device {
            assert(l.fetches.contains_key(d));
        } else if l.fetches.contains_key(device) {
            assert(l.fetches[device].len() <= l.max_fetches_per_window);
        }
    }
    let removed = LimiterView { fetches: l.fetches.remove(device), ..l };
    assert forall|d: (Seq<u8>, Seq<u8>)| #[trigger] removed.fetches.contains_key(d) implies 0
        < removed.fetches[d].len() <= removed.max_fetches_per_window by {
        assert(l.fetches.contains_key(d));
    }
}

/// The fetches of one device do not count against another.
pub proof fn limits_are_kept_apart(
    l: LimiterView,
    device: (Seq<u8>, Seq<u8>),
    other: (Seq<u8>, Seq<u8>),
    now: u64,
)
    requires
        other != device,
    ensures
        on_record(fetch_outcome(l, device, now).0, other) == on_record(l, other),
{
}

/// The record of one device, and the fetches that were let through, after fetches at
/// the given times.
pub open spec fn history(cap: nat, window: u64, times: Seq<u64>) -> (Seq<u64>, Seq<u64>)
    decreases times.len(),
{
    if times.len() == 0 {
        (Seq::empty(), Seq::empty())
    } else {
        let (record, passed) = history(cap, window, times.drop_last());
        let now = times.last();
        let recent = still_fresh(record, window_start(now, window));
        if recent.len() >= cap {
            (recent, passed)
        } else {
            (recent.push(now), passed.push(now))
        }
    }
}

/// `true` if no time is before an earlier one.
pub open spec fn in_order(times: Seq<u64>) -> bool {
    forall|i: int, j: int| 0 <= i <= j < times.len() ==> times[i] <= times[j]
}

/// Of times in order, those that are still fresh are the last ones.
proof fn lemma_fresh_is_tail(times: Seq<u64>, cutoff: u64) -> (k: int)
    requires
        in_order(times),
    ensures
        0 <= k <= times.len(),
        still_fresh(times, cutoff) == times.skip(k),
        forall|i: int| 0 <= i < k ==> times[i] < cutoff,
    decreases times.len(),
{
    if times.len() == 0 {
        assert(times.skip(0) =~= still_fresh(times, cutoff));
        0
    } else {
        let init = times.drop_last();
        let k = lemma_fresh_is_tail(init, cutoff);
        assert forall|i: int| 0 <= i < k implies times[i] < cutoff by {
            assert(times[i] == init[i]);
        }
        if times.last() >= cutoff {
            assert(init.skip(k).push(times.last()) =~= times.skip(k));
            k
        } else {
            assert(k == init.len()) by {
                if k < init.len() {
                    lemma_still_fresh(init, cutoff);
                    assert(still_fresh(init, cutoff)[0] == init[k]);
                    assert(times[k] <= times[times.len() - 1]);
                }
            }
            assert(init.skip(k) =~= Seq::<u64>::empty());
            assert(times.skip(times.len() as int) =~= Seq::<u64>::empty());
            times.len() as int
        }
    }
}

/// What is on record are the last fetches that were let through, and those before
/// are older than the window.
proof fn lemma_history(cap: nat, window: u64, times: Seq<u64>) -> (k: int)
    requires
        in_order(times),
    ensures
        ({
            let (record, passed) = history(cap, window, times);
            &&& 0 <= k <= passed.len()
            &&& record == passed.skip(k)
            &&& record.len() <= cap
            &&& in_order(passed)
            &&& forall|i: int|
                0 <= i < k ==> times.len() > 0 && passed[i] < window_start(times.last(), window)
            &&& forall|i: int|
                0 <= i < passed.len() ==> times.len() > 0 && #[trigger] passed[i] <= times.last()
        }),
    decreases times.len(),
{
    let (record, passed) = history(cap, window, times);
    if times.len() == 0 {
        assert(record =~= passed.skip(0));
        0
    } else {
        let init = times.drop_last();
        let k = lemma_history(cap, window, init);
        let (record0, passed0) = history(cap, window, init);
        let now = times.last();
        let cutoff = window_start(now, window);
        if init.len() > 0 {
            assert(times[init.len() - 1] <= times[times.len() - 1]);
            assert(init.last() <= now);
        }
        assert(in_order(record0)) by {
            assert forall|i: int, j: int| 0 <= i <= j < record0.len() implies record0[i]
                <= record0[j] by {
                assert(record0[i] == passed0[i + k] && record0[j] == passed0[j + k]);
            }
        }
        let m = lemma_fresh_is_tail(record0, cutoff);
        let recent = still_fresh(record0, cutoff);
        lemma_still_fresh(record0, cutoff);
        assert(recent =~= passed0.skip(k + m));
        assert forall|i: int| 0 <= i < k + m implies passed0[i] < cutoff by {
            if i >= k {
                assert(passed0[i] == record0[i - k]);
            }
        }
        if recent.len() < cap {
            assert(passed0.skip(k + m).push(now) =~= passed.skip(k + m));
            assert forall|i: int| 0 <= i < k + m implies passed[i] < cutoff by {
                assert(passed[i] == passed0[i]);
            }
        }
        k + m
    }
}

/// A device whose clock does not go back never gets more than the limit through
/// within a window: of the fetches that were let through, any one and the one that
/// came `cap` places later are more than a window apart.
pub proof fn no_window_holds_more_than_the_limit(
    cap: nat,
    window: u64,
    times: Seq<u64>,
    i: int,
)
    requires
        in_order(times),
        0 <= i,
        i + cap < history(cap, window, times).1.len(),
    ensures
        history(cap, window, times).1[i + cap] > history(cap, window, times).1[i] + window,
    decreases times.len(),
{
    let (record, passed) = history(cap, window, times);
    if times.len() > 0 {
        let init = times.drop_last();
        let (record0, passed0) = history(cap, window, init);
        let now = times.last();
        if i + cap < passed0.len() {
            no_window_holds_more_than_the_limit(cap, window, init, i);
            assert(passed[i] == passed0[i]);
            assert(passed[i + cap] == passed0[i + cap]);
        } else {
            let k = lemma_history(cap, window, times);
            assert(record.len() <= cap);
            assert(i < k);
            assert(passed[i + cap] == now);
        }
    }
}

/// The limiter records and lets through what `history` says.
pub proof fn limiter_follows_history(
    l: LimiterView,
    device: (Seq<u8>, Seq<u8>),
    times: Seq<u64>,
    now: u64,
)
    requires
        on_record(l, device) == history(
            l.max_fetches_per_window as nat,
            l.window_duration_secs,
            times,
        ).0,
    ensures
        ({
            let (after, refusal) = fetch_outcome(l, device, now);
            let (record, passed) = history(
                l.max_fetches_per_window as nat,
                l.window_duration_secs,
                times.push(now),
            );
            let before = history(
                l.max_fetches_per_window as nat,
                l.window_duration_secs,
                times,
            ).1;
            &&& on_record(after, device) == record
            &&& refusal is None <==> passed == before.push(now)
            &&& refusal is Some <==> passed == before
        }),
{
    let cap = l.max_fetches_per_window as nat;
    assert(times.push(now).drop_last() =~= times);
    let before = history(cap, l.window_duration_secs, times).1;
    assert(before.push(now).len() == before.len() + 1);
    let recent = in_window(l, device, now);
    if recent.len() == 0 {
        assert(recent =~= Seq::<u64>::empty());
    }
}

/// The text of an error.
pub open spec fn rate_limit_error_text(e: RateLimitErrorView) -> Seq<char> {
    match e {
        RateLimitErrorView::Exceeded { user_id, device_id, limit, window_secs } => "device "@
            + byte_list(user_id) + "/"@ + byte_list(device_id) + " exceeded "@ + decimal(
            limit as nat,
        ) + " fetches per "@ + decimal(window_secs as nat) + "s window"@,
    }
}

impl RateLimitError {
    /// The text of the error.
    pub fn message(&self) -> (r: String)
        ensures
            r@ == rate_limit_error_text(self@),
    {
        match self {
            RateLimitError::Exceeded { user_id, device_id, limit, window_secs } => {
                let mut text: String = "device ".to_owned();
                push_byte_list(&mut text, user_id.as_slice());
                text.append("/");
                push_byte_list(&mut text, device_id.as_slice());
                text.append(" exceeded ");
                push_decimal(&mut text, *limit as u64);
                text.append(" fetches per ");
                push_decimal(&mut text, *window_secs);
                text.append("s window");
                text
            },
        }
    }
}

proof fn lemma_fresh_is_filtered(times: Seq<u64>, cutoff: u64)
    ensures
        still_fresh(times, cutoff) == times.filter(|t: u64| t >= cutoff),
    decreases times.len(),
{
    reveal(Seq::filter);
    if times.len() > 0 {
        lemma_fresh_is_filtered(times.drop_last(), cutoff);
    }
}

/// Those of `times` that are at most `window` before `now`, or after it.
pub open spec fn within(times: Seq<u64>, now: u64, window: u64) -> Seq<u64> {
    times.filter(|t: u64| t + window >= now)
}

/// A fetch is let through exactly when fewer than the limit of the device's fetches on
/// record lie within the window. Those stay on record, with the new one if it is let
/// through and without it otherwise.
pub proof fn fetch_passes_iff_the_window_has_room(
    l: LimiterView,
    device: (Seq<u8>, Seq<u8>),
    now: u64,
)
    ensures
        ({
            let recent = within(on_record(l, device), now, l.window_duration_secs);
            let (after, refusal) = fetch_outcome(l, device, now);
            &&& refusal is None <==> recent.len() < l.max_fetches_per_window
            &&& refusal is None ==> on_record(after, device) == recent.push(now)
            &&& refusal is Some ==> on_record(after, device) == recent
        }),
{
    let cutoff = window_start(now, l.window_duration_secs);
    let times = on_record(l, device);
    lemma_fresh_is_filtered(times, cutoff);
    let p = |t: u64| t >= cutoff;
    let q = |t: u64| t + l.window_duration_secs >= now;
    assert forall|t: u64| #[trigger] p(t) == q(t) by {}
    assert(p =~= q);
    let recent = within(times, now, l.window_duration_secs);
    if recent.len() == 0 {
        assert(recent =~= Seq::<u64>::empty());
    }
}

/// A fetch changes neither the limit nor the window, and a refusal names the device, the
/// limit and the window.
pub proof fn refused_fetch_names_device_and_limit(
    l: LimiterView,
    device: (Seq<u8>, Seq<u8>),
    now: u64,
)
    ensures
        fetch_outcome(l, device, now).0.max_fetches_per_window == l.max_fetches_per_window,
        fetch_outcome(l, device, now).0.window_duration_secs == l.window_duration_secs,
        fetch_outcome(l, device, now).1 matches Some(e) ==> e == (RateLimitErrorView::Exceeded {
            user_id: device.0,
            device_id: device.1,
            limit: l.max_fetches_per_window,
            window_secs: l.window_duration_secs,
        }),
{
}

/// With no fetch on record the next one is let through, unless the limit is 0, under
/// which none ever is.
pub proof fn first_fetch_passes(l: LimiterView, device: (Seq<u8>, Seq<u8>), now: u64)
    ensures
        !l.fetches.contains_key(device) ==> (fetch_outcome(l, device, now).1 is None
            <==> l.max_fetches_per_window > 0),
        l.max_fetches_per_window == 0 ==> fetch_outcome(l, device, now).1 is Some,
{
}

} // verus!
