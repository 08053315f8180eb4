//! Per-client request throttling with a window that resets.
//!
//! Each client key owns a counter and the moment its current window began. A
//! check either opens a new window, counts the request, or denies it. This is
//! a window-reset scheme, not a sliding log: a client that spends its budget
//! at the very end of one window and again at the start of the next gets up
//! to twice `max_requests` through in less than one window length. That
//! approximation is accepted.
//!
//! A limiter is one value; whoever shares it among tasks puts it behind a
//! lock, and each check is then one critical section.

use vstd::prelude::*;
use vstd::hash_map::StringHashMap;
use vstd::string::StringExecFns;
use crate::time::{clock_origin, elapsed_between, nanos_since, TimeSpan};

verus! {

/// What is remembered of one client: requests counted in the current window,
/// and the moment that window began.
#[derive(Clone, Copy, Debug, PartialEq, Eq, Structural)]
pub struct RateLimitEntry {
    pub count: u32,
    pub window_start: u128,
}

/// Budget of a limiter: at most `max_requests` per `window_duration`.
#[derive(Clone, Copy, Debug, PartialEq, Eq, Structural)]
pub struct RateLimitConfig {
    pub max_requests: u32,
    pub window_duration: TimeSpan,
}

impl Default for RateLimitConfig {
    /// One hundred requests per minute.
    fn default() -> (config: Self)
        ensures
            config.max_requests == 100,
            config.window_duration.spec_nanos() == 60 * 1_000_000_000,
    {
        RateLimitConfig { max_requests: 100, window_duration: TimeSpan::from_secs(60) }
    }
}

/// Seconds from one sweep of a limiter to the next.
pub const CLEANUP_INTERVAL_SECONDS: u64 = 300;

/// The entries of a limiter, by client key.
pub type Entries = Map<Seq<char>, RateLimitEntry>;

/// The window of `entry` has run out at `now`.
pub open spec fn window_expired(entry: RateLimitEntry, config: RateLimitConfig, now: u128) -> bool {
    elapsed_between(entry.window_start, now) >= config.window_duration.spec_nanos()
}

/// A request of `key` at `now` opens a new window: the key is unknown, or its
/// window has run out.
pub open spec fn opens_window(
    entries: Entries,
    config: RateLimitConfig,
    key: Seq<char>,
    now: u128,
) -> bool {
    !entries.contains_key(key) || window_expired(entries[key], config, now)
}

/// A request of `key` at `now` is let through.
pub open spec fn allows(entries: Entries, config: RateLimitConfig, key: Seq<char>, now: u128) -> bool {
    opens_window(entries, config, key, now) || entries[key].count < config.max_requests
}

/// The entries after a request of `key` at `now` has been checked. A denied
/// request changes nothing.
pub open spec fn after_check(
    entries: Entries,
    config: RateLimitConfig,
    key: Seq<char>,
    now: u128,
) -> Entries {
    if opens_window(entries, config, key, now) {
        entries.insert(key, RateLimitEntry { count: 1, window_start: now })
    } else if entries[key].count < config.max_requests {
        entries.insert(
            key,
            RateLimitEntry {
                count: (entries[key].count + 1) as u32,
                window_start: entries[key].window_start,
            },
        )
    } else {
        entries
    }
}

/// `entry` is kept by a sweep at `now`: its window began no more than two
/// window lengths ago. An entry exactly two window lengths old is kept.
pub open spec fn survives_cleanup(entry: RateLimitEntry, config: RateLimitConfig, now: u128) -> bool {
    elapsed_between(entry.window_start, now) <= 2 * config.window_duration.spec_nanos()
}

/// The entries after a sweep at `now`.
pub open spec fn after_cleanup(entries: Entries, config: RateLimitConfig, now: u128) -> Entries {
    Map::new(
        |key: Seq<char>| entries.contains_key(key) && survives_cleanup(entries[key], config, now),
        |key: Seq<char>| entries[key],
    )
}

/// No entry counts more than the budget, except that the request which opens
/// a window is always counted.
pub open spec fn counts_bounded(entries: Entries, config: RateLimitConfig) -> bool {
    forall|key: Seq<char>| #[trigger]
        entries.contains_key(key) ==> 1 <= entries[key].count && (entries[key].count
            <= config.max_requests || entries[key].count == 1)
}

/// `keys` lists the domain of `entries`, each key once.
pub open spec fn keys_list_domain(keys: Seq<String>, entries: Entries) -> bool {
    &&& forall|i: int, j: int| 0 <= i < j < keys.len() ==> keys[i]@ != keys[j]@
    &&& forall|i: int| 0 <= i < keys.len() ==> entries.contains_key(#[trigger] keys[i]@)
    &&& forall|key: Seq<char>| #[trigger]
        entries.contains_key(key) ==> exists|i: int| 0 <= i < keys.len() && keys[i]@ == key
}

/// Shared state of one limiter: its budget and what it remembers of each
/// client.
pub struct RateLimitState {
    entries: StringHashMap<RateLimitEntry>,
    keys: Vec<String>,
    config: RateLimitConfig,
    origin: std::time::Instant,
}

impl View for RateLimitState {
    type V = Entries;

    closed spec fn view(&self) -> Entries {
        self.entries@
    }
}

/// Checks one request against `entries` and records it.
fn check_entries(
    entries: &mut StringHashMap<RateLimitEntry>,
    keys: &mut Vec<String>,
    config: &RateLimitConfig,
    client_key: &str,
    now: u128,
) -> (allowed: bool)
    requires
        keys_list_domain(old(keys)@, old(entries)@),
        counts_bounded(old(entries)@, *config),
    ensures
        allowed == allows(old(entries)@, *config, client_key@, now),
        final(entries)@ == after_check(old(entries)@, *config, client_key@, now),
        keys_list_domain(final(keys)@, final(entries)@),
        counts_bounded(final(entries)@, *config),
{
    let ghost before = entries@;
    let window: u128 = config.window_duration.as_nanos();
    let found: Option<RateLimitEntry> = match entries.get(client_key) {
        Some(entry) => Some(*entry),
        None => None,
    };
    match found {
        Some(entry) => {
            if now.saturating_sub(entry.window_start) >= window {
                entries.insert(
                    String::from_str(client_key),
                    RateLimitEntry { count: 1, window_start: now },
                );
                proof {
                    lemma_overwrite_keeps_keys(keys@, before, entries@, client_key@);
                }
                true
            } else if entry.count >= config.max_requests {
                false
            } else {
                entries.insert(
                    String::from_str(client_key),
                    RateLimitEntry { count: entry.count + 1, window_start: entry.window_start },
                );
                proof {
                    lemma_overwrite_keeps_keys(keys@, before, entries@, client_key@);
                }
                true
            }
        },
        None => {
            let entry = RateLimitEntry { count: 1, window_start: now };
            let owned = String::from_str(client_key);
            proof {
                lemma_new_key_listed(keys@, before, owned, entry);
            }
            entries.insert(String::from_str(client_key), entry);
            keys.push(owned);
            true
        },
    }
}

/// Writing to a key that is already listed leaves the list of keys right.
proof fn lemma_overwrite_keeps_keys(
    keys: Seq<String>,
    before: Entries,
    after: Entries,
    key: Seq<char>,
)
    requires
        keys_list_domain(keys, before),
        before.contains_key(key),
        after.dom() =~= before.dom(),
    ensures
        keys_list_domain(keys, after),
{
    assert forall|k: Seq<char>| #[trigger] after.contains_key(k) implies exists|i: int|
        0 <= i < keys.len() && keys[i]@ == k by {
        assert(before.contains_key(k));
    }
    assert forall|i: int| 0 <= i < keys.len() implies after.contains_key(#[trigger] keys[i]@) by {
        assert(before.contains_key(keys[i]@));
    }
}

/// A key that the map does not hold can be added to the map and to the end
/// of the list.
proof fn lemma_new_key_listed(keys: Seq<String>, entries: Entries, key: String, entry: RateLimitEntry)
    requires
        keys_list_domain(keys, entries),
        !entries.contains_key(key@),
    ensures
        keys_list_domain(keys.push(key), entries.insert(key@, entry)),
{
    let longer = keys.push(key);
    let more = entries.insert(key@, entry);
    assert forall|i: int, j: int| 0 <= i < j < longer.len() implies longer[i]@ != longer[j]@ by {
        assert(longer[i] == keys[i]);
        assert(entries.contains_key(keys[i]@));
        if j < keys.len() {
            assert(longer[j] == keys[j]);
        }
    }
    assert forall|i: int| 0 <= i < longer.len() implies more.contains_key(#[trigger] longer[i]@) by {
        if i < keys.len() {
            assert(longer[i] == keys[i]);
            assert(entries.contains_key(keys[i]@));
        }
    }
    assert forall|k: Seq<char>| #[trigger] more.contains_key(k) implies exists|i: int|
        0 <= i < longer.len() && longer[i]@ == k by {
        if k == key@ {
            assert(longer[keys.len() as int]@ == k);
        } else {
            assert(entries.contains_key(k));
            let i = choose|i: int| 0 <= i < keys.len() && keys[i]@ == k;
            assert(longer[i]@ == k);
        }
    }
}

/// A listed key can be taken out of the map and out of the list.
proof fn lemma_listed_key_removed(keys: Seq<String>, entries: Entries, at: int)
    requires
        keys_list_domain(keys, entries),
        0 <= at < keys.len(),
    ensures
        keys_list_domain(keys.remove(at), entries.remove(keys[at]@)),
{
    let shorter = keys.remove(at);
    let fewer = entries.remove(keys[at]@);
    assert forall|i: int| 0 <= i < shorter.len() implies #[trigger] shorter[i] == keys[if i
        < at {
        i
    } else {
        i + 1
    }] by {}
    assert forall|i: int, j: int| 0 <= i < j < shorter.len() implies shorter[i]@
        != shorter[j]@ by {
        let wide_i = if i < at { i } else { i + 1 };
        let wide_j = if j < at { j } else { j + 1 };
        assert(shorter[i] == keys[wide_i]);
        assert(shorter[j] == keys[wide_j]);
    }
    assert forall|i: int| 0 <= i < shorter.len() implies fewer.contains_key(
        #[trigger] shorter[i]@,
    ) by {
        let wide_i = if i < at { i } else { i + 1 };
        assert(shorter[i] == keys[wide_i]);
        assert(entries.contains_key(keys[wide_i]@));
        assert(keys[wide_i]@ != keys[at]@);
    }
    assert forall|k: Seq<char>| #[trigger] fewer.contains_key(k) implies exists|i: int|
        0 <= i < shorter.len() && shorter[i]@ == k by {
        assert(entries.contains_key(k));
        let wide = choose|i: int| 0 <= i < keys.len() && keys[i]@ == k;
        let i = if wide < at { wide } else { wide - 1 };
        assert(shorter[i] == keys[wide]);
    }
}

/// Drops from `entries` what a sweep at `now` does not keep.
fn sweep_entries(
    entries: &mut StringHashMap<RateLimitEntry>,
    keys: &mut Vec<String>,
    config: &RateLimitConfig,
    now: u128,
)
    requires
        keys_list_domain(old(keys)@, old(entries)@),
        counts_bounded(old(entries)@, *config),
    ensures
        final(entries)@ == after_cleanup(old(entries)@, *config, now),
        keys_list_domain(final(keys)@, final(entries)@),
        counts_bounded(final(entries)@, *config),
{
    let ghost before = entries@;
    let window: u128 = config.window_duration.as_nanos();
    let mut kept: Vec<String> = Vec::new();
    let mut i: usize = 0;
    assert(kept@ + keys@.subrange(0, keys.len() as int) =~= keys@);
    while i < keys.len()
        invariant
            0 <= i <= keys.len(),
            window == config.window_duration.spec_nanos(),
            keys_list_domain(kept@ + keys@.subrange(i as int, keys.len() as int), entries@),
            forall|key: Seq<char>| #[trigger]
                entries@.contains_key(key) ==> before.contains_key(key) && entries@[key]
                    == before[key],
            forall|key: Seq<char>| #[trigger]
                before.contains_key(key) && !entries@.contains_key(key) ==> !survives_cleanup(
                    before[key],
                    *config,
                    now,
                ),
            forall|a: int|
                0 <= a < kept.len() ==> survives_cleanup(before[#[trigger] kept[a]@], *config, now),
        decreases keys.len() - i,
    {
        let ghost listed = kept@ + keys@.subrange(i as int, keys.len() as int);
        let ghost rest = keys@.subrange(i as int + 1, keys.len() as int);
        let ghost kept_before = kept@;
        let key: &String = &keys[i];
        assert(listed[kept.len() as int] == keys[i as int]);
        assert(entries@.contains_key(listed[kept.len() as int]@));
        let stays: bool = match entries.get(key.as_str()) {
            Some(entry) => {
                let age: u128 = now.saturating_sub(entry.window_start);
                match window.checked_mul(2) {
                    Some(horizon) => age <= horizon,
                    None => true,
                }
            },
            None => false,
        };
        assert(stays == survives_cleanup(before[keys[i as int]@], *config, now));
        if stays {
            kept.push(key.clone());
            assert(kept@ + rest =~= listed);
        } else {
            proof {
                lemma_listed_key_removed(listed, entries@, kept.len() as int);
                assert(listed.remove(kept.len() as int) =~= kept@ + rest);
            }
            entries.remove(key.as_str());
        }
        i += 1;
    }
    proof {
        assert(kept@ + keys@.subrange(i as int, keys.len() as int) =~= kept@);
        let swept = after_cleanup(before, *config, now);
        assert forall|key: Seq<char>| entries@.contains_key(key) implies swept.contains_key(
            key,
        ) by {
            let a = choose|a: int| 0 <= a < kept.len() && kept[a]@ == key;
            assert(survives_cleanup(before[kept[a]@], *config, now));
        }
        assert(entries@ =~= swept);
    }
    *keys = kept;
}

impl RateLimitState {
    /// What the limiter holds is consistent: every client is listed once, and
    /// no count is over the budget.
    #[verifier::type_invariant]
    closed spec fn consistent(&self) -> bool {
        &&& keys_list_domain(self.keys@, self.entries@)
        &&& counts_bounded(self.entries@, self.config)
    }

    /// The budget this limiter was made with.
    pub closed spec fn spec_config(&self) -> RateLimitConfig {
        self.config
    }

    /// A limiter that has seen no client. Moments handed to it are counted in
    /// nanoseconds from now.
    pub fn new(config: RateLimitConfig) -> (state: Self)
        ensures
            state@ == Entries::empty(),
            state.spec_config() == config,
    {
        RateLimitState {
            entries: StringHashMap::new(),
            keys: Vec::new(),
            config,
            origin: clock_origin(),
        }
    }

    /// Moves the limiter's state out and leaves an empty limiter of the same
    /// budget and clock in its place.
    fn take(&mut self) -> (held: Self)
        ensures
            held == *old(self),
            held.consistent(),
            final(self).config == old(self).config,
    {
        proof {
            use_type_invariant(&*self);
        }
        let mut held = RateLimitState {
            entries: StringHashMap::new(),
            keys: Vec::new(),
            config: self.config,
            origin: self.origin,
        };
        std::mem::swap(self, &mut held);
        held
    }

    /// The budget this limiter was made with.
    pub fn config(&self) -> (config: RateLimitConfig)
        ensures
            config == self.spec_config(),
    {
        self.config
    }

    /// Number of clients that the limiter remembers.
    pub fn tracked_clients(&self) -> (count: usize)
        ensures
            count == self@.len(),
            self@.dom().finite(),
    {
        proof {
            use_type_invariant(self);
            lemma_listed_domain_len(self.keys@, self.entries@);
        }
        self.keys.len()
    }

    /// Recalls what holds of every limiter: no count is over the budget.
    pub fn counts_within_budget(&self)
        ensures
            counts_bounded(self@, self.spec_config()),
    {
        proof {
            use_type_invariant(self);
        }
    }

    /// Nanoseconds on the limiter's clock: the time since it was made.
    pub fn now(&self) -> u128 {
        nanos_since(&self.origin)
    }

    /// Checks a request of `client_key` made at `now`, and counts it if it is
    /// let through. A new window opens where the client is unknown or its
    /// window has run out; otherwise the request passes while the count is
    /// under the budget; otherwise it is denied and nothing changes.
    pub fn check_rate_limit_at(&mut self, client_key: &str, now: u128) -> (allowed: bool)
        ensures
            allowed == allows(old(self)@, old(self).spec_config(), client_key@, now),
            final(self)@ == after_check(old(self)@, old(self).spec_config(), client_key@, now),
            final(self).spec_config() == old(self).spec_config(),
            counts_bounded(final(self)@, final(self).spec_config()),
    {
        let RateLimitState { mut entries, mut keys, config, origin } = self.take();
        let allowed = check_entries(&mut entries, &mut keys, &config, client_key, now);
        *self = RateLimitState { entries, keys, config, origin };
        allowed
    }

    /// Checks a request of `client_key` made now, on the limiter's own clock.
    pub fn check_rate_limit(&mut self, client_key: &str) -> (allowed: bool)
        ensures
            exists|now: u128|
                {
                    &&& allowed == allows(old(self)@, old(self).spec_config(), client_key@, now)
                    &&& final(self)@ == #[trigger] after_check(
                        old(self)@,
                        old(self).spec_config(),
                        client_key@,
                        now,
                    )
                },
            final(self).spec_config() == old(self).spec_config(),
    {
        let now = self.now();
        self.check_rate_limit_at(client_key, now)
    }

    /// Forgets every client whose window began more than two window lengths
    /// before `now`, and no other.
    pub fn cleanup_expired_entries_at(&mut self, now: u128)
        ensures
            final(self)@ == after_cleanup(old(self)@, old(self).spec_config(), now),
            final(self).spec_config() == old(self).spec_config(),
            counts_bounded(final(self)@, final(self).spec_config()),
    {
        let RateLimitState { mut entries, mut keys, config, origin } = self.take();
        sweep_entries(&mut entries, &mut keys, &config, now);
        *self = RateLimitState { entries, keys, config, origin };
    }

    /// Forgets every client whose window began more than two window lengths
    /// ago on the limiter's own clock, and no other.
    pub fn cleanup_expired_entries(&mut self)
        ensures
            exists|now: u128| final(self)@ == #[trigger] after_cleanup(
                old(self)@,
                old(self).spec_config(),
                now,
            ),
            final(self).spec_config() == old(self).spec_config(),
    {
        let now = self.now();
        self.cleanup_expired_entries_at(now);
    }
}

impl Default for RateLimitState {
    /// A limiter with the default budget.
    fn default() -> (state: Self)
        ensures
            state@ == Entries::empty(),
            state.spec_config().max_requests == 100,
            state.spec_config().window_duration.spec_nanos() == 60 * 1_000_000_000,
    {
        RateLimitState::new(RateLimitConfig::default())
    }
}

/// A map whose domain a list names, each key once, has as many entries as the
/// list is long.
proof fn lemma_listed_domain_len(keys: Seq<String>, entries: Entries)
    requires
        keys_list_domain(keys, entries),
    ensures
        entries.dom().finite(),
        entries.len() == keys.len(),
    decreases keys.len(),
{
    if keys.len() == 0 {
        assert(entries.dom() =~= Set::<Seq<char>>::empty());
    } else {
        let last = keys[keys.len() - 1];
        let rest = keys.drop_last();
        let fewer = entries.remove(last@);
        assert forall|key: Seq<char>| #[trigger] fewer.contains_key(key) implies exists|i: int|
            0 <= i < rest.len() && rest[i]@ == key by {
            let i = choose|i: int| 0 <= i < keys.len() && keys[i]@ == key;
            assert(rest[i] == keys[i]);
        }
        assert forall|i: int| 0 <= i < rest.len() implies fewer.contains_key(#[trigger] rest[i]@) by {
            assert(rest[i] == keys[i]);
        }
        lemma_listed_domain_len(rest, fewer);
        assert(entries.dom() =~= fewer.dom().insert(last@));
    }
}

/// The entries after requests of `key` at each of `moments`, in turn.
pub open spec fn after_checks(
    entries: Entries,
    config: RateLimitConfig,
    key: Seq<char>,
    moments: Seq<u128>,
) -> Entries
    decreases moments.len(),
{
    if moments.len() == 0 {
        entries
    } else {
        after_check(
            after_checks(entries, config, key, moments.drop_last()),
            config,
            key,
            moments.last(),
        )
    }
}

/// The count that a window holds once `requests` requests were made in it.
pub open spec fn count_in_window(config: RateLimitConfig, requests: int) -> int {
    if requests <= 1 || config.max_requests == 0 {
        1
    } else if requests <= config.max_requests {
        requests
    } else {
        config.max_requests as int
    }
}

/// While every request of `key` after the first falls into the window that
/// the first one opened, the entry of `key` holds that window's start and the
/// number of requests let through.
proof fn lemma_entry_within_window(
    entries: Entries,
    config: RateLimitConfig,
    key: Seq<char>,
    moments: Seq<u128>,
)
    requires
        moments.len() >= 1,
        opens_window(entries, config, key, moments[0]),
        forall|j: int|
            1 <= j < moments.len() ==> elapsed_between(moments[0], #[trigger] moments[j])
                < config.window_duration.spec_nanos(),
    ensures
        after_checks(entries, config, key, moments).contains_key(key),
        after_checks(entries, config, key, moments)[key] == (RateLimitEntry {
            count: count_in_window(config, moments.len() as int) as u32,
            window_start: moments[0],
        }),
    decreases moments.len(),
{
    let earlier = moments.drop_last();
    if moments.len() == 1 {
        assert(earlier.len() == 0);
        assert(after_checks(entries, config, key, earlier) == entries);
    } else {
        assert(earlier[0] == moments[0]);
        assert forall|j: int| 1 <= j < earlier.len() implies elapsed_between(
            earlier[0],
            #[trigger] earlier[j],
        ) < config.window_duration.spec_nanos() by {
            assert(earlier[j] == moments[j]);
        }
        lemma_entry_within_window(entries, config, key, earlier);
        assert(moments.last() == moments[moments.len() - 1]);
    }
}

/// The budget of one window. Of the requests that a client makes within one
/// window, counted from the request that opened it, the first is let
/// through, and each later one exactly while fewer than `max_requests` came
/// before it.
pub proof fn lemma_budget_within_window(
    entries: Entries,
    config: RateLimitConfig,
    key: Seq<char>,
    moments: Seq<u128>,
    i: int,
)
    requires
        0 <= i < moments.len(),
        opens_window(entries, config, key, moments[0]),
        forall|j: int|
            1 <= j < moments.len() ==> elapsed_between(moments[0], #[trigger] moments[j])
                < config.window_duration.spec_nanos(),
    ensures
        allows(after_checks(entries, config, key, moments.take(i)), config, key, moments[i]) == (i
            == 0 || i < config.max_requests),
{
    let earlier = moments.take(i);
    if i == 0 {
        assert(after_checks(entries, config, key, earlier) == entries);
    } else {
        assert(earlier[0] == moments[0]);
        assert forall|j: int| 1 <= j < earlier.len() implies elapsed_between(
            earlier[0],
            #[trigger] earlier[j],
        ) < config.window_duration.spec_nanos() by {
            assert(earlier[j] == moments[j]);
        }
        lemma_entry_within_window(entries, config, key, earlier);
    }
}

/// Once the window of a client has run out, its next request is let through
/// and opens a new window that has counted that one request.
pub proof fn lemma_window_reset(
    entries: Entries,
    config: RateLimitConfig,
    key: Seq<char>,
    now: u128,
)
    requires
        entries.contains_key(key),
        elapsed_between(entries[key].window_start, now) >= config.window_duration.spec_nanos(),
    ensures
        allows(entries, config, key, now),
        after_check(entries, config, key, now)[key] == (RateLimitEntry {
            count: 1,
            window_start: now,
        }),
{
}

/// Clients do not share a budget. A request of one client changes nothing
/// that is remembered of another, so it never changes whether a request of
/// the other is let through; and requests of two clients can be checked in
/// either order.
pub proof fn lemma_clients_independent(
    entries: Entries,
    config: RateLimitConfig,
    key: Seq<char>,
    other: Seq<char>,
    now: u128,
    later: u128,
)
    requires
        key != other,
    ensures
        after_check(entries, config, key, now).contains_key(other) == entries.contains_key(other),
        after_check(entries, config, key, now)[other] == entries[other],
        allows(after_check(entries, config, key, now), config, other, later) == allows(
            entries,
            config,
            other,
            later,
        ),
        after_check(after_check(entries, config, key, now), config, other, later) == after_check(
            after_check(entries, config, other, later),
            config,
            key,
            now,
        ),
{
    assert(after_check(after_check(entries, config, key, now), config, other, later) =~= after_check(
        after_check(entries, config, other, later),
        config,
        key,
        now,
    ));
}

/// A check never takes a count over the budget: where every count was within
/// it before, every count is within it after.
pub proof fn lemma_check_keeps_counts_bounded(
    entries: Entries,
    config: RateLimitConfig,
    key: Seq<char>,
    now: u128,
)
    requires
        counts_bounded(entries, config),
    ensures
        counts_bounded(after_check(entries, config, key, now), config),
{
    let after = after_check(entries, config, key, now);
    assert forall|k: Seq<char>| #[trigger] after.contains_key(k) implies 1 <= after[k].count && (
    after[k].count <= config.max_requests || after[k].count == 1) by {
        if k != key {
            assert(entries.contains_key(k));
        } else if entries.contains_key(key) {
        }
    }
}

/// The start of a window only moves forward: a check at a moment that is not
/// before the window's start leaves the start where it was or moves it to
/// that moment.
pub proof fn lemma_window_start_advances(
    entries: Entries,
    config: RateLimitConfig,
    key: Seq<char>,
    now: u128,
)
    requires
        entries.contains_key(key),
        entries[key].window_start <= now,
    ensures
        after_check(entries, config, key, now).contains_key(key),
        entries[key].window_start <= after_check(entries, config, key, now)[key].window_start
            <= now,
{
}

/// A sweep only forgets: what it keeps is unchanged, and it keeps exactly
/// what began its window no more than two window lengths before the sweep.
pub proof fn lemma_cleanup_keeps_recent(
    entries: Entries,
    config: RateLimitConfig,
    now: u128,
    key: Seq<char>,
)
    ensures
        after_cleanup(entries, config, now).contains_key(key) <==> entries.contains_key(key)
            && survives_cleanup(entries[key], config, now),
        after_cleanup(entries, config, now).contains_key(key) ==> after_cleanup(
            entries,
            config,
            now,
        )[key] == entries[key],
{
}

/// A strict budget for sensitive endpoints: ten requests per minute.
pub fn create_strict_rate_limiter() -> (state: RateLimitState)
    ensures
        state@ == Entries::empty(),
        state.spec_config().max_requests == 10,
        state.spec_config().window_duration.spec_nanos() == 60 * 1_000_000_000,
{
    RateLimitState::new(
        RateLimitConfig { max_requests: 10, window_duration: TimeSpan::from_secs(60) },
    )
}

/// The budget for endpoints that move funds: five requests per five minutes.
pub fn create_action_rate_limiter() -> (state: RateLimitState)
    ensures
        state@ == Entries::empty(),
        state.spec_config().max_requests == 5,
        state.spec_config().window_duration.spec_nanos() == 300 * 1_000_000_000,
{
    RateLimitState::new(
        RateLimitConfig { max_requests: 5, window_duration: TimeSpan::from_secs(300) },
    )
}

} // verus!
