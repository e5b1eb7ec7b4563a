//! The registry of feeds, held in a `dashmap::DashMap` keyed by feed id.

use vstd::prelude::*;
use dashmap::DashMap;
use crate::domain::data_point::{FeedId, VerifiedDataPoint};
use crate::domain::feed::{FeedCategory, FeedConfig, FeedState};
use crate::error::OracleError;

verus! {

#[verifier::external_type_specification]
#[verifier::external_body]
#[verifier::reject_recursive_types(K)]
#[verifier::reject_recursive_types(V)]
#[verifier::reject_recursive_types(S)]
pub struct ExDashMap<K, V, S>(DashMap<K, V, S>);

/// What a feed table holds: for each key, by the characters of its id, the
/// state stored under it.
/// The map type that holds the registry.
pub type FeedTable = DashMap<FeedId, FeedState>;

/// A key of the registry with the state stored under it.
pub type FeedEntry = (FeedId, FeedState);

pub uninterp spec fn feed_table(map: FeedTable) -> Map<Seq<char>, FeedState>;

/// `DashMap::new`: a new map holds no entry.
#[verifier::external_body]
fn table_new() -> (m: FeedTable)
    ensures
        feed_table(m).dom() == Set::<Seq<char>>::empty(),
{
    DashMap::new()
}


/// `DashMap::insert`: the key now maps to the value; what it mapped to before,
/// if anything, is handed back.
#[verifier::external_body]
fn table_insert(map: &mut FeedTable, key: FeedId, value: FeedState) -> (previous: Option<FeedState>)
    ensures
        feed_table(*final(map)) == feed_table(*old(map)).insert(key.0@, value),
        previous == (if feed_table(*old(map)).contains_key(key.0@) {
            Some(feed_table(*old(map))[key.0@])
        } else {
            None
        }),
{
    map.insert(key, value)
}

/// `DashMap::get`, with the entry's value cloned out of the returned guard.
#[verifier::external_body]
fn table_get(map: &FeedTable, key: &FeedId) -> (found: Option<FeedState>)
    ensures
        found == (if feed_table(*map).contains_key(key.0@) {
            Some(feed_table(*map)[key.0@])
        } else {
            None
        }),
{
    map.get(key).map(|entry| entry.value().clone())
}

/// `DashMap::get_mut`, with the entry's value overwritten through the returned
/// guard: the key, if present, now maps to the value; otherwise nothing changes.
#[verifier::external_body]
fn table_replace(map: &mut FeedTable, key: &FeedId, value: FeedState) -> (present: bool)
    ensures
        present == feed_table(*old(map)).contains_key(key.0@),
        feed_table(*final(map)) == (if present {
            feed_table(*old(map)).insert(key.0@, value)
        } else {
            feed_table(*old(map))
        }),
{
    match map.get_mut(key) {
        Some(mut entry) => {
            *entry.value_mut() = value;
            true
        },
        None => false,
    }
}

/// `DashMap::iter`, with each entry's key and value cloned out: every entry
/// comes out exactly once, in an order that the map's hashing decides.
#[verifier::external_body]
fn table_entries(map: &FeedTable) -> (entries: Vec<FeedEntry>)
    ensures
        entries.len() == feed_table(*map).dom().len(),
        feed_table(*map).dom() == entries@.map_values(|e: FeedEntry| e.0.0@).to_set(),
        forall|i: int|
            0 <= i < entries.len() ==> feed_table(*map)[#[trigger] entries[i].0.0@] == entries[i].1,
        forall|i: int|
            0 <= i < entries.len() ==> forall|j: int|
                0 <= j < entries.len() && i != j ==> #[trigger] entries[i].0.0@ != #[trigger] entries[j].0.0@,
{
    map.iter().map(|entry| (entry.key().clone(), entry.value().clone())).collect()
}


/// The state of a feed that has just been registered with `config`.
pub open spec fn fresh_state(config: FeedConfig) -> FeedState {
    FeedState { config, last_value: None, last_update: None, error_count: 0 }
}

/// The state of a feed after `point` was published on it: the point is its
/// latest value, its time the latest update, and the error count is cleared.
pub open spec fn published(state: FeedState, point: VerifiedDataPoint) -> FeedState {
    FeedState {
        config: state.config,
        last_value: Some(point),
        last_update: Some(point.timestamp),
        error_count: 0,
    }
}

/// The state of a feed after one more fetch error.
pub open spec fn failed_once(state: FeedState) -> FeedState {
    FeedState {
        config: state.config,
        last_value: state.last_value,
        last_update: state.last_update,
        error_count: (state.error_count + 1) as u32,
    }
}

/// What a lookup of `id` in the table finds.
pub open spec fn lookup(table: Map<Seq<char>, FeedState>, id: Seq<char>) -> Option<FeedState> {
    if table.contains_key(id) {
        Some(table[id])
    } else {
        None
    }
}

/// The table after `point` was published: the feed it names, if registered,
/// is updated; nothing else changes.
pub open spec fn after_update(table: Map<Seq<char>, FeedState>, point: VerifiedDataPoint) -> Map<
    Seq<char>,
    FeedState,
> {
    let id = point.feed_id.0@;
    if table.contains_key(id) {
        table.insert(id, published(table[id], point))
    } else {
        table
    }
}

/// The table after an error was recorded for `id`: the feed, if registered,
/// counts one more error; nothing else changes.
pub open spec fn after_error(table: Map<Seq<char>, FeedState>, id: Seq<char>) -> Map<
    Seq<char>,
    FeedState,
> {
    if table.contains_key(id) {
        table.insert(id, failed_once(table[id]))
    } else {
        table
    }
}

/// A table is well formed when it is finite and every feed is stored under
/// its own id.
pub open spec fn table_wf(table: Map<Seq<char>, FeedState>) -> bool {
    &&& table.dom().finite()
    &&& forall|k: Seq<char>| #[trigger] table.contains_key(k) ==> table[k].config.id.0@ == k
}

/// `feeds` lists the active feeds of the table: each of them exactly once,
/// as stored, and nothing else.
pub open spec fn lists_active_feeds(table: Map<Seq<char>, FeedState>, feeds: Seq<FeedState>) -> bool {
    &&& forall|i: int|
        0 <= i < feeds.len() ==> {
            &&& (#[trigger] feeds[i]).config.active
            &&& table.contains_key(feeds[i].config.id.0@)
            &&& table[feeds[i].config.id.0@] == feeds[i]
        }
    &&& forall|i: int|
        0 <= i < feeds.len() ==> forall|j: int|
            0 <= j < feeds.len() && i != j ==> (#[trigger] feeds[i]).config.id.0@
                != (#[trigger] feeds[j]).config.id.0@
    &&& forall|k: Seq<char>|
        #[trigger] table.contains_key(k) && table[k].config.active ==> exists|i: int|
            0 <= i < feeds.len() && (#[trigger] feeds[i]).config.id.0@ == k
}

/// A feed registered by default: a crypto feed, active, that has published
/// nothing yet.
pub open spec fn is_default_feed(state: FeedState, id: Seq<char>, name: Seq<char>) -> bool {
    &&& state.config.id.0@ == id
    &&& state.config.name@ == name
    &&& state.config.category == FeedCategory::Crypto
    &&& state.config.active
    &&& state.is_fresh()
}

/// A configuration registered by default: an active crypto feed.
pub open spec fn is_default_config(config: FeedConfig, id: Seq<char>, name: Seq<char>) -> bool {
    &&& config.id.0@ == id
    &&& config.name@ == name
    &&& config.category == FeedCategory::Crypto
    &&& config.active
}

fn default_feed_config(id: &str, name: &str) -> (r: FeedConfig)
    ensures
        is_default_config(r, id@, name@),
{
    FeedConfig { id: FeedId::new(id), name: name.to_owned(), category: FeedCategory::Crypto, active: true }
}

/// The feeds registered by default, in the order they are registered.
fn default_feed_configs() -> (r: Vec<FeedConfig>)
    ensures
        r.len() == 3,
        is_default_config(r[0], "ETH/USD"@, "Ethereum / US Dollar"@),
        is_default_config(r[1], "BTC/USD"@, "Bitcoin / US Dollar"@),
        is_default_config(r[2], "SOL/USD"@, "Solana / US Dollar"@),
        r[0].id.0@ != r[1].id.0@ && r[0].id.0@ != r[2].id.0@ && r[1].id.0@ != r[2].id.0@,
{
    let mut r = Vec::new();
    r.push(default_feed_config("ETH/USD", "Ethereum / US Dollar"));
    r.push(default_feed_config("BTC/USD", "Bitcoin / US Dollar"));
    r.push(default_feed_config("SOL/USD", "Solana / US Dollar"));
    proof {
        reveal_strlit("ETH/USD");
        reveal_strlit("BTC/USD");
        reveal_strlit("SOL/USD");
        assert("ETH/USD"@[0] != "BTC/USD"@[0]);
        assert("ETH/USD"@[0] != "SOL/USD"@[0]);
        assert("BTC/USD"@[0] != "SOL/USD"@[0]);
    }
    r
}

/// The registry of feeds and their live state.
pub struct FeedManager {
    feeds: FeedTable,
}

impl View for FeedManager {
    type V = Map<Seq<char>, FeedState>;

    closed spec fn view(&self) -> Map<Seq<char>, FeedState> {
        feed_table(self.feeds)
    }
}

impl FeedManager {
    pub open spec fn wf(&self) -> bool {
        table_wf(self@)
    }

    pub fn new() -> (r: FeedManager)
        ensures
            r.wf(),
            r@ == Map::<Seq<char>, FeedState>::empty(),
    {
        let r = FeedManager { feeds: table_new() };
        assert(r@ =~= Map::<Seq<char>, FeedState>::empty());
        r
    }

    /// Registers the default feeds (ETH/USD, BTC/USD, SOL/USD), replacing any
    /// state already held under those ids.
    pub fn initialize_default_feeds(&mut self)
        requires
            old(self).wf(),
        ensures
            final(self).wf(),
            final(self)@.dom() == old(self)@.dom().insert("ETH/USD"@).insert("BTC/USD"@).insert(
                "SOL/USD"@,
            ),
            forall|k: Seq<char>|
                #[trigger] old(self)@.contains_key(k) && k != "ETH/USD"@ && k != "BTC/USD"@ && k
                    != "SOL/USD"@ ==> final(self)@[k] == old(self)@[k],
            is_default_feed(final(self)@["ETH/USD"@], "ETH/USD"@, "Ethereum / US Dollar"@),
            is_default_feed(final(self)@["BTC/USD"@], "BTC/USD"@, "Bitcoin / US Dollar"@),
            is_default_feed(final(self)@["SOL/USD"@], "SOL/USD"@, "Solana / US Dollar"@),
    {
        let default_feeds = default_feed_configs();
        let n = default_feeds.len();
        let mut i: usize = 0;
        while i < n
            invariant
                n == default_feeds.len(),
                i <= n,
                self.wf(),
                forall|a: int, b: int|
                    #![trigger default_feeds[a], default_feeds[b]]
                    0 <= a < n && 0 <= b < n && a != b ==> default_feeds[a].id.0@ != default_feeds[b].id.0@,
                forall|k: Seq<char>|
                    #[trigger] self@.contains_key(k) <==> (old(self)@.contains_key(k) || exists|j: int|
                        0 <= j < i && (#[trigger] default_feeds[j]).id.0@ == k),
                forall|k: Seq<char>|
                    #[trigger] old(self)@.contains_key(k) && (forall|j: int|
                        0 <= j < i ==> (#[trigger] default_feeds[j]).id.0@ != k) ==> self@[k] == old(
                        self,
                    )@[k],
                forall|j: int|
                    0 <= j < i ==> self@[(#[trigger] default_feeds[j]).id.0@] == fresh_state(
                        default_feeds[j],
                    ),
            decreases n - i,
        {
            let config = default_feeds[i].clone();
            let feed_id = config.id.clone();
            let ghost before = self@;
            let _ = table_insert(&mut self.feeds, feed_id, FeedState::new(config));
            assert(self@ == before.insert(default_feeds[i as int].id.0@, fresh_state(default_feeds[i as int])));
            assert forall|k: Seq<char>|
                #[trigger] self@.contains_key(k) <==> (old(self)@.contains_key(k) || exists|j: int|
                    0 <= j < i + 1 && (#[trigger] default_feeds[j]).id.0@ == k) by {
                if self@.contains_key(k) && k != default_feeds[i as int].id.0@ {
                    assert(before.contains_key(k));
                }
                if exists|j: int| 0 <= j < i + 1 && (#[trigger] default_feeds[j]).id.0@ == k {
                    let j = choose|j: int| 0 <= j < i + 1 && (#[trigger] default_feeds[j]).id.0@ == k;
                    if j < i {
                        assert(before.contains_key(k));
                    }
                }
            }
            i = i + 1;
        }
        proof {
            let eth = default_feeds[0].id.0@;
            let btc = default_feeds[1].id.0@;
            let sol = default_feeds[2].id.0@;
            assert(self@.dom() =~= old(self)@.dom().insert(eth).insert(btc).insert(sol)) by {
                assert(self@.contains_key(eth) && self@.contains_key(btc) && self@.contains_key(sol));
            }
            assert forall|k: Seq<char>|
                #[trigger] old(self)@.contains_key(k) && k != eth && k != btc && k != sol implies self@[k]
                    == old(self)@[k] by {
            }
            assert(self@[eth] == fresh_state(default_feeds[0]));
            assert(self@[btc] == fresh_state(default_feeds[1]));
            assert(self@[sol] == fresh_state(default_feeds[2]));
        }
    }

    /// The active feeds, each once, in the order the table hands them out.
    pub fn get_all_feeds(&self) -> (r: Vec<FeedState>)
        requires
            self.wf(),
        ensures
            lists_active_feeds(self@, r@),
    {
        let entries = table_entries(&self.feeds);
        let ghost keys = entries@.map_values(|e: FeedEntry| e.0.0@);
        let mut r: Vec<FeedState> = Vec::new();
        let n = entries.len();
        for idx in 0..n
            invariant
                n == entries.len(),
                self.wf(),
                keys == entries@.map_values(|e: FeedEntry| e.0.0@),
                self@.dom() == keys.to_set(),
                forall|i: int| 0 <= i < entries.len() ==> self@[#[trigger] entries[i].0.0@] == entries[i].1,
                forall|i: int|
                    0 <= i < entries.len() ==> forall|j: int|
                        0 <= j < entries.len() && i != j ==> #[trigger] entries[i].0.0@
                            != #[trigger] entries[j].0.0@,
                forall|i: int|
                    0 <= i < r.len() ==> {
                        &&& (#[trigger] r[i]).config.active
                        &&& self@.contains_key(r[i].config.id.0@)
                        &&& self@[r[i].config.id.0@] == r[i]
                        &&& exists|j: int| 0 <= j < idx && #[trigger] entries[j].0.0@ == r[i].config.id.0@
                    },
                forall|i: int|
                    0 <= i < r.len() ==> forall|j: int|
                        0 <= j < r.len() && i != j ==> (#[trigger] r[i]).config.id.0@
                            != (#[trigger] r[j]).config.id.0@,
                forall|j: int|
                    0 <= j < idx && (#[trigger] entries[j]).1.config.active ==> exists|i: int|
                        0 <= i < r.len() && (#[trigger] r[i]).config.id.0@ == entries[j].0.0@,
        {
            let entry = &entries[idx];
            assert(keys[idx as int] == entries[idx as int].0.0@);
            assert(self@.contains_key(entries[idx as int].0.0@));
            if entry.1.config.active {
                let ghost old_r = r@;
                r.push(entry.1.clone());
                assert forall|i: int| 0 <= i < r.len() implies exists|j: int|
                    0 <= j < idx + 1 && #[trigger] entries[j].0.0@ == (#[trigger] r[i]).config.id.0@ by {
                    if i < old_r.len() {
                        assert(r[i] == old_r[i]);
                    } else {
                        assert(entries[idx as int].0.0@ == r[i].config.id.0@);
                    }
                }
                assert forall|i: int|
                    0 <= i < r.len() implies forall|j: int|
                        0 <= j < r.len() && i != j ==> (#[trigger] r[i]).config.id.0@
                            != (#[trigger] r[j]).config.id.0@ by {
                    assert forall|j: int| 0 <= j < r.len() && i != j implies (#[trigger] r[i]).config.id.0@
                        != (#[trigger] r[j]).config.id.0@ by {
                        if i < old_r.len() && j < old_r.len() {
                            assert(r[i] == old_r[i] && r[j] == old_r[j]);
                        } else if i < old_r.len() {
                            assert(r[i] == old_r[i]);
                            let jj = choose|jj: int| 0 <= jj < idx && #[trigger] entries[jj].0.0@ == old_r[i].config.id.0@;
                            assert(entries[jj].0.0@ != entries[idx as int].0.0@);
                        } else if j < old_r.len() {
                            assert(r[j] == old_r[j]);
                            let jj = choose|jj: int| 0 <= jj < idx && #[trigger] entries[jj].0.0@ == old_r[j].config.id.0@;
                            assert(entries[jj].0.0@ != entries[idx as int].0.0@);
                        }
                    }
                }
                assert forall|j: int|
                    0 <= j < idx + 1 && (#[trigger] entries[j]).1.config.active implies exists|i: int|
                        0 <= i < r.len() && (#[trigger] r[i]).config.id.0@ == entries[j].0.0@ by {
                    if j < idx {
                        let i = choose|i: int| 0 <= i < old_r.len() && (#[trigger] old_r[i]).config.id.0@ == entries[j].0.0@;
                        assert(r[i] == old_r[i]);
                    } else {
                        assert(r[old_r.len() as int].config.id.0@ == entries[j].0.0@);
                    }
                }
            }
        }
        assert forall|k: Seq<char>|
            #[trigger] self@.contains_key(k) && self@[k].config.active implies exists|i: int|
                0 <= i < r.len() && (#[trigger] r[i]).config.id.0@ == k by {
            assert(keys.to_set().contains(k));
            assert(keys.contains(k));
            let j = choose|j: int| 0 <= j < keys.len() && keys[j] == k;
            assert(entries[j].0.0@ == k);
            assert(entries[j].1.config.active);
        }
        r
    }

    /// Looks a feed up by id.
    pub fn get_feed(&self, feed_id: &FeedId) -> (r: Result<FeedState, OracleError>)
        ensures
            r == (match lookup(self@, feed_id.0@) {
                Some(state) => Ok(state),
                None => Err(OracleError::FeedNotFound(feed_id.0)),
            }),
    {
        match table_get(&self.feeds, feed_id) {
            Some(state) => Ok(state),
            None => Err(OracleError::FeedNotFound(feed_id.0.clone())),
        }
    }

    /// Publishes a verified point on the feed it names.
    pub fn update_feed(&mut self, verified: &VerifiedDataPoint) -> (r: Result<(), OracleError>)
        requires
            old(self).wf(),
        ensures
            final(self).wf(),
            final(self)@ == after_update(old(self)@, *verified),
            r == (if old(self)@.contains_key(verified.feed_id.0@) {
                Ok(())
            } else {
                Err(OracleError::FeedNotFound(verified.feed_id.0))
            }),
    {
        match table_get(&self.feeds, &verified.feed_id) {
            None => Err(OracleError::FeedNotFound(verified.feed_id.0.clone())),
            Some(state) => {
                let updated = FeedState {
                    config: state.config,
                    last_value: Some(verified.clone()),
                    last_update: Some(verified.timestamp),
                    error_count: 0,
                };
                let _ = table_replace(&mut self.feeds, &verified.feed_id, updated);
                assert(self@ =~= after_update(old(self)@, *verified));
                Ok(())
            },
        }
    }

    /// Counts one more fetch error for a feed; an unknown feed is ignored.
    pub fn record_error(&mut self, feed_id: &FeedId)
        requires
            old(self).wf(),
            old(self)@.contains_key(feed_id.0@) ==> old(self)@[feed_id.0@].error_count < u32::MAX,
        ensures
            final(self).wf(),
            final(self)@ == after_error(old(self)@, feed_id.0@),
    {
        match table_get(&self.feeds, feed_id) {
            Some(state) => {
                let updated = FeedState {
                    config: state.config,
                    last_value: state.last_value,
                    last_update: state.last_update,
                    error_count: state.error_count + 1,
                };
                let _ = table_replace(&mut self.feeds, feed_id, updated);
                assert(self@ =~= after_error(old(self)@, feed_id.0@));
            },
            None => {},
        }
    }
}

} // verus!
