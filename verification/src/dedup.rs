//! The dedup window: a mapping from dedup key to the time an alert with
//! that key was last sent, owned exclusively by the delivery worker, pruned
//! lazily on each alert.

use vstd::prelude::*;

verus! {

/// How long a sent dedup key suppresses alerts with the same key, in
/// milliseconds.
pub const DEDUP_WINDOW_MILLIS: u64 = 5000;

/// Whether an entry sent at `last_sent` still suppresses at `now`.
pub open spec fn spec_live(last_sent: u64, now: u64) -> bool {
    last_sent + DEDUP_WINDOW_MILLIS >= now
}

/// The window with every entry older than the dedup window dropped.
pub open spec fn spec_purge(m: Map<Seq<char>, u64>, now: u64) -> Map<Seq<char>, u64> {
    Map::new(|k: Seq<char>| m.dom().contains(k) && spec_live(m[k], now), |k: Seq<char>| m[k])
}

/// Whether an alert with this dedup key passes the filter at `now`: an
/// alert without a key always does; one with a key does exactly when the
/// key is absent from the purged window.
pub open spec fn spec_should_send(m: Map<Seq<char>, u64>, key: Option<Seq<char>>, now: u64) -> bool {
    match key {
        None => true,
        Some(k) => !spec_purge(m, now).dom().contains(k),
    }
}

/// The mapping a list of `(key, last_sent)` entries stands for; a later
/// entry would win, though the window never holds two entries for one key.
pub open spec fn window_map(s: Seq<(String, u64)>) -> Map<Seq<char>, u64>
    decreases s.len(),
{
    if s.len() == 0 {
        Map::empty()
    } else {
        window_map(s.drop_last()).insert(s.last().0@, s.last().1)
    }
}

/// A key is in the mapping exactly when some entry carries it.
proof fn lemma_window_map_dom(s: Seq<(String, u64)>, k: Seq<char>)
    ensures
        window_map(s).dom().contains(k) <==> exists|j: int| 0 <= j < s.len() && s[j].0@ == k,
    decreases s.len(),
{
    if s.len() > 0 {
        lemma_window_map_dom(s.drop_last(), k);
        if s.last().0@ == k {
            assert(s[s.len() - 1].0@ == k);
        } else if window_map(s.drop_last()).dom().contains(k) {
            let j = choose|j: int| 0 <= j < s.drop_last().len() && s.drop_last()[j].0@ == k;
            assert(s[j].0@ == k);
        } else if exists|j: int| 0 <= j < s.len() && s[j].0@ == k {
            let j = choose|j: int| 0 <= j < s.len() && s[j].0@ == k;
            assert(j < s.len() - 1);
            assert(s.drop_last()[j].0@ == k);
        }
    }
}

/// The tracking state for dedup suppression: which key was last sent when.
pub struct DedupWindow {
    entries: Vec<(String, u64)>,
}

impl View for DedupWindow {
    type V = Map<Seq<char>, u64>;

    closed spec fn view(&self) -> Map<Seq<char>, u64> {
        window_map(self.entries@)
    }
}

impl DedupWindow {
    /// The window never holds two entries for one key.
    #[verifier::type_invariant]
    spec fn wf(&self) -> bool {
        forall|j1: int, j2: int|
            0 <= j1 < j2 < self.entries@.len() ==> self.entries@[j1].0@ != self.entries@[j2].0@
    }

    /// An empty window.
    pub fn new() -> (r: DedupWindow)
        ensures
            r@ == Map::<Seq<char>, u64>::empty(),
    {
        DedupWindow { entries: Vec::new() }
    }

    /// Whether some entry carries this key.
    fn contains(&self, key: &String) -> (r: bool)
        ensures
            r == self@.dom().contains(key@),
    {
        let n = self.entries.len();
        let mut i: usize = 0;
        while i < n
            invariant
                n == self.entries@.len(),
                i <= n,
                forall|j: int| 0 <= j < i ==> self.entries@[j].0@ != key@,
            decreases n - i,
        {
            if self.entries[i].0 == *key {
                proof {
                    lemma_window_map_dom(self.entries@, key@);
                }
                return true;
            }
            i = i + 1;
        }
        proof {
            lemma_window_map_dom(self.entries@, key@);
        }
        false
    }

    /// Purge entries older than the window, then say whether an alert with
    /// this dedup key passes the filter at `now`.
    pub fn should_send(&mut self, dedup_key: Option<&String>, now: u64) -> (send: bool)
        ensures
            final(self)@ == spec_purge(old(self)@, now),
            send == spec_should_send(
                old(self)@,
                match dedup_key {
                    Some(k) => Some(k@),
                    None => None,
                },
                now,
            ),
    {
        self.purge(now);
        match dedup_key {
            Some(k) => !self.contains(k),
            None => true,
        }
    }

    /// Drop every entry whose last-sent time is older than the window.
    fn purge(&mut self, now: u64)
        ensures
            final(self)@ == spec_purge(old(self)@, now),
    {
        proof {
            use_type_invariant(&*self);
        }
        let ghost source = self.entries@;
        let n = self.entries.len();
        let mut kept: Vec<(String, u64)> = Vec::new();
        let mut i: usize = 0;
        proof {
            assert(source.take(0) =~= Seq::<(String, u64)>::empty());
            assert(window_map(kept@) =~= spec_purge(window_map(source.take(0)), now));
        }
        while i < n
            invariant
                forall|j1: int, j2: int|
                    0 <= j1 < j2 < source.len() ==> source[j1].0@ != source[j2].0@,
                source == old(self).entries@,
                self.entries@ == source,
                n == source.len(),
                i <= n,
                window_map(kept@) =~= spec_purge(window_map(source.take(i as int)), now),
                forall|j: int|
                    0 <= j < kept@.len() ==> window_map(source.take(i as int)).dom().contains(
                        kept@[j].0@,
                    ),
                forall|j1: int, j2: int|
                    0 <= j1 < j2 < kept@.len() ==> kept@[j1].0@ != kept@[j2].0@,
            decreases n - i,
        {
            let entry = &self.entries[i];
            let live: bool = now <= entry.1 || now - entry.1 <= DEDUP_WINDOW_MILLIS;
            let ghost prefix = source.take(i as int);
            let ghost prefix1 = source.take(i as int + 1);
            proof {
                assert(prefix1.drop_last() =~= prefix);
                assert(prefix1.last() == source[i as int]);
                assert(window_map(prefix1) == window_map(prefix).insert(
                    source[i as int].0@,
                    source[i as int].1,
                ));
                lemma_window_map_dom(prefix, source[i as int].0@);
                assert(forall|j: int|
                    0 <= j < prefix.len() ==> prefix[j].0@ == source[j].0@ && source[j].0@
                        != source[i as int].0@);
                assert(!window_map(prefix).dom().contains(source[i as int].0@));
            }
            if live {
                let ghost kept_before = kept@;
                kept.push((entry.0.clone(), entry.1));
                proof {
                    assert(kept@.drop_last() =~= kept_before);
                    assert(window_map(kept@) == window_map(kept_before).insert(
                        kept@.last().0@,
                        kept@.last().1,
                    ));
                    assert(window_map(kept@) =~= spec_purge(window_map(prefix1), now));
                }
            } else {
                proof {
                    assert(window_map(kept@) =~= spec_purge(window_map(prefix1), now));
                }
            }
            i = i + 1;
        }
        proof {
            assert(source.take(n as int) =~= source);
        }
        self.entries = kept;
    }

    /// Remember that an alert with this key was sent at `now`.
    pub fn record(&mut self, key: &String, now: u64)
        requires
            !old(self)@.dom().contains(key@),
        ensures
            final(self)@ == old(self)@.insert(key@, now),
    {
        proof {
            use_type_invariant(&*self);
            lemma_window_map_dom(self.entries@, key@);
        }
        let mut entries: Vec<(String, u64)> = Vec::new();
        core::mem::swap(&mut self.entries, &mut entries);
        entries.push((key.clone(), now));
        core::mem::swap(&mut self.entries, &mut entries);
        proof {
            assert(self.entries@.drop_last() =~= old(self).entries@);
        }
    }
}

/// For all alerts with no dedup key, every trigger passes the dedup filter:
/// two triggers in sequence both reach the backend, whatever the window
/// held before either.
pub proof fn lemma_no_dedup_key_always_sends(
    w1: Map<Seq<char>, u64>,
    t1: u64,
    w2: Map<Seq<char>, u64>,
    t2: u64,
)
    ensures
        spec_should_send(w1, None, t1),
        spec_should_send(w2, None, t2),
{
}

/// An alert with a dedup key sent at `t1` suppresses a second alert with
/// the same key triggered at most one window later: of the two, exactly the
/// first reaches the backend.
pub proof fn lemma_dedup_suppresses_within_window(
    w: Map<Seq<char>, u64>,
    k: Seq<char>,
    t1: u64,
    t2: u64,
)
    requires
        t1 <= t2,
        t2 - t1 <= DEDUP_WINDOW_MILLIS,
    ensures
        !spec_should_send(spec_purge(w, t1).insert(k, t1), Some(k), t2),
{
    let after_first = spec_purge(w, t1).insert(k, t1);
    assert(after_first.dom().contains(k));
    assert(after_first[k] == t1);
    assert(spec_live(t1, t2));
}

/// An alert with a dedup key sent at `t1` no longer suppresses an alert
/// with the same key triggered more than one window later: both reach the
/// backend.
pub proof fn lemma_dedup_passes_after_window(
    w: Map<Seq<char>, u64>,
    k: Seq<char>,
    t1: u64,
    t2: u64,
)
    requires
        t2 > t1 + DEDUP_WINDOW_MILLIS,
    ensures
        spec_should_send(spec_purge(w, t1).insert(k, t1), Some(k), t2),
{
    let after_first = spec_purge(w, t1).insert(k, t1);
    assert(after_first[k] == t1);
    assert(!spec_live(t1, t2));
    assert(!spec_purge(after_first, t2).dom().contains(k));
}

} // verus!
