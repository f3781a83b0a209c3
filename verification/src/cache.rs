//! The workspace cache state: which caches are fresh and which are stale,
//! kept as a table sorted by cache name, and what a tool call does to it.

use vstd::prelude::*;
use crate::events::{kind_name, DomainEvent};
use crate::outcome::CacheReport;
use crate::text::{chars_of, str_eq};
use crate::tools::{strs, CacheAccess};
use crate::workspace::{path_join_spec, state_path, WorkspaceContext};

verus! {

// ---------------------------------------------------------------------------
// The order of names
// ---------------------------------------------------------------------------

/// Lexicographic order of texts by character code, as `String`'s `Ord`
/// orders them: a proper prefix comes first.
pub open spec fn text_lt(a: Seq<char>, b: Seq<char>) -> bool
    decreases a.len(),
{
    if a.len() == 0 {
        b.len() > 0
    } else if b.len() == 0 {
        false
    } else if a[0] < b[0] {
        true
    } else if a[0] == b[0] {
        text_lt(a.drop_first(), b.drop_first())
    } else {
        false
    }
}

pub proof fn lemma_text_lt_irreflexive(a: Seq<char>)
    ensures
        !text_lt(a, a),
    decreases a.len(),
{
    if a.len() > 0 {
        lemma_text_lt_irreflexive(a.drop_first());
    }
}

pub proof fn lemma_text_lt_transitive(a: Seq<char>, b: Seq<char>, c: Seq<char>)
    requires
        text_lt(a, b),
        text_lt(b, c),
    ensures
        text_lt(a, c),
    decreases a.len(),
{
    if a.len() > 0 && a[0] == b[0] && b[0] == c[0] {
        lemma_text_lt_transitive(a.drop_first(), b.drop_first(), c.drop_first());
    }
}

pub proof fn lemma_text_lt_total(a: Seq<char>, b: Seq<char>)
    requires
        a != b,
    ensures
        text_lt(a, b) || text_lt(b, a),
    decreases a.len(),
{
    if a.len() > 0 && b.len() > 0 && a[0] == b[0] {
        assert(a.drop_first() != b.drop_first()) by {
            if a.drop_first() == b.drop_first() {
                assert(a =~= seq![a[0]] + a.drop_first());
                assert(b =~= seq![b[0]] + b.drop_first());
            }
        }
        lemma_text_lt_total(a.drop_first(), b.drop_first());
    } else if a.len() == 0 && b.len() == 0 {
        assert(a =~= b);
    }
}

/// `a < b` for strings.
pub fn str_lt(a: &str, b: &str) -> (r: bool)
    ensures
        r == text_lt(a@, b@),
{
    let x = chars_of(a);
    let y = chars_of(b);
    let mut i: usize = 0;
    assert(a@.skip(0) =~= a@);
    assert(b@.skip(0) =~= b@);
    while i < x.len() && i < y.len()
        invariant
            x@ == a@,
            y@ == b@,
            i <= x@.len(),
            i <= y@.len(),
            text_lt(a@, b@) == text_lt(a@.skip(i as int), b@.skip(i as int)),
        decreases x@.len() - i,
    {
        let c = x[i];
        let d = y[i];
        assert(a@.skip(i as int)[0] == c);
        assert(b@.skip(i as int)[0] == d);
        if c != d {
            return c < d;
        }
        assert(a@.skip(i as int).drop_first() =~= a@.skip(i + 1));
        assert(b@.skip(i as int).drop_first() =~= b@.skip(i + 1));
        i += 1;
    }
    i < y.len()
}

// ---------------------------------------------------------------------------
// Sorted names
// ---------------------------------------------------------------------------

/// Strictly increasing: sorted, and no name twice.
pub open spec fn strictly_sorted(names: Seq<Seq<char>>) -> bool {
    forall|p: int, q: int| 0 <= p < q < names.len() ==> text_lt(#[trigger] names[p], #[trigger] names[q])
}

pub open spec fn names_of(v: Seq<String>) -> Seq<Seq<char>> {
    v.map_values(|s: String| s@)
}

/// Inserts `name` into a strictly sorted list, where it is not yet.
pub fn insert_sorted(v: &mut Vec<String>, name: &str)
    requires
        strictly_sorted(names_of(old(v)@)),
    ensures
        strictly_sorted(names_of(final(v)@)),
        forall|k: Seq<char>| names_of(final(v)@).contains(k) <==> (names_of(old(v)@).contains(k) || k == name@),
{
    let ghost old_names = names_of(v@);
    let mut i: usize = 0;
    while i < v.len() && str_lt(v[i].as_str(), name)
        invariant
            old_names == names_of(v@),
            strictly_sorted(old_names),
            i <= v@.len(),
            forall|j: int| 0 <= j < i ==> text_lt(#[trigger] old_names[j], name@),
        decreases v@.len() - i,
    {
        i += 1;
    }
    if i < v.len() && crate::text::str_eq(v[i].as_str(), name) {
        assert forall|k: Seq<char>| names_of(v@).contains(k) <==> (old_names.contains(k) || k == name@) by {
            if k == name@ {
                assert(old_names[i as int] == k);
            }
        }
        return;
    }
    proof {
        if i < v@.len() {
            lemma_text_lt_total(old_names[i as int], name@);
        }
    }
    v.insert(i, name.to_string());
    let ghost new_names = names_of(v@);
    proof {
        assert(new_names =~= old_names.insert(i as int, name@));
        assert forall|q: int| i < q < new_names.len() implies text_lt(name@, #[trigger] new_names[q]) by {
            assert(new_names[q] == old_names[q - 1]);
            if q - 1 > i {
                lemma_text_lt_transitive(name@, old_names[i as int], old_names[q - 1]);
            }
        }
        assert forall|p: int, q: int| 0 <= p < q < new_names.len() implies text_lt(
            #[trigger] new_names[p],
            #[trigger] new_names[q],
        ) by {
            if q < i {
            } else if q == i {
            } else if p < i {
                lemma_text_lt_transitive(new_names[p], name@, new_names[q]);
            } else if p == i {
            } else {
                assert(new_names[p] == old_names[p - 1]);
                assert(new_names[q] == old_names[q - 1]);
            }
        }
        assert forall|k: Seq<char>| new_names.contains(k) <==> (old_names.contains(k) || k == name@) by {
            if new_names.contains(k) {
                let j = choose|j: int| 0 <= j < new_names.len() && new_names[j] == k;
                if j < i {
                    assert(old_names[j] == k);
                } else if j > i {
                    assert(old_names[j - 1] == k);
                }
            }
            if old_names.contains(k) {
                let j = choose|j: int| 0 <= j < old_names.len() && old_names[j] == k;
                if j < i {
                    assert(new_names[j] == k);
                } else {
                    assert(new_names[j + 1] == k);
                }
            }
            if k == name@ {
                assert(new_names[i as int] == k);
            }
        }
    }
}

/// The names in increasing order, each once: what collecting them into a
/// `BTreeSet` and back gives.
pub fn sorted(values: &Vec<String>) -> (r: Vec<String>)
    ensures
        strictly_sorted(names_of(r@)),
        forall|k: Seq<char>| names_of(r@).contains(k) <==> names_of(values@).contains(k),
{
    let mut r: Vec<String> = Vec::new();
    let mut i: usize = 0;
    while i < values.len()
        invariant
            i <= values@.len(),
            strictly_sorted(names_of(r@)),
            forall|k: Seq<char>| names_of(r@).contains(k) <==> names_of(values@.take(i as int)).contains(k),
        decreases values@.len() - i,
    {
        insert_sorted(&mut r, values[i].as_str());
        proof {
            let before = names_of(values@.take(i as int));
            let after = names_of(values@.take(i + 1));
            assert(after =~= before.push(values@[i as int]@));
            assert forall|k: Seq<char>| after.contains(k) <==> (before.contains(k) || k == values@[i as int]@) by {
                if after.contains(k) {
                    let j = choose|j: int| 0 <= j < after.len() && after[j] == k;
                    if j < before.len() {
                        assert(before[j] == k);
                    }
                }
                if before.contains(k) {
                    let j = choose|j: int| 0 <= j < before.len() && before[j] == k;
                    assert(after[j] == k);
                }
                if k == values@[i as int]@ {
                    assert(after[i as int] == k);
                }
            }
        }
        i += 1;
    }
    assert(values@.take(values@.len() as int) =~= values@);
    r
}


// ---------------------------------------------------------------------------
// The cache table
// ---------------------------------------------------------------------------

/// Whether a cache can be used as it is.
#[derive(Debug, Clone, Copy, PartialEq, Eq, Structural)]
pub enum CacheStatus {
    Fresh,
    Stale,
}

/// A cache's status, and the workspace epoch when it was set.
#[derive(Debug, Clone, Copy, PartialEq, Eq, Structural)]
pub struct CacheEntry {
    pub status: CacheStatus,
    pub epoch: u64,
}

/// What Unica remembers of a workspace's caches.  `caches` is sorted by
/// name, each name once (see [`table_wf`]).
pub struct WorkspaceState {
    pub workspace_root: String,
    pub workspace_epoch: u64,
    pub caches: Vec<(String, CacheEntry)>,
}

pub open spec fn keys_of(t: Seq<(String, CacheEntry)>) -> Seq<Seq<char>> {
    t.map_values(|e: (String, CacheEntry)| e.0@)
}

pub open spec fn table_wf(t: Seq<(String, CacheEntry)>) -> bool {
    strictly_sorted(keys_of(t))
}

pub open spec fn has_cache(t: Seq<(String, CacheEntry)>, k: Seq<char>) -> bool {
    exists|i: int| 0 <= i < t.len() && #[trigger] t[i].0@ == k
}

/// Where cache `k` stands in the table (meaningful when it is there).
pub open spec fn cache_index(t: Seq<(String, CacheEntry)>, k: Seq<char>) -> int {
    choose|i: int| 0 <= i < t.len() && #[trigger] t[i].0@ == k
}

/// The entry of cache `k`, if the table has one.
pub open spec fn cache_get(t: Seq<(String, CacheEntry)>, k: Seq<char>) -> Option<CacheEntry> {
    if has_cache(t, k) {
        Some(t[cache_index(t, k)].1)
    } else {
        None
    }
}

pub proof fn lemma_cache_get_at(t: Seq<(String, CacheEntry)>, i: int)
    requires
        table_wf(t),
        0 <= i < t.len(),
    ensures
        cache_get(t, t[i].0@) == Some(t[i].1),
{
    let k = t[i].0@;
    assert(has_cache(t, k)) by {
        assert(t[i].0@ == k);
    }
    let j = cache_index(t, k);
    if j != i {
        lemma_text_lt_irreflexive(k);
        assert(keys_of(t)[j] == k);
        assert(keys_of(t)[i] == k);
        if j < i {
            assert(text_lt(keys_of(t)[j], keys_of(t)[i]));
        } else {
            assert(text_lt(keys_of(t)[i], keys_of(t)[j]));
        }
        assert(false);
    }
}

/// Sets the entry of cache `name`, keeping the table sorted.
pub fn set_entry(t: &mut Vec<(String, CacheEntry)>, name: &str, entry: CacheEntry)
    requires
        table_wf(old(t)@),
    ensures
        table_wf(final(t)@),
        cache_get(final(t)@, name@) == Some(entry),
        forall|k: Seq<char>| k != name@ ==> cache_get(final(t)@, k) == cache_get(old(t)@, k),
{
    let ghost old_t = t@;
    let ghost old_keys = keys_of(t@);
    let mut i: usize = 0;
    while i < t.len() && str_lt(t[i].0.as_str(), name)
        invariant
            old_t == t@,
            old_keys == keys_of(old_t),
            table_wf(old_t),
            i <= t@.len(),
            forall|j: int| 0 <= j < i ==> text_lt(#[trigger] old_keys[j], name@),
        decreases t@.len() - i,
    {
        i += 1;
    }
    if i < t.len() && crate::text::str_eq(t[i].0.as_str(), name) {
        t.set(i, (name.to_string(), entry));
        proof {
            assert(keys_of(t@) =~= old_keys);
            lemma_cache_get_at(t@, i as int);
            assert forall|k: Seq<char>| k != name@ implies cache_get(t@, k) == cache_get(old_t, k) by {
                if has_cache(old_t, k) {
                    let j = cache_index(old_t, k);
                    lemma_cache_get_at(old_t, j);
                    assert(t@[j] == old_t[j]);
                    lemma_cache_get_at(t@, j);
                } else {
                    assert forall|j: int| 0 <= j < t@.len() implies #[trigger] t@[j].0@ != k by {
                        if j != i {
                            assert(t@[j] == old_t[j]);
                        }
                    }
                }
            }
        }
        return;
    }
    proof {
        if i < t@.len() {
            lemma_text_lt_total(old_keys[i as int], name@);
        }
    }
    t.insert(i, (name.to_string(), entry));
    proof {
        let new_keys = keys_of(t@);
        assert(new_keys =~= old_keys.insert(i as int, name@));
        assert forall|q: int| i < q < new_keys.len() implies text_lt(name@, #[trigger] new_keys[q]) by {
            assert(new_keys[q] == old_keys[q - 1]);
            if q - 1 > i {
                lemma_text_lt_transitive(name@, old_keys[i as int], old_keys[q - 1]);
            }
        }
        assert forall|p: int, q: int| 0 <= p < q < new_keys.len() implies text_lt(
            #[trigger] new_keys[p],
            #[trigger] new_keys[q],
        ) by {
            if q < i {
            } else if q == i {
            } else if p < i {
                lemma_text_lt_transitive(new_keys[p], name@, new_keys[q]);
            } else if p == i {
            } else {
                assert(new_keys[p] == old_keys[p - 1]);
                assert(new_keys[q] == old_keys[q - 1]);
            }
        }
        assert(t@[i as int].0@ == name@);
        lemma_cache_get_at(t@, i as int);
        assert forall|k: Seq<char>| k != name@ implies cache_get(t@, k) == cache_get(old_t, k) by {
            if has_cache(old_t, k) {
                let j = cache_index(old_t, k);
                lemma_cache_get_at(old_t, j);
                if j < i {
                    assert(t@[j] == old_t[j]);
                    lemma_cache_get_at(t@, j);
                } else {
                    assert(t@[j + 1] == old_t[j]);
                    lemma_cache_get_at(t@, j + 1);
                }
            } else {
                assert forall|j: int| 0 <= j < t@.len() implies #[trigger] t@[j].0@ != k by {
                    if j < i {
                        assert(t@[j] == old_t[j]);
                    } else if j > i {
                        assert(t@[j] == old_t[j - 1]);
                    }
                }
            }
        }
    }
}

/// The names of the caches with a given status, in table order.
pub open spec fn names_with(t: Seq<(String, CacheEntry)>, status: CacheStatus) -> Seq<Seq<char>>
    decreases t.len(),
{
    if t.len() == 0 {
        seq![]
    } else {
        let rest = names_with(t.drop_last(), status);
        if t.last().1.status == status {
            rest.push(t.last().0@)
        } else {
            rest
        }
    }
}

proof fn lemma_wf_drop_last(t: Seq<(String, CacheEntry)>)
    requires
        table_wf(t),
        t.len() > 0,
    ensures
        table_wf(t.drop_last()),
        !has_cache(t.drop_last(), t.last().0@),
        forall|k: Seq<char>| #[trigger] has_cache(t, k) <==> (has_cache(t.drop_last(), k) || k == t.last().0@),
{
    let d = t.drop_last();
    assert(keys_of(d) =~= keys_of(t).drop_last());
    if has_cache(d, t.last().0@) {
        let j = cache_index(d, t.last().0@);
        assert(keys_of(t)[j] == t.last().0@);
        assert(keys_of(t)[t.len() - 1] == t.last().0@);
        lemma_text_lt_irreflexive(t.last().0@);
    }
    assert forall|k: Seq<char>| #[trigger] has_cache(t, k) <==> (has_cache(d, k) || k == t.last().0@) by {
        if has_cache(t, k) {
            let j = cache_index(t, k);
            if j < t.len() - 1 {
                assert(d[j].0@ == k);
            }
        }
        if has_cache(d, k) {
            let j = cache_index(d, k);
            assert(t[j].0@ == k);
        }
        if k == t.last().0@ {
            assert(t[t.len() - 1].0@ == k);
        }
    }
}

/// The report's lists are exact: a cache is listed under a status exactly
/// when the table records it with that status.  So every cache of the
/// table is listed once, as stale or as fresh.
pub proof fn lemma_names_with_status(t: Seq<(String, CacheEntry)>, status: CacheStatus, k: Seq<char>)
    requires
        table_wf(t),
    ensures
        names_with(t, status).contains(k) <==> (cache_get(t, k) matches Some(e) && e.status == status),
    decreases t.len(),
{
    if t.len() == 0 {
        assert(!has_cache(t, k));
    } else {
        let d = t.drop_last();
        lemma_wf_drop_last(t);
        lemma_names_with_status(d, status, k);
        lemma_cache_get_at(t, t.len() - 1);
        if k == t.last().0@ {
            lemma_names_with_status(d, status, k);
            assert(!(cache_get(d, k) is Some));
        } else {
            if has_cache(d, k) {
                let j = cache_index(d, k);
                lemma_cache_get_at(d, j);
                assert(t[j] == d[j]);
                lemma_cache_get_at(t, j);
            } else {
                assert(!has_cache(t, k));
            }
        }
        let rest = names_with(d, status);
        if t.last().1.status == status {
            assert(names_with(t, status) == rest.push(t.last().0@));
            assert(rest.push(t.last().0@).contains(k) <==> (rest.contains(k) || k == t.last().0@)) by {
                if rest.push(t.last().0@).contains(k) {
                    let j = choose|j: int| 0 <= j < rest.len() + 1 && rest.push(t.last().0@)[j] == k;
                    if j < rest.len() {
                        assert(rest[j] == k);
                    }
                }
                if rest.contains(k) {
                    let j = choose|j: int| 0 <= j < rest.len() && rest[j] == k;
                    assert(rest.push(t.last().0@)[j] == k);
                }
                if k == t.last().0@ {
                    assert(rest.push(t.last().0@)[rest.len() as int] == k);
                }
            }
        }
    }
}

/// The stale caches and the fresh caches, each in table order.
pub fn split_by_status(t: &Vec<(String, CacheEntry)>) -> (r: (Vec<String>, Vec<String>))
    ensures
        names_of(r.0@) == names_with(t@, CacheStatus::Stale),
        names_of(r.1@) == names_with(t@, CacheStatus::Fresh),
{
    let mut stale: Vec<String> = Vec::new();
    let mut fresh: Vec<String> = Vec::new();
    let mut i: usize = 0;
    while i < t.len()
        invariant
            i <= t@.len(),
            names_of(stale@) == names_with(t@.take(i as int), CacheStatus::Stale),
            names_of(fresh@) == names_with(t@.take(i as int), CacheStatus::Fresh),
        decreases t@.len() - i,
    {
        assert(t@.take(i + 1).drop_last() =~= t@.take(i as int));
        let name = t[i].0.clone();
        let ghost n = name@;
        match t[i].1.status {
            CacheStatus::Stale => {
                stale.push(name);
                assert(names_of(stale@) =~= names_with(t@.take(i as int), CacheStatus::Stale).push(n));
            },
            CacheStatus::Fresh => {
                fresh.push(name);
                assert(names_of(fresh@) =~= names_with(t@.take(i as int), CacheStatus::Fresh).push(n));
            },
        }
        i += 1;
    }
    assert(t@.take(t@.len() as int) =~= t@);
    (stale, fresh)
}


// ---------------------------------------------------------------------------
// What a tool call does to the caches
// ---------------------------------------------------------------------------

/// Caches rebuilt when a tool reads them while they are stale.
pub open spec fn is_lazy_spec(name: Seq<char>) -> bool {
    name == "bsl_diagnostics"@
}

pub fn is_lazy_cache(name: &str) -> (r: bool)
    ensures
        r == is_lazy_spec(name@),
{
    str_eq(name, "bsl_diagnostics")
}

/// The caches that a set of events makes stale, and those refreshed at
/// once.
pub struct CacheImpact {
    pub invalidated: Vec<String>,
    pub eager_refresh: Vec<String>,
}

/// A cache's entry once events were applied: refreshed caches are fresh,
/// other invalidated caches stale, the rest as they were.
pub open spec fn after_events(
    old: Seq<(String, CacheEntry)>,
    invalidated: Seq<Seq<char>>,
    refreshed: Seq<Seq<char>>,
    epoch: u64,
    k: Seq<char>,
) -> Option<CacheEntry> {
    if refreshed.contains(k) {
        Some(CacheEntry { status: CacheStatus::Fresh, epoch })
    } else if invalidated.contains(k) {
        Some(CacheEntry { status: CacheStatus::Stale, epoch })
    } else {
        cache_get(old, k)
    }
}

proof fn lemma_take_contains<A>(s: Seq<A>, i: int, x: A)
    requires
        0 <= i < s.len(),
    ensures
        s.take(i + 1).contains(x) <==> (s.take(i).contains(x) || x == s[i]),
{
    let a = s.take(i + 1);
    let b = s.take(i);
    assert(a =~= b.push(s[i]));
    if a.contains(x) {
        let j = choose|j: int| 0 <= j < a.len() && a[j] == x;
        if j < i {
            assert(b[j] == x);
        }
    }
    if b.contains(x) {
        let j = choose|j: int| 0 <= j < b.len() && b[j] == x;
        assert(a[j] == x);
    }
    if x == s[i] {
        assert(a[i] == x);
    }
}

fn set_all(t: &mut Vec<(String, CacheEntry)>, names: &Vec<String>, entry: CacheEntry)
    requires
        table_wf(old(t)@),
    ensures
        table_wf(final(t)@),
        forall|k: Seq<char>|
            cache_get(final(t)@, k) == if names_of(names@).contains(k) {
                Some(entry)
            } else {
                cache_get(old(t)@, k)
            },
{
    let ghost old_t = t@;
    let mut i: usize = 0;
    while i < names.len()
        invariant
            i <= names@.len(),
            table_wf(t@),
            forall|k: Seq<char>|
                cache_get(t@, k) == if names_of(names@).take(i as int).contains(k) {
                    Some(entry)
                } else {
                    cache_get(old_t, k)
                },
        decreases names@.len() - i,
    {
        set_entry(t, names[i].as_str(), entry);
        proof {
            assert forall|k: Seq<char>| #[trigger] names_of(names@).take(i + 1).contains(k) <==> (
            names_of(names@).take(i as int).contains(k) || k == names@[i as int]@) by {
                lemma_take_contains(names_of(names@), i as int, k);
            }
        }
        i += 1;
    }
    assert(names_of(names@).take(names@.len() as int) =~= names_of(names@));
}

/// Whether a cache needs rebuilding before it is read.
pub open spec fn stale_or_absent(t: Seq<(String, CacheEntry)>, k: Seq<char>) -> bool {
    match cache_get(t, k) {
        None => true,
        Some(e) => e.status == CacheStatus::Stale,
    }
}

/// The lazy caches that reading `reads` rebuilds: those read while stale
/// or never built.
pub open spec fn lazy_rebuilds(old: Seq<(String, CacheEntry)>, reads: Seq<Seq<char>>) -> Seq<Seq<char>> {
    if reads.contains("bsl_diagnostics"@) && stale_or_absent(old, "bsl_diagnostics"@) {
        seq!["bsl_diagnostics"@]
    } else {
        seq![]
    }
}

/// A cache's entry once a read-only call read `reads`: the code index
/// reports whether it is ready, rebuilt lazy caches are fresh, the rest as
/// they were.
pub open spec fn after_reads(
    old: Seq<(String, CacheEntry)>,
    reads: Seq<Seq<char>>,
    index_ready: bool,
    epoch: u64,
    k: Seq<char>,
) -> Option<CacheEntry> {
    if k == "bsl_index"@ && reads.contains(k) {
        Some(
            CacheEntry {
                status: if index_ready {
                    CacheStatus::Fresh
                } else {
                    CacheStatus::Stale
                },
                epoch,
            },
        )
    } else if lazy_rebuilds(old, reads).contains(k) {
        Some(CacheEntry { status: CacheStatus::Fresh, epoch })
    } else {
        cache_get(old, k)
    }
}

fn apply_reads(t: &mut Vec<(String, CacheEntry)>, reads: &'static [&'static str], index_ready: bool, epoch: u64) -> (lazy: Vec<String>)
    requires
        table_wf(old(t)@),
    ensures
        table_wf(final(t)@),
        names_of(lazy@) == lazy_rebuilds(old(t)@, strs(reads@)),
        forall|k: Seq<char>| cache_get(final(t)@, k) == after_reads(old(t)@, strs(reads@), index_ready, epoch, k),
{
    proof {
        reveal_strlit("bsl_index");
        reveal_strlit("bsl_diagnostics");
        assert("bsl_index"@ != "bsl_diagnostics"@) by {
            assert("bsl_index"@[4] != "bsl_diagnostics"@[4]);
        }
    }
    let ghost old_t = t@;
    let ghost rs = strs(reads@);
    let mut lazy: Vec<String> = Vec::new();
    let mut i: usize = 0;
    while i < reads.len()
        invariant
            i <= reads@.len(),
            rs == strs(reads@),
            "bsl_index"@ != "bsl_diagnostics"@,
            table_wf(t@),
            names_of(lazy@) == lazy_rebuilds(old_t, rs.take(i as int)),
            forall|k: Seq<char>| cache_get(t@, k) == after_reads(old_t, rs.take(i as int), index_ready, epoch, k),
        decreases reads@.len() - i,
    {
        let name = reads[i];
        let ghost before = t@;
        proof {
            assert forall|k: Seq<char>| #[trigger] rs.take(i + 1).contains(k) <==> (rs.take(i as int).contains(k)
                || k == name@) by {
                lemma_take_contains(rs, i as int, k);
            }
            lemma_take_contains(rs, i as int, "bsl_diagnostics"@);
            lemma_take_contains(rs, i as int, "bsl_index"@);
        }
        if str_eq(name, "bsl_index") {
            let status = if index_ready {
                CacheStatus::Fresh
            } else {
                CacheStatus::Stale
            };
            set_entry(t, name, CacheEntry { status, epoch });
            assert(lazy_rebuilds(old_t, rs.take(i + 1)) =~= lazy_rebuilds(old_t, rs.take(i as int)));
        } else {
            let stale = match find_entry(t, name) {
                Some(e) => match e.status {
                    CacheStatus::Stale => true,
                    CacheStatus::Fresh => false,
                },
                None => is_lazy_cache(name),
            };
            if stale && is_lazy_cache(name) {
                assert(lazy_rebuilds(old_t, rs.take(i as int)) =~= Seq::<Seq<char>>::empty()) by {
                    if lazy_rebuilds(old_t, rs.take(i as int)).len() > 0 {
                        assert(lazy_rebuilds(old_t, rs.take(i as int))[0] == "bsl_diagnostics"@);
                        assert(lazy_rebuilds(old_t, rs.take(i as int)).contains("bsl_diagnostics"@));
                        assert(cache_get(before, name@) == Some(CacheEntry { status: CacheStatus::Fresh, epoch }));
                    }
                }
                set_entry(t, name, CacheEntry { status: CacheStatus::Fresh, epoch });
                lazy.push(name.to_string());
                assert(names_of(lazy@) =~= seq!["bsl_diagnostics"@]);
            } else {
                assert(lazy_rebuilds(old_t, rs.take(i + 1)) =~= lazy_rebuilds(old_t, rs.take(i as int))) by {
                    if name@ == "bsl_diagnostics"@ && lazy_rebuilds(old_t, rs.take(i as int)).len() == 0 {
                        assert(!seq!["bsl_diagnostics"@].contains("bsl_index"@)) by {
                            if seq!["bsl_diagnostics"@].contains("bsl_index"@) {
                                let j = choose|j: int| 0 <= j < 1 && seq!["bsl_diagnostics"@][j] == "bsl_index"@;
                            }
                        }
                    }
                }
            }
        }
        proof {
            assert forall|k: Seq<char>| cache_get(t@, k) == after_reads(old_t, rs.take(i + 1), index_ready, epoch, k) by {
                if seq!["bsl_diagnostics"@].contains(k) {
                    let j = choose|j: int| 0 <= j < 1 && seq!["bsl_diagnostics"@][j] == k;
                    assert(k == "bsl_diagnostics"@);
                }
                if k == "bsl_diagnostics"@ {
                    assert(seq!["bsl_diagnostics"@][0] == k);
                }
            }
        }
        i += 1;
    }
    assert(rs.take(reads@.len() as int) =~= rs);
    lazy
}

/// The entry of cache `name`, if the table has one.
pub fn find_entry(t: &Vec<(String, CacheEntry)>, name: &str) -> (r: Option<CacheEntry>)
    requires
        table_wf(t@),
    ensures
        r == cache_get(t@, name@),
{
    let mut i: usize = 0;
    while i < t.len()
        invariant
            i <= t@.len(),
            table_wf(t@),
            forall|j: int| 0 <= j < i ==> (#[trigger] t@[j]).0@ != name@,
        decreases t@.len() - i,
    {
        if str_eq(t[i].0.as_str(), name) {
            proof {
                lemma_cache_get_at(t@, i as int);
            }
            return Some(t[i].1);
        }
        i += 1;
    }
    None
}


// ---------------------------------------------------------------------------
// The repository of the state, and the report of a call
// ---------------------------------------------------------------------------

/// The state of a workspace that has no saved state yet.
pub fn default_state(context: &WorkspaceContext) -> (s: WorkspaceState)
    ensures
        s.workspace_root@ == context.workspace_root@,
        s.workspace_epoch == context.workspace_epoch,
        s.caches@.len() == 0,
        table_wf(s.caches@),
{
    WorkspaceState {
        workspace_root: context.workspace_root.clone(),
        workspace_epoch: context.workspace_epoch,
        caches: Vec::new(),
    }
}

/// The entry that the last of `entries` named `k` gives, if any.
pub open spec fn last_entry(entries: Seq<(String, CacheEntry)>, k: Seq<char>) -> Option<CacheEntry>
    decreases entries.len(),
{
    if entries.len() == 0 {
        None
    } else if entries.last().0@ == k {
        Some(entries.last().1)
    } else {
        last_entry(entries.drop_last(), k)
    }
}

impl WorkspaceState {
    /// A state from saved entries, in any order; of two entries for one
    /// cache the later one counts.
    pub fn from_entries(workspace_root: String, workspace_epoch: u64, entries: Vec<(String, CacheEntry)>) -> (s: WorkspaceState)
        ensures
            s.workspace_root == workspace_root,
            s.workspace_epoch == workspace_epoch,
            table_wf(s.caches@),
            forall|k: Seq<char>| cache_get(s.caches@, k) == last_entry(entries@, k),
    {
        let mut caches: Vec<(String, CacheEntry)> = Vec::new();
        let mut i: usize = 0;
        while i < entries.len()
            invariant
                i <= entries@.len(),
                table_wf(caches@),
                forall|k: Seq<char>| cache_get(caches@, k) == last_entry(entries@.take(i as int), k),
            decreases entries@.len() - i,
        {
            set_entry(&mut caches, entries[i].0.as_str(), entries[i].1);
            proof {
                let a = entries@.take(i + 1);
                assert(a.drop_last() =~= entries@.take(i as int));
                assert(a.last() == entries@[i as int]);
            }
            i += 1;
        }
        assert(entries@.take(entries@.len() as int) =~= entries@);
        WorkspaceState { workspace_root, workspace_epoch, caches }
    }
}

/// Where a workspace's cache state is kept.
pub struct WorkspaceStateRepository {
    pub state_path: String,
}

/// The mode of a report: a call without events only reads; a call with
/// events is a dry run or applied.
pub open spec fn report_mode(has_events: bool, dry_run: bool) -> Seq<char> {
    if !has_events {
        "read"@
    } else if dry_run {
        "dry-run"@
    } else {
        "applied"@
    }
}

pub open spec fn event_names(events: Seq<DomainEvent>) -> Seq<Seq<char>> {
    events.map_values(|e: DomainEvent| kind_name(e.kind))
}

fn names_of_events(events: &Vec<DomainEvent>) -> (r: Vec<String>)
    ensures
        names_of(r@) == event_names(events@),
{
    let mut r: Vec<String> = Vec::new();
    let mut i: usize = 0;
    while i < events.len()
        invariant
            i <= events@.len(),
            names_of(r@) == event_names(events@.take(i as int)),
        decreases events@.len() - i,
    {
        let name = events[i].name();
        r.push(name.to_string());
        assert(event_names(events@.take(i + 1)) =~= event_names(events@.take(i as int)).push(name@));
        assert(names_of(r@) =~= names_of(r@.drop_last()).push(name@));
        i += 1;
    }
    assert(events@.take(events@.len() as int) =~= events@);
    r
}

/// What reporting a call comes to: the state afterwards, the cache
/// metadata files to write (name and mode, in order), whether the state is
/// saved, and the report.
pub struct CachePlan {
    pub state: WorkspaceState,
    pub metadata: Vec<(String, String)>,
    pub save: bool,
    pub report: CacheReport,
}

pub open spec fn metadata_names(m: Seq<(String, String)>) -> Seq<Seq<char>> {
    m.map_values(|e: (String, String)| e.0@)
}

pub open spec fn metadata_in_mode(m: Seq<(String, String)>, mode: Seq<char>) -> bool {
    forall|i: int| 0 <= i < m.len() ==> (#[trigger] m[i]).1@ == mode
}

/// The same set of names, sorted, each once.
pub open spec fn sorted_set_of(r: Seq<Seq<char>>, values: Seq<Seq<char>>) -> bool {
    &&& strictly_sorted(r)
    &&& forall|k: Seq<char>| r.contains(k) <==> values.contains(k)
}

fn metadata_for(names: &Vec<String>, mode: &str) -> (m: Vec<(String, String)>)
    ensures
        metadata_names(m@) == names_of(names@),
        metadata_in_mode(m@, mode@),
{
    let mut m: Vec<(String, String)> = Vec::new();
    let mut i: usize = 0;
    while i < names.len()
        invariant
            i <= names@.len(),
            metadata_names(m@) == names_of(names@).take(i as int),
            metadata_in_mode(m@, mode@),
        decreases names@.len() - i,
    {
        let ghost before = m@;
        let name = names[i].clone();
        let ghost n = name@;
        m.push((name, mode.to_string()));
        assert(metadata_names(m@) =~= metadata_names(before).push(n));
        assert(names_of(names@).take(i + 1) =~= names_of(names@).take(i as int).push(n));
        i += 1;
    }
    assert(names_of(names@).take(names@.len() as int) =~= names_of(names@));
    m
}

impl WorkspaceStateRepository {
    pub fn new(context: &WorkspaceContext) -> (r: Self)
        ensures
            r.state_path@ == path_join_spec(context.cache_root@, "state.json"@, context.platform),
    {
        WorkspaceStateRepository { state_path: state_path(context) }
    }

    /// Reports what a call did to the caches, from the state it found.
    ///
    /// A call with events that is not a dry run marks the invalidated caches
    /// stale and the refreshed ones fresh, writes metadata for each
    /// refreshed cache, and saves the state.  A call without events that is
    /// not a dry run records whether the code index is ready (when it reads
    /// it) and rebuilds the lazy caches it reads while they are stale; the
    /// state is saved when one was rebuilt.  A dry run changes nothing.
    pub fn report(
        &self,
        state: WorkspaceState,
        context: &WorkspaceContext,
        events: &Vec<DomainEvent>,
        impact: &CacheImpact,
        dry_run: bool,
        cache_access: CacheAccess,
        index_ready: bool,
        root: String,
    ) -> (p: CachePlan)
        requires
            table_wf(state.caches@),
        ensures
            table_wf(p.state.caches@),
            p.state.workspace_root == state.workspace_root,
            p.report.mode@ == report_mode(events@.len() > 0, dry_run),
            p.report.root == root,
            p.report.workspace_epoch == context.workspace_epoch,
            names_of(p.report.events@) == event_names(events@),
            events@.len() > 0 ==> sorted_set_of(
                names_of(p.report.invalidated@),
                names_of(impact.invalidated@),
            ),
            events@.len() == 0 ==> p.report.invalidated@.len() == 0,
            events@.len() > 0 && !dry_run ==> sorted_set_of(
                names_of(p.report.refreshed@),
                names_of(impact.eager_refresh@),
            ),
            events@.len() == 0 || dry_run ==> p.report.refreshed@.len() == 0,
            names_of(p.report.stale@) == names_with(p.state.caches@, CacheStatus::Stale),
            names_of(p.report.fresh@) == names_with(p.state.caches@, CacheStatus::Fresh),
            dry_run ==> {
                &&& p.state.caches@ == state.caches@
                &&& p.state.workspace_epoch == state.workspace_epoch
                &&& p.metadata@.len() == 0
                &&& !p.save
                &&& p.report.lazy_rebuilt@.len() == 0
            },
            events@.len() > 0 && !dry_run ==> {
                &&& forall|k: Seq<char>|
                    cache_get(p.state.caches@, k) == after_events(
                        state.caches@,
                        names_of(impact.invalidated@),
                        names_of(impact.eager_refresh@),
                        context.workspace_epoch,
                        k,
                    )
                &&& p.state.workspace_epoch == context.workspace_epoch
                &&& metadata_names(p.metadata@) == names_of(p.report.refreshed@)
                &&& metadata_in_mode(p.metadata@, "eager"@)
                &&& p.save
                &&& p.report.lazy_rebuilt@.len() == 0
                &&& forall|k: Seq<char>|
                    #[trigger] names_of(impact.eager_refresh@).contains(k) ==> names_of(
                        p.report.fresh@,
                    ).contains(k)
                &&& forall|k: Seq<char>|
                    #[trigger] names_of(impact.invalidated@).contains(k) && !names_of(
                        impact.eager_refresh@,
                    ).contains(k) ==> names_of(p.report.stale@).contains(k)
            },
            events@.len() == 0 && !dry_run ==> {
                &&& forall|k: Seq<char>|
                    cache_get(p.state.caches@, k) == after_reads(
                        state.caches@,
                        cache_access.reads_view(),
                        index_ready,
                        context.workspace_epoch,
                        k,
                    )
                &&& names_of(p.report.lazy_rebuilt@) == lazy_rebuilds(state.caches@, cache_access.reads_view())
                &&& metadata_names(p.metadata@) == names_of(p.report.lazy_rebuilt@)
                &&& metadata_in_mode(p.metadata@, "lazy"@)
                &&& p.save == (p.report.lazy_rebuilt@.len() > 0)
                &&& p.state.workspace_epoch == if p.save {
                    context.workspace_epoch
                } else {
                    state.workspace_epoch
                }
                &&& cache_access.reads_view().contains("bsl_index"@) ==> {
                    &&& names_of(p.report.stale@).contains("bsl_index"@) == !index_ready
                    &&& names_of(p.report.fresh@).contains("bsl_index"@) == index_ready
                }
            },
    {
        let epoch = context.workspace_epoch;
        let has_events = events.len() > 0;
        let mut invalidated = sorted(&impact.invalidated);
        let mut refreshed = sorted(&impact.eager_refresh);
        let mut lazy_rebuilt: Vec<String> = Vec::new();
        let mut metadata: Vec<(String, String)> = Vec::new();
        let mut save = false;
        let mut st = state;

        if has_events && !dry_run {
            let ghost before = st.caches@;
            set_all(&mut st.caches, &invalidated, CacheEntry { status: CacheStatus::Stale, epoch });
            let ghost middle = st.caches@;
            set_all(&mut st.caches, &refreshed, CacheEntry { status: CacheStatus::Fresh, epoch });
            metadata = metadata_for(&refreshed, "eager");
            st.workspace_epoch = epoch;
            save = true;
            proof {
                assert forall|k: Seq<char>| #[trigger] cache_get(st.caches@, k) == after_events(
                    before,
                    names_of(impact.invalidated@),
                    names_of(impact.eager_refresh@),
                    epoch,
                    k,
                ) by {
                    assert(cache_get(middle, k) == if names_of(invalidated@).contains(k) {
                        Some(CacheEntry { status: CacheStatus::Stale, epoch })
                    } else {
                        cache_get(before, k)
                    });
                }
            }
        }
        if dry_run {
            refreshed = Vec::new();
        }
        if !has_events {
            invalidated = Vec::new();
            refreshed = Vec::new();
        }
        if !has_events && !dry_run {
            lazy_rebuilt = apply_reads(&mut st.caches, cache_access.reads, index_ready, epoch);
            metadata = metadata_for(&lazy_rebuilt, "lazy");
            if lazy_rebuilt.len() > 0 {
                st.workspace_epoch = epoch;
                save = true;
            }
        }
        let (stale, fresh) = split_by_status(&st.caches);
        proof {
            if !has_events && !dry_run {
                lemma_names_with_status(st.caches@, CacheStatus::Fresh, "bsl_index"@);
                lemma_names_with_status(st.caches@, CacheStatus::Stale, "bsl_index"@);
            }
            if has_events && !dry_run {
                assert forall|k: Seq<char>| #[trigger] names_of(impact.eager_refresh@).contains(k) implies names_of(
                    fresh@,
                ).contains(k) by {
                    lemma_names_with_status(st.caches@, CacheStatus::Fresh, k);
                }
                assert forall|k: Seq<char>| #[trigger] names_of(impact.invalidated@).contains(k) && !names_of(
                    impact.eager_refresh@,
                ).contains(k) implies names_of(stale@).contains(k) by {
                    lemma_names_with_status(st.caches@, CacheStatus::Stale, k);
                }
            }
        }
        let mode = if !has_events {
            "read".to_string()
        } else if dry_run {
            "dry-run".to_string()
        } else {
            "applied".to_string()
        };
        let report = CacheReport {
            mode,
            root,
            workspace_epoch: epoch,
            events: names_of_events(events),
            invalidated,
            refreshed,
            lazy_rebuilt,
            stale,
            fresh,
        };
        assert(names_of(Seq::<String>::empty()) =~= Seq::<Seq<char>>::empty());
        CachePlan { state: st, metadata, save, report }
    }
}

} // verus!
