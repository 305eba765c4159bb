//! The preview cache, the registry of refresh jobs, and the cached preview
//! of one result line.
use vstd::prelude::*;
use crate::preview::Preview;
use crate::target::{
    env_resolve, parse_preview_target, PreviewTarget, ResolveEnv, ResolveError,
    TargetView,
};
use crate::text::text_eq;

verus! {

/// Index of the first entry at or after `i` whose target is `key`.
pub open spec fn find_from(entries: Seq<(PreviewTarget, Preview)>, key: TargetView, i: int) -> Option<int>
    decreases entries.len() - i,
{
    if i < 0 || i >= entries.len() {
        None
    } else if entries[i].0@ == key {
        Some(i)
    } else {
        find_from(entries, key, i + 1)
    }
}

pub open spec fn find_entry(entries: Seq<(PreviewTarget, Preview)>, key: TargetView) -> Option<int> {
    find_from(entries, key, 0)
}

/// The preview of the first entry whose target is `key`.
pub open spec fn get_in(entries: Seq<(PreviewTarget, Preview)>, key: TargetView) -> Option<Preview> {
    match find_entry(entries, key) {
        Some(i) => Some(entries[i].1),
        None => None,
    }
}

/// Previews computed so far, by target.
#[derive(Debug)]
pub struct PreviewCache {
    entries: Vec<(PreviewTarget, Preview)>,
}

impl PreviewCache {
    pub closed spec fn entries(&self) -> Seq<(PreviewTarget, Preview)> {
        self.entries@
    }

    /// The preview cached under `key`.
    pub open spec fn get(&self, key: TargetView) -> Option<Preview> {
        get_in(self.entries(), key)
    }

    /// `self` is `before` with `preview` cached under `key`.
    pub open spec fn caches(&self, before: PreviewCache, key: TargetView, preview: Preview) -> bool {
        &&& self.get(key) == Some(preview)
        &&& forall|k: TargetView| k != key ==> self.get(k) == before.get(k)
    }

    /// An empty cache.
    pub fn new() -> (r: Self)
        ensures
            forall|k: TargetView| r.get(k) is None,
    {
        PreviewCache { entries: Vec::new() }
    }

    /// The preview cached under `target`, if any.
    pub fn cached_preview(&self, target: &PreviewTarget) -> (r: Option<&Preview>)
        ensures
            match self.get(target@) {
                Some(p) => r == Some(&p),
                None => r is None,
            },
    {
        let mut i: usize = 0;
        while i < self.entries.len()
            invariant
                i <= self.entries@.len(),
                find_entry(self.entries@, target@) == find_from(self.entries@, target@, i as int),
            decreases self.entries@.len() - i,
        {
            let e = &self.entries[i];
            if e.0.same_as(target) {
                return Some(&e.1);
            }
            i = i + 1;
        }
        None
    }

    /// Caches `preview` under `target`, in place of any preview cached under it.
    pub fn insert_preview(&mut self, target: PreviewTarget, preview: Preview)
        ensures
            final(self).caches(*old(self), target@, preview),
    {
        let ghost key = target@;
        let ghost before = self.entries@;
        let mut i: usize = 0;
        while i < self.entries.len()
            invariant
                self.entries@ == before,
                old(self).entries@ == before,
                key == target@,
                i <= before.len(),
                forall|t: int| 0 <= t < i ==> before[t].0@ != key,
            decreases before.len() - i,
        {
            let found = self.entries[i].0.same_as(&target);
            if found {
                self.entries.set(i, (target, preview));
                proof {
                    let after = self.entries@;
                    assert(after[i as int].0@ == key);
                    assert(find_from(after, key, i as int) == Some(i as int));
                    lemma_find_skip(after, key, i as int, 0);
                    assert forall|k: TargetView| k != key implies get_in(after, k)
                        == get_in(before, k) by {
                        assert(before[i as int].0@ != k);
                        lemma_find_other(before, after, k, i as int, 0);
                        lemma_find_bounds(before, k, 0);
                        if let Some(t) = find_entry(before, k) {
                            assert(t != i);
                            assert(after[t] == before[t]);
                        }
                    }
                    assert(self.entries() == after);
                    assert(forall|k: TargetView| k != key ==> self.get(k) == get_in(before, k));
                }
                return;
            }
            i = i + 1;
        }
        self.entries.push((target, preview));
        proof {
            lemma_find_skip(before, key, before.len() as int, 0);
            lemma_find_push(before, key, (target, preview), 0);
            assert forall|k: TargetView| k != key implies get_in(self.entries@, k)
                == get_in(before, k) by {
                lemma_find_push(before, k, (target, preview), 0);
                lemma_find_bounds(before, k, 0);
            }
        }
    }
}

proof fn lemma_find_other(
    before: Seq<(PreviewTarget, Preview)>,
    after: Seq<(PreviewTarget, Preview)>,
    k: TargetView,
    i: int,
    j: int,
)
    requires
        0 <= i < before.len(),
        0 <= j,
        after.len() == before.len(),
        before[i].0@ != k,
        after[i].0@ != k,
        forall|t: int| 0 <= t < before.len() && t != i ==> after[t] == before[t],
    ensures
        find_from(after, k, j) == find_from(before, k, j),
    decreases before.len() - j,
{
    if j < before.len() {
        lemma_find_other(before, after, k, i, j + 1);
    }
}

proof fn lemma_find_bounds(s: Seq<(PreviewTarget, Preview)>, k: TargetView, j: int)
    requires
        0 <= j,
    ensures
        find_from(s, k, j) matches Some(t) ==> j <= t < s.len() && s[t].0@ == k,
    decreases s.len() - j,
{
    if j < s.len() {
        lemma_find_bounds(s, k, j + 1);
    }
}

proof fn lemma_find_skip(s: Seq<(PreviewTarget, Preview)>, k: TargetView, i: int, j: int)
    requires
        0 <= j <= i <= s.len(),
        forall|t: int| j <= t < i ==> s[t].0@ != k,
    ensures
        find_from(s, k, j) == find_from(s, k, i),
    decreases i - j,
{
    if j < i {
        lemma_find_skip(s, k, i, j + 1);
    }
}

proof fn lemma_find_push(
    before: Seq<(PreviewTarget, Preview)>,
    k: TargetView,
    x: (PreviewTarget, Preview),
    j: int,
)
    requires
        0 <= j <= before.len(),
    ensures
        find_from(before.push(x), k, j) == match find_from(before, k, j) {
            Some(t) => Some(t),
            None => if x.0@ == k { Some(before.len() as int) } else { None },
        },
    decreases before.len() - j,
{
    assert(before.push(x)[before.len() as int] == x);
    if j < before.len() {
        assert(before.push(x)[j] == before[j]);
        lemma_find_push(before, k, x, j + 1);
    }
}

/// Caching a preview under a target and asking for that target gives the
/// preview back and leaves every other target as it was; caching the same
/// preview again changes nothing that can be read, and a later preview under
/// the same target replaces the earlier one.
pub proof fn lemma_cache_round_trip(
    before: PreviewCache,
    after: PreviewCache,
    again: PreviewCache,
    target: TargetView,
    preview: Preview,
)
    requires
        after.caches(before, target, preview),
    ensures
        after.get(target) == Some(preview),
        forall|k: TargetView| k != target ==> after.get(k) == before.get(k),
        again.caches(after, target, preview) ==> forall|k: TargetView| again.get(k) == after.get(k),
        forall|later: Preview|
            #[trigger] again.caches(after, target, later) ==> again.get(target) == Some(later),
{
}

/// Refresh jobs in flight, by identifier. A job runs only while it holds
/// its reservation, so two identical refreshes never run at once.
#[derive(Debug)]
pub struct JobRegistry {
    reserved: Vec<u64>,
}

/// What reserving `id` answers, and the reservations after it.
pub open spec fn reserve_outcome(held: Set<u64>, id: u64) -> (bool, Set<u64>) {
    (!held.contains(id), held.insert(id))
}

impl View for JobRegistry {
    type V = Set<u64>;

    closed spec fn view(&self) -> Set<u64> {
        self.reserved@.to_set()
    }
}

impl JobRegistry {
    /// No reservation held.
    pub fn new() -> (r: Self)
        ensures
            r@ == Set::<u64>::empty(),
    {
        let r = JobRegistry { reserved: Vec::new() };
        assert(r.reserved@.to_set() =~= Set::<u64>::empty());
        r
    }

    /// Whether `id` is reserved.
    pub fn is_reserved(&self, id: u64) -> (r: bool)
        ensures
            r == self@.contains(id),
    {
        let mut i: usize = 0;
        while i < self.reserved.len()
            invariant
                i <= self.reserved@.len(),
                forall|j: int| 0 <= j < i ==> self.reserved@[j] != id,
            decreases self.reserved@.len() - i,
        {
            if self.reserved[i] == id {
                assert(self.reserved@.to_set().contains(self.reserved@[i as int]));
                return true;
            }
            i = i + 1;
        }
        assert(!self.reserved@.to_set().contains(id)) by {
            if self.reserved@.to_set().contains(id) {
                let j = choose|j: int| 0 <= j < self.reserved@.len() && self.reserved@[j] == id;
            }
        }
        false
    }

    /// Reserves `id`: `true` when it was free and is now held, `false` when
    /// an identical job already holds it.
    pub fn reserve(&mut self, id: u64) -> (r: bool)
        ensures
            (r, final(self)@) == reserve_outcome(old(self)@, id),
    {
        if self.is_reserved(id) {
            assert(old(self)@.insert(id) =~= old(self)@);
            false
        } else {
            self.reserved.push(id);
            assert(self.reserved@.to_set() =~= old(self)@.insert(id)) by {
                assert(self.reserved@ == old(self).reserved@.push(id));
                assert forall|x: u64| self.reserved@.to_set().contains(x) implies old(self)@.insert(
                    id,
                ).contains(x) by {
                    let j = choose|j: int| 0 <= j < self.reserved@.len() && self.reserved@[j] == x;
                    if j < old(self).reserved@.len() {
                        assert(old(self).reserved@.to_set().contains(old(self).reserved@[j]));
                    }
                }
                assert forall|x: u64| old(self)@.insert(id).contains(x) implies self.reserved@.to_set().contains(
                    x,
                ) by {
                    if x == id {
                        assert(self.reserved@[old(self).reserved@.len() as int] == id);
                    } else {
                        let j = choose|j: int| 0 <= j < old(self).reserved@.len() && old(self).reserved@[j] == x;
                        assert(self.reserved@[j] == x);
                    }
                }
            }
            true
        }
    }

    /// Releases `id`.
    pub fn unreserve(&mut self, id: u64)
        ensures
            final(self)@ == old(self)@.remove(id),
    {
        let ghost before = self.reserved@;
        let mut kept: Vec<u64> = Vec::new();
        let mut i: usize = 0;
        while i < self.reserved.len()
            invariant
                self.reserved@ == before,
                i <= before.len(),
                forall|x: u64| kept@.contains(x) <==> (x != id && before.take(i as int).contains(x)),
            decreases before.len() - i,
        {
            let x = self.reserved[i];
            let ghost prefix = before.take(i as int);
            let ghost old_kept = kept@;
            assert(before.take(i + 1) =~= prefix.push(x));
            if x != id {
                kept.push(x);
            }
            proof {
                assert forall|y: u64| kept@.contains(y) <==> (y != id && prefix.push(x).contains(y)) by {
                    if kept@.contains(y) {
                        let j = choose|j: int| 0 <= j < kept@.len() && kept@[j] == y;
                        if j < old_kept.len() {
                            assert(old_kept[j] == y);
                            assert(old_kept.contains(y));
                            assert(prefix.contains(y));
                            let k = choose|k: int| 0 <= k < prefix.len() && prefix[k] == y;
                            assert(prefix.push(x)[k] == y);
                        } else {
                            assert(prefix.push(x)[prefix.len() as int] == y);
                        }
                    }
                    if y != id && prefix.push(x).contains(y) {
                        let k = choose|k: int| 0 <= k < prefix.len() + 1 && prefix.push(x)[k] == y;
                        if k < prefix.len() {
                            assert(prefix[k] == y);
                            assert(old_kept.contains(y));
                            let j = choose|j: int| 0 <= j < old_kept.len() && old_kept[j] == y;
                            assert(kept@[j] == y);
                        } else {
                            assert(kept@[old_kept.len() as int] == y);
                        }
                    }
                }
            }
            i = i + 1;
        }
        assert(before.take(i as int) =~= before);
        self.reserved = kept;
        assert(self.reserved@.to_set() =~= old(self)@.remove(id));
    }
}

/// Once a refresh job has reserved its identifier, an identical job's
/// reservation is refused until the first releases it.
pub proof fn lemma_reservation_conflict(held: Set<u64>, id: u64)
    ensures
        reserve_outcome(reserve_outcome(held, id).1, id).0 == false,
        reserve_outcome(held, id).1.remove(id).contains(id) == false,
        !held.contains(id) ==> reserve_outcome(reserve_outcome(held, id).1.remove(id), id).0,
{
    assert(held.insert(id).remove(id).contains(id) == false);
}

/// Whether the line shown in a cached search result has gone stale: the grep
/// provider showed a line that differs from the one now in the file.
pub open spec fn is_stale(provider_id: Seq<char>, cache_line: Option<Seq<char>>, latest: Seq<char>) -> bool {
    provider_id == "grep"@ && (cache_line matches Some(c) && c != latest)
}

pub open spec fn opt_view(o: Option<String>) -> Option<Seq<char>> {
    match o {
        Some(s) => Some(s@),
        None => None,
    }
}

/// The preview of one result line of a provider.
#[derive(Debug)]
pub struct CachedPreviewImpl {
    pub provider_id: String,
    pub preview_height: usize,
    pub preview_target: PreviewTarget,
    /// The line the search result showed, kept to notice that the result came
    /// from an out-of-date index. Only the grep provider reports one.
    pub cache_line: Option<String>,
}

impl CachedPreviewImpl {
    /// Resolves `curline` of the provider into the target to preview.
    pub fn new(curline: &str, preview_height: usize, provider_id: &str, env: &ResolveEnv) -> (r: Result<
        Self,
        ResolveError,
    >)
        ensures
            match env_resolve(provider_id@, curline@, *env) {
                Ok((t, c)) => r matches Ok(s) && s.preview_target@ == t && opt_view(s.cache_line)
                    == c && s.preview_height == preview_height && s.provider_id@ == provider_id@,
                Err(e) => r matches Err(x) && x@ == e,
            },
    {
        match parse_preview_target(curline, provider_id, env) {
            Ok((preview_target, cache_line)) => Ok(
                CachedPreviewImpl {
                    provider_id: provider_id.to_owned(),
                    preview_height,
                    preview_target,
                    cache_line,
                },
            ),
            Err(e) => Err(e),
        }
    }

    /// A preview of a target that is already known.
    pub fn with_preview_target(preview_target: PreviewTarget, preview_height: usize, provider_id: &str) -> (r: Self)
        ensures
            r.preview_target == preview_target,
            r.preview_height == preview_height,
            r.provider_id@ == provider_id@,
            r.cache_line is None,
    {
        CachedPreviewImpl { provider_id: provider_id.to_owned(), preview_height, preview_target, cache_line: None }
    }

    /// The cached preview of the target, if there is one: then nothing is to be
    /// computed.
    pub fn get_preview<'a>(&self, cache: &'a PreviewCache) -> (r: Option<(PreviewTarget, &'a Preview)>)
        ensures
            match cache.get(self.preview_target@) {
                Some(p) => r matches Some((t, q)) && t@ == self.preview_target@ && *q == p,
                None => r is None,
            },
    {
        match cache.cached_preview(&self.preview_target) {
            Some(p) => Some((self.preview_target.duplicate(), p)),
            None => None,
        }
    }

    /// Caches a preview computed for the target.
    pub fn store_preview(&self, cache: &mut PreviewCache, preview: Preview)
        ensures
            final(cache).caches(*old(cache), self.preview_target@, preview),
    {
        cache.insert_preview(self.preview_target.duplicate(), preview);
    }

    /// Whether the line the search result showed differs from `latest_line`,
    /// the line now in the file, for a provider whose results come from an
    /// index that can go stale.
    pub fn is_cache_outdated(&self, latest_line: &str) -> (r: bool)
        ensures
            r == is_stale(self.provider_id@, opt_view(self.cache_line), latest_line@),
    {
        if !text_eq(self.provider_id.as_str(), "grep") {
            return false;
        }
        match &self.cache_line {
            Some(c) => !text_eq(c.as_str(), latest_line),
            None => false,
        }
    }

    /// Decides on a refresh of a stale index: when the shown line is stale and
    /// no identical refresh (`job_id`) is in flight, the job is reserved and
    /// `true` says to start it; it must release `job_id` when it ends.
    pub fn try_refresh_cache(&self, latest_line: &str, jobs: &mut JobRegistry, job_id: u64) -> (r: bool)
        ensures
            is_stale(self.provider_id@, opt_view(self.cache_line), latest_line@) ==> (r, final(jobs)@)
                == reserve_outcome(old(jobs)@, job_id),
            !is_stale(self.provider_id@, opt_view(self.cache_line), latest_line@) ==> !r
                && final(jobs)@ == old(jobs)@,
    {
        if self.is_cache_outdated(latest_line) {
            jobs.reserve(job_id)
        } else {
            false
        }
    }
}

} // verus!
