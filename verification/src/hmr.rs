//! Hot-module-reload change tracking.
//!
//! [`HmrContext`] owns one entry per logical module with an unreconciled
//! change and the time of the last completed rebuild. Time enters every
//! operation as an explicit millisecond value, so the whole state machine is
//! deterministic and fully specified; callers read the clock and pass the
//! result in. Contracts speak of the mathematical model of the entry list, a
//! sequence of [`ModuleChange`] values.

use vstd::prelude::*;
use vstd::string::*;
use crate::path_map::{PathMapper, seq_views, spec_map};
use crate::text;

verus! {

/// One logical source module with an unreconciled change.
pub struct HmrUpdate {
    /// Stable logical name derived from the relative path.
    pub module: String,
    /// When the most recent change to this module was detected
    /// (milliseconds).
    pub timestamp: u64,
    /// True once a rebuild has incorporated this change.
    pub is_updated: bool,
}

/// Mathematical model of one tracked change.
pub ghost struct ModuleChange {
    /// The module's logical name.
    pub module: Seq<char>,
    /// When the most recent change was detected (milliseconds).
    pub timestamp: u64,
    /// True once a rebuild has incorporated this change.
    pub applied: bool,
}

impl View for HmrUpdate {
    type V = ModuleChange;

    open spec fn view(&self) -> ModuleChange {
        ModuleChange { module: self.module@, timestamp: self.timestamp, applied: self.is_updated }
    }
}

/// The model of a sequence of tracked entries.
pub open spec fn model(s: Seq<HmrUpdate>) -> Seq<ModuleChange> {
    s.map_values(|u: HmrUpdate| u@)
}

/// Tracks which modules have pending changes and when the last rebuild
/// happened.
pub struct HmrContext {
    /// Tracked modules; at most one entry per module name.
    pub updates: Vec<HmrUpdate>,
    /// Time of the last completed rebuild (milliseconds), if any.
    pub last_rebuild: Option<u64>,
    /// Maps changed paths to module names.
    pub mapper: PathMapper,
    /// Project root directory that changed paths are resolved against.
    pub project_root: String,
}

/// Index of the entry for module `m`, searching from position `i` on.
pub open spec fn find_module(s: Seq<ModuleChange>, m: Seq<char>, i: int) -> Option<int>
    decreases s.len() - i,
{
    if i < 0 || i >= s.len() {
        None
    } else if s[i].module == m {
        Some(i)
    } else {
        find_module(s, m, i + 1)
    }
}

/// `s` with the entry for module `m` inserted or overwritten as a fresh,
/// unapplied change detected at `t`.
pub open spec fn upsert(s: Seq<ModuleChange>, m: Seq<char>, t: u64) -> Seq<ModuleChange> {
    let u = ModuleChange { module: m, timestamp: t, applied: false };
    match find_module(s, m, 0) {
        Some(i) => s.update(i, u),
        None => s.push(u),
    }
}

/// `s` with every entry marked as applied; names and timestamps are kept.
pub open spec fn mark_all(s: Seq<ModuleChange>) -> Seq<ModuleChange> {
    s.map_values(
        |u: ModuleChange| ModuleChange { module: u.module, timestamp: u.timestamp, applied: true },
    )
}

/// Some entry holds an unapplied change.
pub open spec fn has_pending(s: Seq<ModuleChange>) -> bool {
    exists|i: int| 0 <= i < s.len() && !s[i].applied
}

/// The module names of the entries with unapplied changes, in entry order.
pub open spec fn pending_of(s: Seq<ModuleChange>) -> Seq<Seq<char>>
    decreases s.len(),
{
    if s.len() == 0 {
        Seq::empty()
    } else if !s.last().applied {
        pending_of(s.drop_last()).push(s.last().module)
    } else {
        pending_of(s.drop_last())
    }
}

/// The change of `u` is older than `max_age` at time `now`.
pub open spec fn is_stale(u: ModuleChange, max_age: u64, now: u64) -> bool {
    now as int - u.timestamp as int > max_age as int
}

/// The module names of the stale entries, in entry order.
pub open spec fn stale_of(s: Seq<ModuleChange>, max_age: u64, now: u64) -> Seq<Seq<char>>
    decreases s.len(),
{
    if s.len() == 0 {
        Seq::empty()
    } else if is_stale(s.last(), max_age, now) {
        stale_of(s.drop_last(), max_age, now).push(s.last().module)
    } else {
        stale_of(s.drop_last(), max_age, now)
    }
}

/// `s` without its stale entries, in entry order.
pub open spec fn retain_fresh(s: Seq<ModuleChange>, max_age: u64, now: u64) -> Seq<ModuleChange>
    decreases s.len(),
{
    if s.len() == 0 {
        Seq::empty()
    } else if is_stale(s.last(), max_age, now) {
        retain_fresh(s.drop_last(), max_age, now)
    } else {
        retain_fresh(s.drop_last(), max_age, now).push(s.last())
    }
}

/// The smallest detection timestamp among the entries of `s`.
pub open spec fn min_timestamp(s: Seq<ModuleChange>) -> int
    decreases s.len(),
{
    if s.len() <= 1 {
        if s.len() == 0 {
            0
        } else {
            s[0].timestamp as int
        }
    } else if s.last().timestamp as int <= min_timestamp(s.drop_last()) {
        s.last().timestamp as int
    } else {
        min_timestamp(s.drop_last())
    }
}

/// Entries carry pairwise distinct module names.
pub open spec fn modules_unique(s: Seq<ModuleChange>) -> bool {
    forall|i: int, j: int| 0 <= i < j < s.len() ==> s[i].module != s[j].module
}

impl HmrContext {
    /// The model of the tracked entries.
    pub open spec fn entries(self) -> Seq<ModuleChange> {
        model(self.updates@)
    }

    /// The context is well formed: at most one entry per module name.
    pub open spec fn wf(self) -> bool {
        modules_unique(self.entries())
    }

    /// A rebuild is due at `now`: the debounce window since the last
    /// completed rebuild has passed and some change is pending.
    pub open spec fn spec_should_rebuild(self, debounce_ms: u64, now: u64) -> bool {
        if self.last_rebuild matches Some(t) && (now as int) < t as int + debounce_ms as int {
            false
        } else {
            has_pending(self.entries())
        }
    }

    /// Fresh context for the project at `project_root`, with the default
    /// path mapper, no tracked modules and no recorded rebuild.
    pub fn new(project_root: String) -> (r: Self)
        ensures
            r.entries() =~= Seq::<ModuleChange>::empty(),
            r.last_rebuild is None,
            r.project_root == project_root,
            r.mapper.src_prefix@ == "src/"@,
            seq_views(r.mapper.extensions@) =~= seq![".rs"@, ".orbit"@],
            r.wf(),
    {
        HmrContext {
            updates: Vec::new(),
            last_rebuild: None,
            mapper: PathMapper::new_default(),
            project_root,
        }
    }

    /// Index of the entry for `module`, if one is tracked.
    fn find_index(&self, module: &str) -> (r: Option<usize>)
        ensures
            match r {
                Some(i) => i < self.updates@.len() && find_module(self.entries(), module@, 0)
                    == Some(i as int),
                None => find_module(self.entries(), module@, 0) is None,
            },
    {
        let n = self.updates.len();
        let mut i: usize = 0;
        while i < n
            invariant
                n == self.updates.len(),
                i <= n,
                find_module(self.entries(), module@, 0) == find_module(
                    self.entries(),
                    module@,
                    i as int,
                ),
            decreases n - i,
        {
            if text::str_eq(self.updates[i].module.as_str(), module) {
                assert(self.entries()[i as int].module == module@);
                return Some(i);
            }
            assert(self.entries()[i as int].module != module@);
            i += 1;
        }
        None
    }

    /// Record an unreconciled change to `module`, detected at `now`:
    /// inserts the module or overwrites its entry, resetting it to
    /// unapplied. Afterwards a change is always pending.
    pub fn record_change(&mut self, module: String, now: u64)
        requires
            old(self).wf(),
        ensures
            final(self).entries() == upsert(old(self).entries(), module@, now),
            final(self).last_rebuild == old(self).last_rebuild,
            final(self).mapper == old(self).mapper,
            final(self).project_root == old(self).project_root,
            final(self).wf(),
            has_pending(final(self).entries()),
    {
        let ghost s0 = self.entries();
        let ghost mc = ModuleChange { module: module@, timestamp: now, applied: false };
        match self.find_index(module.as_str()) {
            Some(i) => {
                proof {
                    lemma_find_module_some(s0, mc.module, 0);
                }
                let _ = self.updates.remove(i);
                self.updates.insert(i, HmrUpdate { module, timestamp: now, is_updated: false });
                proof {
                    assert(self.entries() =~= s0.update(i as int, mc));
                    assert(!self.entries()[i as int].applied);
                    assert(s0[i as int].module == mc.module);
                    assert forall|a: int, b: int|
                        0 <= a < b < self.entries().len() implies self.entries()[a].module
                        != self.entries()[b].module by {
                        assert(self.entries()[a].module == s0[a].module);
                        assert(self.entries()[b].module == s0[b].module);
                    }
                }
            },
            None => {
                self.updates.push(HmrUpdate { module, timestamp: now, is_updated: false });
                proof {
                    assert(self.entries() =~= s0.push(mc));
                    assert(!self.entries()[s0.len() as int].applied);
                    assert forall|a: int, b: int|
                        0 <= a < b < self.entries().len() implies self.entries()[a].module
                        != self.entries()[b].module by {
                        if b < s0.len() {
                            assert(self.entries()[a].module == s0[a].module);
                            assert(self.entries()[b].module == s0[b].module);
                        } else {
                            assert(self.entries()[a].module == s0[a].module);
                            assert(self.entries()[b].module == mc.module);
                            lemma_find_module_none_from(s0, mc.module, 0, a);
                        }
                    }
                }
            },
        }
    }

    /// Record a change to the file at `path`, detected at `now`. When the
    /// path maps to a module, that module is recorded as changed and its
    /// name returned; otherwise the state is left untouched.
    pub fn record_file_change(&mut self, path: &str, now: u64) -> (r: Option<String>)
        requires
            old(self).wf(),
        ensures
            final(self).last_rebuild == old(self).last_rebuild,
            final(self).mapper == old(self).mapper,
            final(self).project_root == old(self).project_root,
            final(self).wf(),
            match spec_map(
                path@,
                old(self).project_root@,
                old(self).mapper.src_prefix@,
                seq_views(old(self).mapper.extensions@),
            ) {
                Some(m) => r matches Some(rm) && rm@ == m && final(self).entries() == upsert(
                    old(self).entries(),
                    m,
                    now,
                ) && has_pending(final(self).entries()),
                None => r is None && final(self).entries() == old(self).entries(),
            },
    {
        let mapped = self.mapper.map(path, self.project_root.as_str());
        match mapped {
            Some(m) => {
                let ret = m.clone();
                self.record_change(m, now);
                Some(ret)
            },
            None => None,
        }
    }

    /// Mark every tracked entry as incorporated by a rebuild. Afterwards no
    /// change is pending.
    pub fn mark_modules_updated(&mut self)
        requires
            old(self).wf(),
        ensures
            final(self).entries() == mark_all(old(self).entries()),
            final(self).last_rebuild == old(self).last_rebuild,
            final(self).mapper == old(self).mapper,
            final(self).project_root == old(self).project_root,
            final(self).wf(),
            !has_pending(final(self).entries()),
    {
        let ghost s0 = self.entries();
        let n = self.updates.len();
        let mut marked: Vec<HmrUpdate> = Vec::new();
        let mut i: usize = 0;
        while i < n
            invariant
                n == self.updates.len(),
                s0 == self.entries(),
                i <= n,
                model(marked@) == mark_all(s0.take(i as int)),
            decreases n - i,
        {
            let ghost kept_before = marked@;
            let m = self.updates[i].module.clone();
            let t = self.updates[i].timestamp;
            marked.push(HmrUpdate { module: m, timestamp: t, is_updated: true });
            proof {
                let mc = ModuleChange {
                    module: s0[i as int].module,
                    timestamp: s0[i as int].timestamp,
                    applied: true,
                };
                assert(m@ == s0[i as int].module);
                assert(t == s0[i as int].timestamp);
                assert(marked@.last()@ == mc);
                assert(model(marked@) =~= model(kept_before).push(mc));
                assert(mark_all(s0.take(i + 1)) =~= mark_all(s0.take(i as int)).push(mc));
            }
            i += 1;
        }
        proof {
            assert(s0.take(n as int) =~= s0);
        }
        self.updates = marked;
        proof {
            assert forall|a: int, b: int|
                0 <= a < b < self.entries().len() implies self.entries()[a].module
                != self.entries()[b].module by {
                assert(self.entries()[a].module == s0[a].module);
                assert(self.entries()[b].module == s0[b].module);
            }
            assert forall|j: int| 0 <= j < self.entries().len() implies self.entries()[
                j
            ].applied by {
                assert(self.entries()[j] == mark_all(s0)[j]);
            }
        }
    }

    /// True iff some tracked module still has an unapplied change.
    pub fn needs_update(&self) -> (r: bool)
        ensures
            r == has_pending(self.entries()),
    {
        let n = self.updates.len();
        let mut i: usize = 0;
        while i < n
            invariant
                n == self.updates.len(),
                i <= n,
                forall|j: int| 0 <= j < i ==> self.entries()[j].applied,
            decreases n - i,
        {
            if !self.updates[i].is_updated {
                assert(!self.entries()[i as int].applied);
                return true;
            }
            i += 1;
        }
        false
    }

    /// The names of the modules with unapplied changes, in entry order.
    pub fn get_pending_updates(&self) -> (r: Vec<String>)
        ensures
            seq_views(r@) == pending_of(self.entries()),
    {
        let ghost s0 = self.entries();
        let n = self.updates.len();
        let mut out: Vec<String> = Vec::new();
        let mut i: usize = 0;
        while i < n
            invariant
                n == self.updates.len(),
                s0 == self.entries(),
                i <= n,
                seq_views(out@) == pending_of(s0.take(i as int)),
            decreases n - i,
        {
            proof {
                assert(s0.take(i + 1).drop_last() =~= s0.take(i as int));
                assert(s0.take(i + 1).last() == s0[i as int]);
            }
            if !self.updates[i].is_updated {
                let name = self.updates[i].module.clone();
                out.push(name);
                proof {
                    assert(seq_views(out@) =~= pending_of(s0.take(i + 1)));
                }
            }
            i += 1;
        }
        proof {
            assert(s0.take(n as int) =~= s0);
        }
        out
    }

    /// Record a completed rebuild at `now`: remembers the rebuild time and
    /// marks every tracked entry as incorporated.
    pub fn record_rebuild(&mut self, now: u64)
        requires
            old(self).wf(),
        ensures
            final(self).last_rebuild == Some(now),
            final(self).entries() == mark_all(old(self).entries()),
            final(self).mapper == old(self).mapper,
            final(self).project_root == old(self).project_root,
            final(self).wf(),
            !has_pending(final(self).entries()),
    {
        self.last_rebuild = Some(now);
        self.mark_modules_updated();
    }

    /// True iff a rebuild is due at `now` with the given debounce window:
    /// false while `now` lies within `debounce_ms` of the last completed
    /// rebuild, and otherwise exactly when a change is pending.
    pub fn should_rebuild(&self, debounce_ms: u64, now: u64) -> (r: bool)
        ensures
            r == self.spec_should_rebuild(debounce_ms, now),
    {
        match self.last_rebuild {
            Some(t) => {
                if (now as u128) < (t as u128) + (debounce_ms as u128) {
                    return false;
                }
                self.needs_update()
            },
            None => self.needs_update(),
        }
    }

    /// Forget every tracked module. The last rebuild time is kept.
    pub fn clear(&mut self)
        ensures
            final(self).entries() =~= Seq::<ModuleChange>::empty(),
            final(self).last_rebuild == old(self).last_rebuild,
            final(self).mapper == old(self).mapper,
            final(self).project_root == old(self).project_root,
            final(self).wf(),
    {
        self.updates.clear();
    }

    /// The names of the entries whose change is older than `max_age` at
    /// `now`, regardless of whether it was applied.
    pub fn get_stale_updates(&self, max_age: u64, now: u64) -> (r: Vec<String>)
        ensures
            seq_views(r@) == stale_of(self.entries(), max_age, now),
    {
        let ghost s0 = self.entries();
        let n = self.updates.len();
        let mut out: Vec<String> = Vec::new();
        let mut i: usize = 0;
        while i < n
            invariant
                n == self.updates.len(),
                s0 == self.entries(),
                i <= n,
                seq_views(out@) == stale_of(s0.take(i as int), max_age, now),
            decreases n - i,
        {
            proof {
                assert(s0.take(i + 1).drop_last() =~= s0.take(i as int));
                assert(s0.take(i + 1).last() == s0[i as int]);
            }
            let t = self.updates[i].timestamp;
            if now > t && now - t > max_age {
                let name = self.updates[i].module.clone();
                out.push(name);
                proof {
                    assert(seq_views(out@) =~= stale_of(s0.take(i + 1), max_age, now));
                }
            }
            i += 1;
        }
        proof {
            assert(s0.take(n as int) =~= s0);
        }
        out
    }

    /// Remove exactly the entries whose change is older than `max_age` at
    /// `now`; every other entry is kept unchanged, in order.
    pub fn clear_stale_updates(&mut self, max_age: u64, now: u64)
        requires
            old(self).wf(),
        ensures
            final(self).entries() == retain_fresh(old(self).entries(), max_age, now),
            final(self).last_rebuild == old(self).last_rebuild,
            final(self).mapper == old(self).mapper,
            final(self).project_root == old(self).project_root,
            final(self).wf(),
    {
        let ghost s0 = self.entries();
        let n = self.updates.len();
        let mut kept: Vec<HmrUpdate> = Vec::new();
        let mut i: usize = 0;
        while i < n
            invariant
                n == self.updates.len(),
                s0 == self.entries(),
                i <= n,
                model(kept@) == retain_fresh(s0.take(i as int), max_age, now),
            decreases n - i,
        {
            proof {
                assert(s0.take(i + 1).drop_last() =~= s0.take(i as int));
                assert(s0.take(i + 1).last() == s0[i as int]);
            }
            let t = self.updates[i].timestamp;
            if !(now > t && now - t > max_age) {
                let m = self.updates[i].module.clone();
                let a = self.updates[i].is_updated;
                kept.push(HmrUpdate { module: m, timestamp: t, is_updated: a });
                proof {
                    assert(model(kept@) =~= retain_fresh(s0.take(i + 1), max_age, now));
                }
            }
            i += 1;
        }
        proof {
            assert(s0.take(n as int) =~= s0);
        }
        self.updates = kept;
        proof {
            lemma_retain_fresh_unique(s0, max_age, now);
        }
    }

    /// Age at `now` of the oldest tracked change, or `None` when nothing is
    /// tracked. A change detected after `now` counts as age zero.
    pub fn get_oldest_update_age(&self, now: u64) -> (r: Option<u64>)
        ensures
            match r {
                Some(age) => self.entries().len() > 0 && age as int == if now as int
                    >= min_timestamp(self.entries()) {
                    now as int - min_timestamp(self.entries())
                } else {
                    0
                },
                None => self.entries().len() == 0,
            },
    {
        let ghost s0 = self.entries();
        let n = self.updates.len();
        if n == 0 {
            return None;
        }
        let mut tmin = self.updates[0].timestamp;
        let mut i: usize = 1;
        while i < n
            invariant
                n == self.updates.len(),
                s0 == self.entries(),
                1 <= i <= n,
                tmin as int == min_timestamp(s0.take(i as int)),
            decreases n - i,
        {
            proof {
                assert(s0.take(i + 1).drop_last() =~= s0.take(i as int));
                assert(s0.take(i + 1).last() == s0[i as int]);
            }
            let t = self.updates[i].timestamp;
            if t < tmin {
                tmin = t;
            }
            i += 1;
        }
        proof {
            assert(s0.take(n as int) =~= s0);
        }
        if now >= tmin {
            Some(now - tmin)
        } else {
            Some(0)
        }
    }
}

impl Default for HmrContext {
    /// Fresh context rooted at the current directory.
    fn default() -> (r: Self)
        ensures
            r.entries() =~= Seq::<ModuleChange>::empty(),
            r.last_rebuild is None,
            r.wf(),
    {
        HmrContext::new(text::to_string("."))
    }
}

/// When an entry for module `m` is found from position `k` on, the found
/// index is in range and holds `m`.
proof fn lemma_find_module_some(s: Seq<ModuleChange>, m: Seq<char>, k: int)
    requires
        find_module(s, m, k) is Some,
    ensures
        k <= find_module(s, m, k)->Some_0 < s.len(),
        s[find_module(s, m, k)->Some_0].module == m,
    decreases s.len() - k,
{
    if !(k < 0 || k >= s.len()) && s[k].module != m {
        lemma_find_module_some(s, m, k + 1);
    }
}

/// When no entry from position `k` on holds module `m`, no position from `k`
/// on holds it.
proof fn lemma_find_module_none_from(s: Seq<ModuleChange>, m: Seq<char>, k: int, i: int)
    requires
        find_module(s, m, k) is None,
        0 <= k <= i < s.len(),
    ensures
        s[i].module != m,
    decreases i - k,
{
    if k < i {
        lemma_find_module_none_from(s, m, k + 1, i);
    }
}

/// Every entry kept by `retain_fresh` is an entry of `s`.
proof fn lemma_retain_fresh_sub(s: Seq<ModuleChange>, max_age: u64, now: u64, i: int)
    requires
        0 <= i < retain_fresh(s, max_age, now).len(),
    ensures
        exists|j: int| 0 <= j < s.len() && s[j] == retain_fresh(s, max_age, now)[i],
    decreases s.len(),
{
    let r = retain_fresh(s, max_age, now);
    if s.len() > 0 {
        let rp = retain_fresh(s.drop_last(), max_age, now);
        if !is_stale(s.last(), max_age, now) && i == r.len() - 1 {
            assert(s[s.len() - 1] == r[i]);
        } else {
            lemma_retain_fresh_sub(s.drop_last(), max_age, now, i);
            let j = choose|j: int| 0 <= j < s.drop_last().len() && s.drop_last()[j] == rp[i];
            assert(s[j] == r[i]);
        }
    }
}

/// Eviction keeps module names pairwise distinct.
proof fn lemma_retain_fresh_unique(s: Seq<ModuleChange>, max_age: u64, now: u64)
    requires
        modules_unique(s),
    ensures
        modules_unique(retain_fresh(s, max_age, now)),
    decreases s.len(),
{
    let r = retain_fresh(s, max_age, now);
    if s.len() > 0 {
        lemma_retain_fresh_unique(s.drop_last(), max_age, now);
        let rp = retain_fresh(s.drop_last(), max_age, now);
        if !is_stale(s.last(), max_age, now) {
            assert forall|a: int, b: int| 0 <= a < b < r.len() implies r[a].module
                != r[b].module by {
                if b == r.len() - 1 {
                    lemma_retain_fresh_sub(s.drop_last(), max_age, now, a);
                    let j = choose|j: int|
                        0 <= j < s.drop_last().len() && s.drop_last()[j] == rp[a];
                    assert(s[j].module != s.last().module);
                } else {
                    assert(rp[a].module != rp[b].module);
                }
            }
        }
    }
}

/// Evicting stale entries twice with the same arguments removes nothing the
/// second time: eviction is idempotent.
pub proof fn lemma_evict_stale_idempotent(s: Seq<ModuleChange>, max_age: u64, now: u64)
    ensures
        retain_fresh(retain_fresh(s, max_age, now), max_age, now) == retain_fresh(
            s,
            max_age,
            now,
        ),
    decreases s.len(),
{
    if s.len() > 0 {
        lemma_evict_stale_idempotent(s.drop_last(), max_age, now);
        let rp = retain_fresh(s.drop_last(), max_age, now);
        if !is_stale(s.last(), max_age, now) {
            assert(retain_fresh(s, max_age, now) == rp.push(s.last()));
            assert(rp.push(s.last()).drop_last() =~= rp);
            assert(retain_fresh(rp.push(s.last()), max_age, now) =~= retain_fresh(
                rp,
                max_age,
                now,
            ).push(s.last()));
        }
    }
}

} // verus!
