//! Debounce/rebuild coordinator: the decision core of the watch-to-broadcast
//! pipeline.
//!
//! The coordinator consumes normalized watch notifications, updates the HMR
//! state, and decides when a rebuild fires. The rebuild itself and all I/O
//! stay with the caller, which performs the returned actions and hands the
//! build outcome back through [`Coordinator::on_rebuild_result`]. The
//! debounce gate is evaluated against the last completed rebuild, so new
//! notifications during a rebuild only accumulate and never re-trigger it
//! mid-flight.

use vstd::prelude::*;
use vstd::string::*;
use crate::hmr::{HmrContext, ModuleChange, has_pending, mark_all, pending_of, upsert};
use crate::messages::{BroadcastMessage, RebuildStatus};
use crate::path_map::{seq_views, spec_map};

verus! {

/// Observable state of a watch session.
pub enum CoordinatorPhase {
    /// No pending change and no rebuild in flight.
    Idle,
    /// At least one unapplied change, no rebuild in flight.
    Pending,
    /// A rebuild invocation is outstanding.
    Rebuilding,
}

/// Consumes watch notifications, owns the HMR state, and decides when a
/// rebuild fires.
pub struct Coordinator {
    /// The change-tracking state.
    pub hmr: HmrContext,
    /// Debounce window relative to the last completed rebuild
    /// (milliseconds).
    pub debounce_ms: u64,
    /// True while a rebuild invocation is outstanding.
    pub rebuilding: bool,
}

/// The entries after recording every path of `paths` (front first) at `now`:
/// a path that maps to a module upserts it, any other path leaves the
/// entries untouched.
pub open spec fn upsert_all(
    s: Seq<ModuleChange>,
    paths: Seq<Seq<char>>,
    root: Seq<char>,
    prefix: Seq<char>,
    exts: Seq<Seq<char>>,
    now: u64,
) -> Seq<ModuleChange>
    decreases paths.len(),
{
    if paths.len() == 0 {
        s
    } else {
        let s1 = match spec_map(paths[0], root, prefix, exts) {
            Some(m) => upsert(s, m, now),
            None => s,
        };
        upsert_all(s1, paths.skip(1), root, prefix, exts, now)
    }
}

fn clone_strings(v: &Vec<String>) -> (r: Vec<String>)
    ensures
        seq_views(r@) == seq_views(v@),
{
    let n = v.len();
    let mut out: Vec<String> = Vec::new();
    let mut i: usize = 0;
    while i < n
        invariant
            n == v@.len(),
            i <= n,
            seq_views(out@) == seq_views(v@).take(i as int),
        decreases n - i,
    {
        let ghost o0 = out@;
        let s = v[i].clone();
        out.push(s);
        proof {
            assert(out@.last()@ == v@[i as int]@);
            assert(seq_views(out@) =~= seq_views(o0).push(v@[i as int]@));
            assert(seq_views(v@).take(i + 1) =~= seq_views(v@).take(i as int).push(
                v@[i as int]@,
            ));
        }
        i += 1;
    }
    proof {
        assert(seq_views(v@).take(n as int) =~= seq_views(v@));
    }
    out
}

impl Coordinator {
    /// The coordinator is well formed when its HMR state is.
    pub open spec fn wf(self) -> bool {
        self.hmr.wf()
    }

    /// The phase of the session: rebuilding while an invocation is
    /// outstanding, otherwise pending exactly when a change is unapplied.
    pub open spec fn phase(self) -> CoordinatorPhase {
        if self.rebuilding {
            CoordinatorPhase::Rebuilding
        } else if has_pending(self.hmr.entries()) {
            CoordinatorPhase::Pending
        } else {
            CoordinatorPhase::Idle
        }
    }

    /// Fresh coordinator for the project at `project_root`, idle, with the
    /// given debounce window.
    pub fn new(project_root: String, debounce_ms: u64) -> (r: Self)
        ensures
            r.wf(),
            r.hmr.entries() =~= Seq::<ModuleChange>::empty(),
            r.hmr.last_rebuild is None,
            r.hmr.project_root == project_root,
            r.debounce_ms == debounce_ms,
            r.rebuilding == false,
            r.phase() is Idle,
    {
        Coordinator { hmr: HmrContext::new(project_root), debounce_ms, rebuilding: false }
    }

    /// Process one watch notification at `now`.
    ///
    /// Every notification yields a raw `fileChange` broadcast, whatever the
    /// paths map to. Each path that maps to a module is recorded as changed.
    /// When no rebuild is in flight and the debounce gate is open with a
    /// change pending, the session moves to rebuilding, a `rebuild: started`
    /// broadcast is added, and the second component is true: the caller must
    /// then invoke the build and report through `on_rebuild_result`.
    pub fn on_watch_event(&mut self, paths: &Vec<String>, kind: &String, now: u64) -> (r: (
        Vec<BroadcastMessage>,
        bool,
    ))
        requires
            old(self).wf(),
        ensures
            final(self).wf(),
            final(self).debounce_ms == old(self).debounce_ms,
            final(self).hmr.mapper == old(self).hmr.mapper,
            final(self).hmr.project_root == old(self).hmr.project_root,
            final(self).hmr.last_rebuild == old(self).hmr.last_rebuild,
            final(self).hmr.entries() == upsert_all(
                old(self).hmr.entries(),
                seq_views(paths@),
                old(self).hmr.project_root@,
                old(self).hmr.mapper.src_prefix@,
                seq_views(old(self).hmr.mapper.extensions@),
                now,
            ),
            r.1 == (!old(self).rebuilding && final(self).hmr.spec_should_rebuild(
                old(self).debounce_ms,
                now,
            )),
            final(self).rebuilding == (old(self).rebuilding || r.1),
            r.0@.len() == if r.1 {
                2int
            } else {
                1int
            },
            r.0@[0] matches BroadcastMessage::FileChange { paths: p, kind: k } && seq_views(p@)
                == seq_views(paths@) && k@ == kind@,
            r.1 ==> r.0@[1] matches BroadcastMessage::Rebuild {
                status: RebuildStatus::Started,
            },
    {
        let mut msgs: Vec<BroadcastMessage> = Vec::new();
        msgs.push(
            BroadcastMessage::FileChange { paths: clone_strings(paths), kind: kind.clone() },
        );
        let ghost s0 = self.hmr.entries();
        let ghost ps = seq_views(paths@);
        let ghost root = self.hmr.project_root@;
        let ghost prefix = self.hmr.mapper.src_prefix@;
        let ghost exts = seq_views(self.hmr.mapper.extensions@);
        let n = paths.len();
        proof {
            assert(ps.skip(0) =~= ps);
        }
        let mut i: usize = 0;
        while i < n
            invariant
                n == paths@.len(),
                i <= n,
                ps == seq_views(paths@),
                self.hmr.wf(),
                self.hmr.mapper == old(self).hmr.mapper,
                self.hmr.project_root == old(self).hmr.project_root,
                self.hmr.last_rebuild == old(self).hmr.last_rebuild,
                self.debounce_ms == old(self).debounce_ms,
                self.rebuilding == old(self).rebuilding,
                root == self.hmr.project_root@,
                prefix == self.hmr.mapper.src_prefix@,
                exts == seq_views(self.hmr.mapper.extensions@),
                upsert_all(s0, ps, root, prefix, exts, now) == upsert_all(
                    self.hmr.entries(),
                    ps.skip(i as int),
                    root,
                    prefix,
                    exts,
                    now,
                ),
            decreases n - i,
        {
            proof {
                assert(ps.skip(i as int).len() > 0);
                assert(ps.skip(i as int)[0] == ps[i as int]);
                assert(ps.skip(i as int).skip(1) =~= ps.skip(i + 1));
                assert(ps[i as int] == paths@[i as int]@);
            }
            let _ = self.hmr.record_file_change(paths[i].as_str(), now);
            i += 1;
        }
        proof {
            assert(ps.skip(n as int) =~= Seq::<Seq<char>>::empty());
        }
        let fire = if !self.rebuilding {
            self.hmr.should_rebuild(self.debounce_ms, now)
        } else {
            false
        };
        if fire {
            self.rebuilding = true;
            msgs.push(BroadcastMessage::Rebuild { status: RebuildStatus::Started });
        }
        (msgs, fire)
    }

    /// Report the outcome of the rebuild started by `on_watch_event`.
    ///
    /// On success the rebuild time is recorded at `now`, every tracked
    /// change counts as applied, and the broadcasts are `rebuild: completed`
    /// followed by a scoped `hmr` update naming the modules that were
    /// pending just before the reset — omitted when none were. On failure
    /// the state is left for retry and the broadcasts are `rebuild: failed`
    /// followed by `reload`, so clients fall back to a full reload.
    pub fn on_rebuild_result(&mut self, success: bool, now: u64) -> (r: Vec<BroadcastMessage>)
        requires
            old(self).wf(),
            old(self).rebuilding,
        ensures
            final(self).wf(),
            final(self).debounce_ms == old(self).debounce_ms,
            final(self).hmr.mapper == old(self).hmr.mapper,
            final(self).hmr.project_root == old(self).hmr.project_root,
            final(self).rebuilding == false,
            success ==> {
                &&& final(self).hmr.last_rebuild == Some(now)
                &&& final(self).hmr.entries() == mark_all(old(self).hmr.entries())
                &&& final(self).phase() is Idle
                &&& r@[0] matches BroadcastMessage::Rebuild {
                    status: RebuildStatus::Completed,
                }
                &&& if pending_of(old(self).hmr.entries()).len() > 0 {
                    r@.len() == 2 && (r@[1] matches BroadcastMessage::Hmr { modules }
                        && seq_views(modules@) == pending_of(old(self).hmr.entries()))
                } else {
                    r@.len() == 1
                }
            },
            !success ==> {
                &&& final(self).hmr == old(self).hmr
                &&& r@.len() == 2
                &&& r@[0] matches BroadcastMessage::Rebuild { status: RebuildStatus::Failed }
                &&& r@[1] is Reload
            },
    {
        let mut msgs: Vec<BroadcastMessage> = Vec::new();
        self.rebuilding = false;
        if success {
            let pending = self.hmr.get_pending_updates();
            self.hmr.record_rebuild(now);
            msgs.push(BroadcastMessage::Rebuild { status: RebuildStatus::Completed });
            if pending.len() > 0 {
                msgs.push(BroadcastMessage::Hmr { modules: pending });
            }
        } else {
            msgs.push(BroadcastMessage::Rebuild { status: RebuildStatus::Failed });
            msgs.push(BroadcastMessage::Reload);
        }
        msgs
    }
}

} // verus!
