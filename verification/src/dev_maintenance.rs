//! Maintenance and monitoring utilities for the development server: status
//! snapshots, HMR statistics, and cleanup of stale tracked changes.

use vstd::prelude::*;
use vstd::string::*;
use crate::hmr::{HmrContext, ModuleChange, has_pending, min_timestamp, pending_of, retain_fresh,
    stale_of};
use crate::path_map::seq_views;

verus! {

/// Maintenance utilities for the development server.
pub struct DevMaintenance {
    /// The tracked HMR state.
    pub hmr_context: HmrContext,
}

/// Snapshot of the development server's change-tracking state.
pub struct DevStatus {
    /// Names of the modules with unapplied changes.
    pub pending_modules: Vec<String>,
    /// Age in milliseconds of the oldest tracked change, if any.
    pub oldest_update_age_ms: Option<u64>,
    /// True iff some change is unapplied.
    pub needs_update: bool,
}

/// Detailed HMR statistics.
pub struct HmrStats {
    /// Number of modules with unapplied changes.
    pub total_pending: usize,
    /// Number of entries older than one minute.
    pub stale_1min: usize,
    /// Number of entries older than five minutes.
    pub stale_5min: usize,
    /// Age in milliseconds of the oldest tracked change, if any.
    pub oldest_age_ms: Option<u64>,
    /// True iff a rebuild is still owed.
    pub needs_rebuild: bool,
}

impl DevMaintenance {
    /// Maintenance handle over a fresh HMR context for the project at
    /// `project_root`.
    pub fn new(project_root: String) -> (r: Self)
        ensures
            r.hmr_context.entries() =~= Seq::<ModuleChange>::empty(),
            r.hmr_context.last_rebuild is None,
            r.hmr_context.project_root == project_root,
            r.hmr_context.wf(),
    {
        DevMaintenance { hmr_context: HmrContext::new(project_root) }
    }

    /// Remove the tracked entries older than `max_age_ms` at `now` and
    /// return how many were removed.
    pub fn cleanup_stale_updates(&mut self, max_age_ms: u64, now: u64) -> (r: usize)
        requires
            old(self).hmr_context.wf(),
        ensures
            final(self).hmr_context.wf(),
            r == stale_of(old(self).hmr_context.entries(), max_age_ms, now).len(),
            final(self).hmr_context.entries() == retain_fresh(
                old(self).hmr_context.entries(),
                max_age_ms,
                now,
            ),
            final(self).hmr_context.last_rebuild == old(self).hmr_context.last_rebuild,
            final(self).hmr_context.mapper == old(self).hmr_context.mapper,
            final(self).hmr_context.project_root == old(self).hmr_context.project_root,
    {
        let stale = self.hmr_context.get_stale_updates(max_age_ms, now);
        let count = stale.len();
        self.hmr_context.clear_stale_updates(max_age_ms, now);
        proof {
            assert(count == seq_views(stale@).len());
        }
        count
    }

    /// Snapshot of the pending modules, the oldest change age at `now`, and
    /// whether a rebuild is owed.
    pub fn get_status(&self, now: u64) -> (r: DevStatus)
        ensures
            seq_views(r.pending_modules@) == pending_of(self.hmr_context.entries()),
            r.needs_update == has_pending(self.hmr_context.entries()),
            match r.oldest_update_age_ms {
                Some(age) => self.hmr_context.entries().len() > 0 && age as int == if now as int
                    >= min_timestamp(self.hmr_context.entries()) {
                    now as int - min_timestamp(self.hmr_context.entries())
                } else {
                    0
                },
                None => self.hmr_context.entries().len() == 0,
            },
    {
        DevStatus {
            pending_modules: self.hmr_context.get_pending_updates(),
            oldest_update_age_ms: self.hmr_context.get_oldest_update_age(now),
            needs_update: self.hmr_context.needs_update(),
        }
    }

    /// Forget every tracked change.
    pub fn reset_hmr_state(&mut self)
        ensures
            final(self).hmr_context.entries() =~= Seq::<ModuleChange>::empty(),
            final(self).hmr_context.last_rebuild == old(self).hmr_context.last_rebuild,
            final(self).hmr_context.wf(),
    {
        self.hmr_context.clear();
    }

    /// Detailed statistics at `now`: pending count, stale counts at one and
    /// five minutes, oldest age, and whether a rebuild is owed.
    pub fn get_hmr_stats(&self, now: u64) -> (r: HmrStats)
        ensures
            r.total_pending == pending_of(self.hmr_context.entries()).len(),
            r.stale_1min == stale_of(self.hmr_context.entries(), 60000, now).len(),
            r.stale_5min == stale_of(self.hmr_context.entries(), 300000, now).len(),
            r.needs_rebuild == has_pending(self.hmr_context.entries()),
            match r.oldest_age_ms {
                Some(age) => self.hmr_context.entries().len() > 0 && age as int == if now as int
                    >= min_timestamp(self.hmr_context.entries()) {
                    now as int - min_timestamp(self.hmr_context.entries())
                } else {
                    0
                },
                None => self.hmr_context.entries().len() == 0,
            },
    {
        let pending = self.hmr_context.get_pending_updates();
        let stale_1 = self.hmr_context.get_stale_updates(60000, now);
        let stale_5 = self.hmr_context.get_stale_updates(300000, now);
        proof {
            assert(pending@.len() == seq_views(pending@).len());
            assert(stale_1@.len() == seq_views(stale_1@).len());
            assert(stale_5@.len() == seq_views(stale_5@).len());
        }
        HmrStats {
            total_pending: pending.len(),
            stale_1min: stale_1.len(),
            stale_5min: stale_5.len(),
            oldest_age_ms: self.hmr_context.get_oldest_update_age(now),
            needs_rebuild: self.hmr_context.needs_update(),
        }
    }
}

} // verus!
