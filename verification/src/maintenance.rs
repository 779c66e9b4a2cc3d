//! Maintenance operations over the HMR state and the configuration:
//! cleanup of stale entries, full resets, configuration overrides, and an
//! automated maintenance pass driven by the configured debounce time.

use vstd::prelude::*;
use vstd::string::*;
use crate::config::{OrbitonConfig, merged_from};
use crate::hmr::{HmrContext, ModuleChange, min_timestamp, retain_fresh, stale_of};

verus! {

/// Maintenance operations for the development environment.
pub struct MaintenanceManager {
    /// The tracked HMR state.
    pub hmr_context: HmrContext,
    /// The active configuration.
    pub config: OrbitonConfig,
}

/// The stale-entry threshold that automated maintenance derives from the
/// configured debounce time: three hundred times the debounce, saturating.
pub open spec fn auto_cleanup_threshold(debounce_ms: u64) -> u64 {
    if debounce_ms as int * 300 > u64::MAX as int {
        u64::MAX
    } else {
        (debounce_ms * 300) as u64
    }
}

impl MaintenanceManager {
    /// Manager over a fresh HMR context for the project at `project_root`,
    /// with the given (already loaded) configuration.
    pub fn new(config: OrbitonConfig, project_root: String) -> (r: Self)
        ensures
            r.hmr_context.entries() =~= Seq::<ModuleChange>::empty(),
            r.hmr_context.last_rebuild is None,
            r.hmr_context.project_root == project_root,
            r.hmr_context.wf(),
            r.config == config,
    {
        MaintenanceManager { hmr_context: HmrContext::new(project_root), config }
    }

    /// Remove the tracked entries older than `max_age_ms` at `now` and
    /// return how many were removed.
    pub fn cleanup_stale_updates(&mut self, max_age_ms: u64, now: u64) -> (r: usize)
        requires
            old(self).hmr_context.wf(),
        ensures
            final(self).hmr_context.wf(),
            r == stale_of(old(self).hmr_context.entries(), max_age_ms, now).len(),
            final(self).hmr_context.entries() == retain_fresh(
                old(self).hmr_context.entries(),
                max_age_ms,
                now,
            ),
            final(self).hmr_context.last_rebuild == old(self).hmr_context.last_rebuild,
            final(self).hmr_context.project_root == old(self).hmr_context.project_root,
            final(self).hmr_context.mapper == old(self).hmr_context.mapper,
            final(self).config == old(self).config,
    {
        let stale = self.hmr_context.get_stale_updates(max_age_ms, now);
        let count = stale.len();
        self.hmr_context.clear_stale_updates(max_age_ms, now);
        proof {
            assert(count == crate::path_map::seq_views(stale@).len());
        }
        count
    }

    /// Forget every tracked change.
    pub fn clear_all_updates(&mut self)
        ensures
            final(self).hmr_context.entries() =~= Seq::<ModuleChange>::empty(),
            final(self).hmr_context.last_rebuild == old(self).hmr_context.last_rebuild,
            final(self).hmr_context.wf(),
            final(self).config == old(self).config,
    {
        self.hmr_context.clear();
    }

    /// Age at `now` of the oldest tracked change, or `None` when nothing is
    /// tracked.
    pub fn get_update_info(&self, now: u64) -> (r: Option<u64>)
        ensures
            match r {
                Some(age) => self.hmr_context.entries().len() > 0 && age as int == if now as int
                    >= min_timestamp(self.hmr_context.entries()) {
                    now as int - min_timestamp(self.hmr_context.entries())
                } else {
                    0
                },
                None => self.hmr_context.entries().len() == 0,
            },
    {
        self.hmr_context.get_oldest_update_age(now)
    }

    /// Merge `overrides` into the active configuration; `overrides` takes
    /// precedence for the fields it sets away from their defaults.
    pub fn apply_config_overrides(&mut self, overrides: &OrbitonConfig)
        ensures
            merged_from(old(self).config, *overrides, final(self).config),
            final(self).hmr_context == old(self).hmr_context,
    {
        self.config.merge_with(overrides);
    }

    /// One automated maintenance pass at `now`: evict entries older than
    /// three hundred times the configured debounce and return how many were
    /// removed together with how many tracked entries remain.
    pub fn perform_automated_maintenance(&mut self, now: u64) -> (r: (usize, usize))
        requires
            old(self).hmr_context.wf(),
        ensures
            final(self).hmr_context.wf(),
            final(self).config == old(self).config,
            r.0 == stale_of(
                old(self).hmr_context.entries(),
                auto_cleanup_threshold(old(self).config.hmr.debounce_ms),
                now,
            ).len(),
            final(self).hmr_context.entries() == retain_fresh(
                old(self).hmr_context.entries(),
                auto_cleanup_threshold(old(self).config.hmr.debounce_ms),
                now,
            ),
            r.1 == final(self).hmr_context.entries().len(),
    {
        let debounce = self.config.hmr.debounce_ms;
        let wide: u128 = (debounce as u128) * 300;
        let threshold: u64 = if wide > u64::MAX as u128 {
            u64::MAX
        } else {
            (debounce) * 300
        };
        assert(threshold == auto_cleanup_threshold(debounce));
        let cleaned = self.cleanup_stale_updates(threshold, now);
        let remaining = self.hmr_context.updates.len();
        (cleaned, remaining)
    }

    /// The active configuration.
    pub fn config(&self) -> (r: &OrbitonConfig)
        ensures
            r == &self.config,
    {
        &self.config
    }

    /// The tracked HMR state.
    pub fn hmr_context(&self) -> (r: &HmrContext)
        ensures
            r == &self.hmr_context,
    {
        &self.hmr_context
    }
}

/// One automated maintenance pass over `manager` at `now`: evicts entries
/// older than three hundred times the configured debounce; returns how many
/// were removed and how many remain.
pub fn perform_project_maintenance(manager: &mut MaintenanceManager, now: u64) -> (r: (
    usize,
    usize,
))
    requires
        old(manager).hmr_context.wf(),
    ensures
        final(manager).hmr_context.wf(),
        final(manager).config == old(manager).config,
        r.0 == stale_of(
            old(manager).hmr_context.entries(),
            auto_cleanup_threshold(old(manager).config.hmr.debounce_ms),
            now,
        ).len(),
        final(manager).hmr_context.entries() == retain_fresh(
            old(manager).hmr_context.entries(),
            auto_cleanup_threshold(old(manager).config.hmr.debounce_ms),
            now,
        ),
        r.1 == final(manager).hmr_context.entries().len(),
{
    manager.perform_automated_maintenance(now)
}

} // verus!
