use orbiton::coordinator::Coordinator;
use orbiton::dev_maintenance::DevMaintenance;
use orbiton::hmr::HmrContext;
use orbiton::path_map::PathMapper;

#[test]
fn map_recognizes_sources_under_src() {
    let mapper = PathMapper::new_default();
    assert_eq!(
        mapper.map("/project/src/components/counter.orbit", "/project"),
        Some("components/counter".to_string())
    );
    assert_eq!(mapper.map("/project/src/lib.rs", "/project"), Some("lib".to_string()));
    assert_eq!(
        mapper.map("C:\\project\\src\\app.rs", "C:\\project"),
        Some("app".to_string())
    );
}

#[test]
fn map_rejects_other_paths() {
    let mapper = PathMapper::new_default();
    assert_eq!(mapper.map("/project/assets/logo.png", "/project"), None);
    assert_eq!(mapper.map("/project/lib/util.rs", "/project"), None);
    assert_eq!(mapper.map("/elsewhere/src/lib.rs", "/project"), None);
    assert_eq!(mapper.map("/project/src/notes.txt", "/project"), None);
}

#[test]
fn record_change_and_mark_updated() {
    let mut ctx = HmrContext::new("/p".to_string());
    ctx.record_change("widgets".to_string(), 5);
    assert!(ctx.needs_update());
    ctx.mark_modules_updated();
    assert!(!ctx.needs_update());
}

#[test]
fn record_file_change_tracks_modules() {
    let mut ctx = HmrContext::new("/p".to_string());
    let module = ctx.record_file_change("/p/src/test_module.rs", 10);
    assert_eq!(module, Some("test_module".to_string()));
    assert!(ctx.needs_update());
    let pending = ctx.get_pending_updates();
    assert_eq!(pending, vec!["test_module".to_string()]);
    assert_eq!(ctx.record_file_change("/p/README.md", 11), None);
    assert_eq!(ctx.get_pending_updates().len(), 1);
    ctx.clear();
    assert!(!ctx.needs_update());
}

#[test]
fn debounce_scenario() {
    let mut ctx = HmrContext::new("/p".to_string());
    ctx.record_file_change("/p/src/a.rs", 0);
    // Pending and no prior rebuild: a rebuild is due at once.
    assert!(ctx.should_rebuild(500, 0));
    ctx.record_rebuild(0);
    assert!(!ctx.should_rebuild(500, 0));
    // A new change at t=200 stays gated until the window reopens.
    ctx.record_file_change("/p/src/a.rs", 200);
    assert!(!ctx.should_rebuild(500, 200));
    assert!(ctx.should_rebuild(500, 600));
}

#[test]
fn evict_stale_removes_exactly_the_old_entries() {
    let mut ctx = HmrContext::new("/p".to_string());
    ctx.record_change("old".to_string(), 1000);
    ctx.record_change("fresh".to_string(), 1600);
    // At t=2000 with max_age 500 only `old` (age 1000) is stale.
    assert_eq!(ctx.get_stale_updates(500, 2000), vec!["old".to_string()]);
    ctx.clear_stale_updates(500, 2000);
    assert_eq!(ctx.get_pending_updates(), vec!["fresh".to_string()]);
    assert_eq!(ctx.get_stale_updates(500, 2000), Vec::<String>::new());
    // Evicting again has no additional effect.
    ctx.clear_stale_updates(500, 2000);
    assert_eq!(ctx.get_pending_updates(), vec!["fresh".to_string()]);
}

#[test]
fn oldest_update_age() {
    let mut ctx = HmrContext::new("/p".to_string());
    assert_eq!(ctx.get_oldest_update_age(50), None);
    ctx.record_change("a".to_string(), 10);
    ctx.record_change("b".to_string(), 30);
    assert_eq!(ctx.get_oldest_update_age(50), Some(40));
}

#[test]
fn re_detected_change_resets_entry() {
    let mut ctx = HmrContext::new("/p".to_string());
    ctx.record_change("a".to_string(), 10);
    ctx.mark_modules_updated();
    assert!(!ctx.needs_update());
    ctx.record_change("a".to_string(), 20);
    assert!(ctx.needs_update());
    assert_eq!(ctx.get_pending_updates(), vec!["a".to_string()]);
    assert_eq!(ctx.get_oldest_update_age(25), Some(5));
}

#[test]
fn dev_maintenance_status_and_stats() {
    let mut dm = DevMaintenance::new("/p".to_string());
    dm.hmr_context.record_file_change("/p/src/test.rs", 100);
    let status = dm.get_status(200);
    assert!(status.needs_update);
    assert_eq!(status.pending_modules.len(), 1);
    assert_eq!(status.oldest_update_age_ms, Some(100));
    let stats = dm.get_hmr_stats(200);
    assert_eq!(stats.total_pending, 1);
    assert!(stats.needs_rebuild);
    assert_eq!(stats.stale_1min, 0);
    dm.reset_hmr_state();
    assert!(!dm.get_status(200).needs_update);
    // Cleanup with an age bound below the entry age removes it.
    dm.hmr_context.record_file_change("/p/src/test.rs", 100);
    assert_eq!(dm.cleanup_stale_updates(1000, 200), 0);
    assert_eq!(dm.cleanup_stale_updates(50, 200), 1);
    assert!(!dm.hmr_context.needs_update());
}

#[test]
fn coordinator_rebuild_cycle() {
    let mut c = Coordinator::new("/p".to_string(), 500);
    let (msgs, fire) = c.on_watch_event(&vec!["/p/src/a.rs".to_string()], &"modify".to_string(), 0);
    assert!(fire);
    assert_eq!(msgs.len(), 2);
    assert_eq!(
        msgs[0].encode(),
        "{\"type\":\"fileChange\",\"paths\":[\"/p/src/a.rs\"],\"kind\":\"modify\"}"
    );
    assert_eq!(msgs[1].encode(), "{\"type\":\"rebuild\",\"status\":\"started\"}");
    // Notifications during the rebuild only accumulate.
    let (msgs2, fire2) =
        c.on_watch_event(&vec!["/p/src/b.rs".to_string()], &"modify".to_string(), 10);
    assert!(!fire2);
    assert_eq!(msgs2.len(), 1);
    let done = c.on_rebuild_result(true, 20);
    assert_eq!(done.len(), 2);
    assert_eq!(done[0].encode(), "{\"type\":\"rebuild\",\"status\":\"completed\"}");
    assert_eq!(done[1].encode(), "{\"type\":\"hmr\",\"modules\":[\"a\",\"b\"]}");
    assert!(!c.hmr.needs_update());
}

#[test]
fn coordinator_failed_rebuild_reloads() {
    let mut c = Coordinator::new("/p".to_string(), 500);
    let (_msgs, fire) =
        c.on_watch_event(&vec!["/p/src/a.rs".to_string()], &"create".to_string(), 0);
    assert!(fire);
    let done = c.on_rebuild_result(false, 20);
    assert_eq!(done.len(), 2);
    assert_eq!(done[0].encode(), "{\"type\":\"rebuild\",\"status\":\"failed\"}");
    assert_eq!(done[1].encode(), "{\"type\":\"reload\"}");
    // The pending set is kept for retry.
    assert!(c.hmr.needs_update());
}
