use unica_coder::cache::{
    default_state, find_entry, is_lazy_cache, set_entry, sorted, str_lt, CacheEntry,
    CacheImpact, CacheStatus, WorkspaceState, WorkspaceStateRepository,
};
use unica_coder::events::{DomainEvent, DomainEventKind};
use unica_coder::tools::CacheAccess;
use unica_coder::workspace::{Platform, WorkspaceContext};

fn context(epoch: u64) -> WorkspaceContext {
    WorkspaceContext {
        cwd: "/w".to_string(),
        workspace_root: "/w".to_string(),
        cache_root: "/w/.cache".to_string(),
        workspace_epoch: epoch,
        platform: Platform::Unix,
    }
}

fn strings(v: &[&str]) -> Vec<String> {
    v.iter().map(|s| s.to_string()).collect()
}

fn impact(invalidated: &[&str], refresh: &[&str]) -> CacheImpact {
    CacheImpact { invalidated: strings(invalidated), eager_refresh: strings(refresh) }
}

fn none() -> CacheAccess {
    CacheAccess { reads: &[], writes: &[] }
}

#[test]
fn names_are_ordered_like_strings() {
    assert!(str_lt("a", "b"));
    assert!(str_lt("ab", "abc"));
    assert!(!str_lt("abc", "ab"));
    assert!(!str_lt("x", "x"));
    assert!(str_lt("Z", "a"));
    assert_eq!(sorted(&strings(&["b", "a", "b", "c"])), strings(&["a", "b", "c"]));
}

#[test]
fn the_table_stays_sorted_and_keeps_one_entry_per_cache() {
    let mut t = Vec::new();
    set_entry(&mut t, "metadata_graph", CacheEntry { status: CacheStatus::Fresh, epoch: 1 });
    set_entry(&mut t, "bsl_index", CacheEntry { status: CacheStatus::Stale, epoch: 1 });
    set_entry(&mut t, "metadata_graph", CacheEntry { status: CacheStatus::Stale, epoch: 2 });
    assert_eq!(t.len(), 2);
    assert_eq!(t[0].0, "bsl_index");
    assert_eq!(t[1].0, "metadata_graph");
    assert_eq!(find_entry(&t, "metadata_graph"), Some(CacheEntry { status: CacheStatus::Stale, epoch: 2 }));
    assert_eq!(find_entry(&t, "nope"), None);
    let s = WorkspaceState::from_entries("/w".to_string(), 3, vec![
        ("z".to_string(), CacheEntry { status: CacheStatus::Fresh, epoch: 1 }),
        ("a".to_string(), CacheEntry { status: CacheStatus::Fresh, epoch: 1 }),
        ("z".to_string(), CacheEntry { status: CacheStatus::Stale, epoch: 2 }),
    ]);
    assert_eq!(s.caches.len(), 2);
    assert_eq!(s.caches[1], ("z".to_string(), CacheEntry { status: CacheStatus::Stale, epoch: 2 }));
}

#[test]
fn bsl_index_read_reflects_real_index_status_instead_of_lazy_rebuild() {
    let ctx = context(1);
    let repo = WorkspaceStateRepository::new(&ctx);
    assert_eq!(repo.state_path, "/w/.cache/state.json");
    let events = vec![DomainEvent::new(DomainEventKind::ModuleChanged, "Module.bsl")];
    let first = repo.report(default_state(&ctx), &ctx, &events, &impact(&["bsl_index"], &[]), false, none(), false, "/w/.cache".to_string());
    assert!(first.save);
    assert!(first.report.stale.contains(&"bsl_index".to_string()));
    assert_eq!(first.report.mode, "applied");
    assert_eq!(first.report.events, vec!["ModuleChanged"]);

    let reads = CacheAccess { reads: &["bsl_index"], writes: &[] };
    let second = repo.report(first.state, &ctx, &Vec::new(), &impact(&[], &[]), false, reads, false, "/w/.cache".to_string());
    assert!(second.report.lazy_rebuilt.is_empty());
    assert!(second.report.stale.contains(&"bsl_index".to_string()));
    assert_eq!(second.report.mode, "read");
    assert!(!second.save);

    let third = repo.report(second.state, &ctx, &Vec::new(), &impact(&[], &[]), false, reads, true, "r".to_string());
    assert_eq!(third.report.fresh, vec!["bsl_index"]);
}

#[test]
fn dry_run_changes_nothing_and_reports_no_refresh() {
    let ctx = context(4);
    let repo = WorkspaceStateRepository::new(&ctx);
    let events = vec![DomainEvent::new(DomainEventKind::FormChanged, "unica.form.edit")];
    let plan = repo.report(default_state(&ctx), &ctx, &events, &impact(&["metadata_graph", "form_graph"], &["metadata_graph"]), true, none(), false, "r".to_string());
    assert_eq!(plan.report.mode, "dry-run");
    assert_eq!(plan.report.invalidated, strings(&["form_graph", "metadata_graph"]));
    assert!(plan.report.refreshed.is_empty());
    assert!(!plan.save);
    assert!(plan.metadata.is_empty());
    assert!(plan.state.caches.is_empty());
}

#[test]
fn applied_events_invalidate_and_refresh_eagerly() {
    let ctx = context(9);
    let repo = WorkspaceStateRepository::new(&ctx);
    let events = vec![DomainEvent::new(DomainEventKind::FormChanged, "unica.form.edit")];
    let plan = repo.report(default_state(&ctx), &ctx, &events, &impact(&["metadata_graph", "form_graph"], &["metadata_graph"]), false, none(), false, "r".to_string());
    assert!(plan.save);
    assert_eq!(plan.state.workspace_epoch, 9);
    assert_eq!(plan.report.refreshed, strings(&["metadata_graph"]));
    assert_eq!(plan.metadata, vec![("metadata_graph".to_string(), "eager".to_string())]);
    assert_eq!(plan.report.stale, strings(&["form_graph"]));
    assert_eq!(plan.report.fresh, strings(&["metadata_graph"]));
}

#[test]
fn reading_a_stale_lazy_cache_rebuilds_it_once() {
    let ctx = context(2);
    let repo = WorkspaceStateRepository::new(&ctx);
    let reads = CacheAccess { reads: &["bsl_diagnostics", "metadata_graph", "bsl_diagnostics"], writes: &[] };
    let plan = repo.report(default_state(&ctx), &ctx, &Vec::new(), &impact(&["x"], &["y"]), false, reads, false, "r".to_string());
    assert_eq!(plan.report.lazy_rebuilt, strings(&["bsl_diagnostics"]));
    assert_eq!(plan.metadata, vec![("bsl_diagnostics".to_string(), "lazy".to_string())]);
    assert!(plan.save);
    assert!(plan.report.invalidated.is_empty());
    assert!(plan.report.refreshed.is_empty());
    assert_eq!(plan.report.fresh, strings(&["bsl_diagnostics"]));
    assert!(is_lazy_cache("bsl_diagnostics"));
    assert!(!is_lazy_cache("bsl_index"));

    let again = repo.report(plan.state, &ctx, &Vec::new(), &impact(&[], &[]), false, reads, false, "r".to_string());
    assert!(again.report.lazy_rebuilt.is_empty());
    assert!(!again.save);
}
