use paccat_core::init::{
    check_databases, effective_dbext, effective_dbpath, init_error_text, plan_init,
    refresh_plan, resolve_cachedir, validity_error_text, InitOptions, RefreshAction,
};
use paccat_core::report::{
    download_report, event_report, log_report, DownloadEvent, DownloadOutcome, LifecycleEvent,
    LogSeverity,
};

fn opts() -> InitOptions {
    InitOptions {
        config: None,
        root: None,
        dbpath: None,
        cachedir: None,
        filedb: false,
        refresh: 0,
    }
}

// A test double standing for the session's refresh operation: it only
// counts how it was driven.
struct SyncDouble {
    calls: u32,
    forced: bool,
}

impl SyncDouble {
    fn drive(&mut self, intensity: u32) {
        match refresh_plan(intensity) {
            RefreshAction::Skip => {}
            RefreshAction::Sync { force } => {
                self.calls += 1;
                self.forced = force;
            }
        }
    }
}

#[test]
fn refresh_intensity_drives_synchronization() {
    let mut d = SyncDouble { calls: 0, forced: false };
    d.drive(0);
    assert_eq!(d.calls, 0);
    d.drive(1);
    assert_eq!(d.calls, 1);
    assert!(!d.forced);
    d.drive(2);
    assert_eq!(d.calls, 2);
    assert!(d.forced);
}

#[test]
fn dbpath_override_takes_precedence() {
    assert_eq!(effective_dbpath("/var/lib/pacman", &None), "/var/lib/pacman");
    assert_eq!(
        effective_dbpath("/var/lib/pacman", &Some("/custom/db".to_string())),
        "/custom/db"
    );
}

#[test]
fn files_index_switch_selects_suffix() {
    assert_eq!(effective_dbext(false), ".db");
    assert_eq!(effective_dbext(true), ".files");
}

#[test]
fn cache_directory_falls_back_to_tool_temp() {
    assert_eq!(resolve_cachedir(&None, "/tmp"), "/tmp/paccat");
    assert_eq!(
        resolve_cachedir(&Some("/var/cache/pacman/pkg".to_string()), "/tmp"),
        "/var/cache/pacman/pkg"
    );
}

#[test]
fn startup_plan_combines_all_choices() {
    let mut o = opts();
    o.filedb = true;
    o.refresh = 2;
    o.dbpath = Some("/custom/db".to_string());
    let p = plan_init(&o, "/var/lib/pacman", "/tmp");
    assert_eq!(p.dbpath, "/custom/db");
    assert_eq!(p.dbext, ".files");
    assert_eq!(p.cachedir, "/tmp/paccat");
    assert_eq!(p.refresh, RefreshAction::Sync { force: true });
    assert_eq!(p.notice, Some("synchronising package databases...".to_string()));

    let q = plan_init(&opts(), "/var/lib/pacman", "/tmp");
    assert_eq!(q.dbpath, "/var/lib/pacman");
    assert_eq!(q.dbext, ".db");
    assert_eq!(q.refresh, RefreshAction::Skip);
    assert_eq!(q.notice, None);
}

#[test]
fn first_invalid_database_is_fatal() {
    let names = vec!["core", "extra", "multilib"];
    assert_eq!(check_databases(&vec![true, true, true]), Ok(()));
    assert_eq!(check_databases(&vec![true, false, false]), Err(1));
    assert_eq!(
        validity_error_text(names[1], ".db"),
        "database extra.db is not valid"
    );
}

#[test]
fn init_failure_names_both_paths() {
    assert_eq!(
        init_error_text("/", "/var/lib/pacman"),
        "failed to initialize alpm (root: /, dbpath: /var/lib/pacman)"
    );
}

#[test]
fn signature_fetches_are_not_reported() {
    let done = DownloadEvent::Completed { outcome: DownloadOutcome::Success };
    assert_eq!(download_report("pkg.sig", done), None);
}

#[test]
fn completed_download_reports_one_line() {
    let done = DownloadEvent::Completed { outcome: DownloadOutcome::Success };
    assert_eq!(
        download_report("pkg.pkg.tar.zst", done),
        Some("pkg.pkg.tar.zst downloaded".to_string())
    );
}

#[test]
fn other_download_outcomes_and_progress() {
    let upto = DownloadEvent::Completed { outcome: DownloadOutcome::UpToDate };
    let fail = DownloadEvent::Completed { outcome: DownloadOutcome::Failed };
    assert_eq!(
        download_report("core.db", upto),
        Some("core.db is up to date".to_string())
    );
    assert_eq!(
        download_report("core.db", fail),
        Some("core.db failed to download".to_string())
    );
    assert_eq!(download_report("core.db", DownloadEvent::InProgress), None);
}

#[test]
fn only_warnings_and_errors_surface() {
    assert_eq!(
        log_report(LogSeverity::Warning, "disk quota low\n"),
        Some("warning: disk quota low\n".to_string())
    );
    assert_eq!(
        log_report(LogSeverity::Error, "keyring unreadable\n"),
        Some("error: keyring unreadable\n".to_string())
    );
    assert_eq!(log_report(LogSeverity::Debug, "noise\n"), None);
    assert_eq!(log_report(LogSeverity::Function, "noise\n"), None);
}

#[test]
fn missing_database_earns_a_hint() {
    let ev = LifecycleEvent::DatabaseMissing { dbname: "core".to_string() };
    assert_eq!(
        event_report(&ev),
        Some("database file for core does not exist (use pacman to download)".to_string())
    );
    assert_eq!(event_report(&LifecycleEvent::Other), None);
}

#[test]
fn sig_suffix_must_be_a_real_suffix() {
    let done = DownloadEvent::Completed { outcome: DownloadOutcome::Success };
    // Exactly the suffix, nothing before it: still a signature fetch.
    assert_eq!(download_report(".sig", done), None);
    // Too short to carry the suffix, or merely containing it: reported.
    assert_eq!(download_report("sig", done), Some("sig downloaded".to_string()));
    assert_eq!(
        download_report("pkg.signed.tar", done),
        Some("pkg.signed.tar downloaded".to_string())
    );
}

#[test]
fn no_databases_means_nothing_to_validate() {
    assert_eq!(check_databases(&vec![]), Ok(()));
}
