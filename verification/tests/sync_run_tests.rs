use notebooklm_cli::error::AppError;
use notebooklm_cli::notebooklm::rpc::PageState;
use notebooklm_cli::preview::{begin_port_sync, PreviewStatus, PreviewSyncResult, PreviewSyncRun, PortSync};

fn home(login_required: bool) -> PageState {
    PageState {
        url: "https://notebooklm.google.com/".to_string(),
        title: "NotebookLM".to_string(),
        hostname: "notebooklm.google.com".to_string(),
        kind: "home".to_string(),
        notebook_id: String::new(),
        login_required,
        notebook_count: 2,
        google_account: "me@example.com".to_string(),
    }
}

#[test]
fn port_sync_refuses_a_page_without_login() {
    assert!(matches!(begin_port_sync("9222", &home(true)), Err(AppError::NotebooklmLoginRequired)));
}

#[test]
fn port_sync_skips_stored_notes_and_keeps_readable_ones() {
    let mut run = begin_port_sync("9222", &home(false)).unwrap();
    assert_eq!(run.google_account, "me@example.com");
    assert!(!run.note_listed(true));
    assert!(run.note_listed(false));
    let entry = run.note_read("nb1", "Notebook", "plan", "Plan", "a   b", 77).unwrap();
    assert_eq!(entry.cdp_port, "9222");
    assert_eq!(entry.google_account, "me@example.com");
    assert_eq!(entry.note_key, "plan");
    assert_eq!(entry.content_preview, "a b");
    assert_eq!((entry.fetched_at, entry.created_at), (77, 77));
    assert!(run.note_listed(false));
    assert!(run.note_read("nb1", "Notebook", "x", "  ", "body", 78).is_none());
    let r = run.result();
    assert_eq!((r.added, r.skipped, r.failed_ports), (1, 1, 0));
}

fn idle() -> PreviewStatus {
    PreviewStatus {
        running: true,
        last_started_at: Some(10),
        last_finished_at: None,
        last_error: None,
        last_added: 0,
        last_skipped: 0,
        last_failed_ports: 0,
    }
}

#[test]
fn sync_run_records_totals_and_the_last_failure() {
    let mut run = PreviewSyncRun::new();
    run.port_synced(PreviewSyncResult { added: 2, skipped: 1, failed_ports: 0 });
    run.port_failed("9223", "NotebookLM login required");
    run.port_synced(PreviewSyncResult { added: 3, skipped: 0, failed_ports: 0 });
    run.port_failed("9224", "timeout");
    assert!(matches!(&run.ports[1], PortSync::Failed(t) if t == "9223: NotebookLM login required"));
    assert!(run.totals_fit());
    let mut status = idle();
    let r = run.finish(&mut status, 20);
    assert_eq!((r.added, r.skipped, r.failed_ports), (5, 1, 2));
    assert!(!status.running);
    assert_eq!(status.last_started_at, Some(10));
    assert_eq!(status.last_finished_at, Some(20));
    assert_eq!((status.last_added, status.last_skipped, status.last_failed_ports), (5, 1, 2));
    assert_eq!(status.last_error, Some("9224: timeout".to_string()));
}

#[test]
fn sync_run_detects_totals_that_do_not_fit() {
    let mut run = PreviewSyncRun::new();
    run.port_synced(PreviewSyncResult { added: u64::MAX, skipped: 0, failed_ports: 0 });
    assert!(run.totals_fit());
    run.port_synced(PreviewSyncResult { added: 1, skipped: 0, failed_ports: 0 });
    assert!(!run.totals_fit());
}
