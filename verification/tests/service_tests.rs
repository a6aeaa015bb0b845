use notebooklm_cli::db::{account_counts, AccountEntry};
use notebooklm_cli::discovery::{
    account_from_page_state, discovery_record, probe_session_name, should_probe, DiscoveryRecord,
};
use notebooklm_cli::embedded::{mime_for_path, served_candidate, static_candidates};
use notebooklm_cli::error::AppError;
use notebooklm_cli::notebooklm::rpc::{PageState, NOTEBOOKLM_DOMAIN};
use notebooklm_cli::preview::{
    begin_sync, finish_sync, note_opened, nothing_synced, open_note_script, port_failure, port_sync_result,
    preview_entry, sync_session_name, sync_totals, NoteOrigin, NoteOutcome, PortSync, PreviewStatus,
    PreviewSyncResult, OPEN_NOTE_SCRIPT_0, OPEN_NOTE_SCRIPT_1,
};
use notebooklm_cli::server::routes::{
    apply_config_patch, binary_detected, check_password_change, login_cookie, logout_cookie, password_required,
    record_execution, set_password, AgentBrowserSettings, AuthSettings, AuthState, ConfigPatch, VncSettings,
    MAX_RECENT_EXECUTIONS,
};

fn account(port: &str, email: &str, online: bool) -> AccountEntry {
    AccountEntry {
        cdp_port: port.to_string(),
        email: email.to_string(),
        display_name: String::new(),
        online,
        last_checked: 7,
    }
}

fn page(hostname: &str, account: &str, login_required: bool) -> PageState {
    PageState {
        url: String::new(),
        title: "NotebookLM".to_string(),
        hostname: hostname.to_string(),
        kind: "home".to_string(),
        notebook_id: String::new(),
        login_required,
        notebook_count: 0,
        google_account: account.to_string(),
    }
}

fn idle_status() -> PreviewStatus {
    PreviewStatus {
        running: false,
        last_started_at: None,
        last_finished_at: Some(5),
        last_error: Some("old".to_string()),
        last_added: 3,
        last_skipped: 4,
        last_failed_ports: 1,
    }
}

#[test]
fn counts_online_and_offline_accounts() {
    let accounts = vec![account("9222", "a@x", true), account("9223", "", false), account("9224", "b@x", true)];
    assert_eq!(account_counts(&accounts), (2, 1));
    assert_eq!(account_counts(&Vec::new()), (0, 0));
}

#[test]
fn session_names_carry_the_port() {
    assert_eq!(probe_session_name("9222"), "discovery-9222");
    assert_eq!(sync_session_name("9333"), "preview-sync-9333");
}

#[test]
fn a_signed_in_page_gives_an_online_account() {
    let found = account_from_page_state("9222", &page(NOTEBOOKLM_DOMAIN, "me@example.com", false), 42).unwrap();
    assert_eq!(found.cdp_port, "9222");
    assert_eq!(found.email, "me@example.com");
    assert!(found.online);
    assert_eq!(found.last_checked, 42);
    assert!(account_from_page_state("9222", &page(NOTEBOOKLM_DOMAIN, "t", true), 42).is_none());
    assert!(account_from_page_state("9222", &page("accounts.google.com", "t", false), 42).is_none());
}

#[test]
fn fresh_cached_accounts_are_not_probed_again() {
    let fresh = account("9222", "a@x", true);
    let offline = account("9222", "a@x", false);
    let nameless = account("9222", "", true);
    assert!(!should_probe(true, Some(&fresh)));
    assert!(should_probe(false, Some(&fresh)));
    assert!(should_probe(true, Some(&offline)));
    assert!(should_probe(true, Some(&nameless)));
    assert!(should_probe(true, None));
}

#[test]
fn a_failed_probe_marks_the_port_offline() {
    match discovery_record("9222", None, 11) {
        DiscoveryRecord::Offline { cdp_port, checked_at } => {
            assert_eq!(cdp_port, "9222");
            assert_eq!(checked_at, 11);
        }
        other => panic!("{:?}", other),
    }
    match discovery_record("9222", Some(account("9222", "a@x", true)), 11) {
        DiscoveryRecord::Store(a) => assert_eq!(a.email, "a@x"),
        other => panic!("{:?}", other),
    }
}

#[test]
fn media_types_follow_the_extension() {
    assert_eq!(mime_for_path("index.html"), "text/html; charset=utf-8");
    assert_eq!(mime_for_path("_next/app.js"), "application/javascript; charset=utf-8");
    assert_eq!(mime_for_path("a.mjs"), "application/javascript; charset=utf-8");
    assert_eq!(mime_for_path("style.css"), "text/css; charset=utf-8");
    assert_eq!(mime_for_path("logo.svg"), "image/svg+xml");
    assert_eq!(mime_for_path("photo.jpeg"), "image/jpeg");
    assert_eq!(mime_for_path("font.woff2"), "font/woff2");
    assert_eq!(mime_for_path("font.woff"), "font/woff");
    assert_eq!(mime_for_path("data.json"), "application/json");
    assert_eq!(mime_for_path("archive.bin"), "application/octet-stream");
}

#[test]
fn static_candidates_try_file_directory_page_and_root() {
    assert_eq!(
        static_candidates("/settings/"),
        vec!["settings/", "settings/index.html", "settings/.html", "index.html"]
    );
    assert_eq!(
        static_candidates("/notes"),
        vec!["notes", "notes/index.html", "notes.html", "index.html"]
    );
    assert_eq!(static_candidates("/"), vec!["index.html", "index.html/index.html", "index.html.html", "index.html"]);
}

#[test]
fn open_note_script_quotes_the_title() {
    let s = open_note_script("My \"note\"").unwrap();
    assert_eq!(s, format!("{}{}{}", OPEN_NOTE_SCRIPT_0, "\"My \\\"note\\\"\"", OPEN_NOTE_SCRIPT_1));
}

#[test]
fn note_opened_reports_the_script_error() {
    assert!(note_opened(Some(true), None).is_ok());
    match note_opened(Some(false), Some("note not found".to_string())) {
        Err(AppError::BrowserExecutionFailed(m)) => assert_eq!(m, "note not found"),
        other => panic!("{:?}", other),
    }
    match note_opened(None, None) {
        Err(AppError::BrowserExecutionFailed(m)) => assert_eq!(m, "failed to open note"),
        other => panic!("{:?}", other),
    }
}

#[test]
fn preview_entry_skips_blank_titles() {
    let origin = NoteOrigin {
        cdp_port: "9222".to_string(),
        google_account: "a@x".to_string(),
        notebook_id: "nb1".to_string(),
        notebook_title: "Notebook".to_string(),
    };
    assert!(preview_entry(&origin, "k", "   ", "body", 9).is_none());
    let e = preview_entry(&origin, "plan", " Plan ", "a\n\nb", 9).unwrap();
    assert_eq!(e.note_key, "plan");
    assert_eq!(e.note_title, " Plan ");
    assert_eq!(e.content, "a\n\nb");
    assert_eq!(e.content_preview, "a b");
    assert_eq!(e.notebook_id, "nb1");
    assert_eq!(e.fetched_at, 9);
    assert_eq!(e.created_at, 9);
    let long = "x".repeat(300);
    assert_eq!(preview_entry(&origin, "k", "t", &long, 1).unwrap().content_preview.chars().count(), 240);
}

#[test]
fn port_results_count_added_and_skipped_notes() {
    let r = port_sync_result(&vec![NoteOutcome::Added, NoteOutcome::Skipped, NoteOutcome::Blank, NoteOutcome::Added]);
    assert_eq!((r.added, r.skipped, r.failed_ports), (2, 1, 0));
}

#[test]
fn totals_sum_ports_and_keep_the_last_failure() {
    let ports = vec![
        PortSync::Synced(PreviewSyncResult { added: 2, skipped: 1, failed_ports: 0 }),
        PortSync::Failed(port_failure("9223", "timeout")),
        PortSync::Synced(PreviewSyncResult { added: 1, skipped: 5, failed_ports: 0 }),
        PortSync::Failed(port_failure("9224", "closed")),
    ];
    let (totals, last) = sync_totals(&ports);
    assert_eq!((totals.added, totals.skipped, totals.failed_ports), (3, 6, 2));
    assert_eq!(last, Some("9224: closed".to_string()));
    let (empty, none) = sync_totals(&Vec::new());
    assert_eq!((empty.added, empty.skipped, empty.failed_ports), (0, 0, 0));
    assert_eq!(none, None);
}

#[test]
fn a_sync_cycle_records_its_times_and_totals() {
    let mut status = idle_status();
    assert!(begin_sync(&mut status, 100));
    assert!(status.running);
    assert_eq!(status.last_started_at, Some(100));
    assert_eq!(status.last_error, None);
    assert_eq!(status.last_added, 0);
    assert!(!begin_sync(&mut status, 150));
    assert_eq!(status.last_started_at, Some(100));
    let totals = PreviewSyncResult { added: 4, skipped: 2, failed_ports: 1 };
    finish_sync(&mut status, &totals, Some("9223: timeout".to_string()), 200);
    assert!(!status.running);
    assert_eq!(status.last_started_at, Some(100));
    assert_eq!(status.last_finished_at, Some(200));
    assert_eq!((status.last_added, status.last_skipped, status.last_failed_ports), (4, 2, 1));
    assert_eq!(status.last_error, Some("9223: timeout".to_string()));
    let n = nothing_synced();
    assert_eq!((n.added, n.skipped, n.failed_ports), (0, 0, 0));
}

#[test]
fn password_is_required_until_changed() {
    assert!(password_required("secret", false));
    assert!(!password_required("secret", true));
    assert!(!password_required("", false));
}

#[test]
fn binary_detection_ignores_the_default_name() {
    assert!(!binary_detected("agent-browser"));
    assert!(binary_detected("/usr/local/bin/agent-browser"));
}

#[test]
fn password_changes_need_auth_and_a_password() {
    assert!(matches!(check_password_change(false, "x"), Err(AppError::AuthRequired)));
    match check_password_change(true, "") {
        Err(AppError::InvalidParams(m)) => assert_eq!(m, "password cannot be empty"),
        other => panic!("{:?}", other),
    }
    assert!(check_password_change(true, "new").is_ok());
    let mut settings = AuthSettings { password: "old".to_string(), password_changed: false };
    let mut state = AuthState { password: "old".to_string(), password_initialized: false };
    set_password(&mut settings, &mut state, "new");
    assert_eq!(settings.password, "new");
    assert!(settings.password_changed);
    assert_eq!(state.password, "new");
    assert!(state.password_initialized);
    assert!(login_cookie("new", &state.password).is_ok());
    assert!(matches!(login_cookie("old", &state.password), Err(AppError::InvalidPassword)));
}

#[test]
fn login_sets_and_logout_clears_the_cookie() {
    assert_eq!(
        login_cookie("pw", "pw").unwrap(),
        "notebooklm_cli_token=pw; Path=/; HttpOnly; SameSite=Strict"
    );
    assert!(matches!(login_cookie("bad", "pw"), Err(AppError::InvalidPassword)));
    assert_eq!(logout_cookie(), "notebooklm_cli_token=; Path=/; Max-Age=0");
}

#[test]
fn config_patch_replaces_only_given_settings() {
    let mut browser =
        AgentBrowserSettings { binary: "agent-browser".to_string(), session_name: "s".to_string(), timeout_secs: 30 };
    let mut vnc = VncSettings { url: "http://v".to_string(), embed: false };
    let patch = ConfigPatch {
        binary: Some("/opt/ab".to_string()),
        session_name: None,
        timeout_secs: Some(60),
        vnc_url: None,
        vnc_embed: Some(true),
    };
    apply_config_patch(&mut browser, &mut vnc, patch);
    assert_eq!(browser.binary, "/opt/ab");
    assert_eq!(browser.session_name, "s");
    assert_eq!(browser.timeout_secs, 60);
    assert_eq!(vnc.url, "http://v");
    assert!(vnc.embed);
}

#[test]
fn execution_history_keeps_the_latest_hundred() {
    let mut history: Vec<u32> = Vec::new();
    for i in 0..150u32 {
        record_execution(&mut history, i);
        assert!(history.len() <= MAX_RECENT_EXECUTIONS);
        assert_eq!(*history.last().unwrap(), i);
    }
    assert_eq!(history.len(), 100);
    assert_eq!(history[0], 50);
}

#[test]
fn the_first_existing_candidate_is_served() {
    assert_eq!(served_candidate(&vec![true, true, false, true]), Some(0));
    assert_eq!(served_candidate(&vec![false, true, true, true]), Some(1));
    assert_eq!(served_candidate(&vec![false, false, false, true]), Some(3));
    assert_eq!(served_candidate(&vec![false, false, false, false]), None);
}
