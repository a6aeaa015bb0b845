use notebooklm_cli::error::AppError;
use notebooklm_cli::models::Source;
use notebooklm_cli::notebooklm::commands::history::{history_row, thread_detail_rpc_params, threads_rpc_params};
use notebooklm_cli::notebooklm::commands::note_create::{note_create_inputs, note_create_script, note_created};
use notebooklm_cli::notebooklm::commands::note_get::{note_query, visible_note};
use notebooklm_cli::notebooklm::commands::note_list::{note_list_script, note_rows, ListedNote};
use notebooklm_cli::notebooklm::commands::source_add_youtube::{
    create_click_command, create_click_next, creation_start, created_notebook, parse_source_count, ref_by_name,
    unclickable_error, CreateClick,
    youtube_url, CreationStart, RefEntry,
};
use notebooklm_cli::notebooklm::commands::source_fulltext::{fulltext_rpc_params, resolved_source_id, source_query};
use notebooklm_cli::commands::executor::{browser_options, planned_answer, CommandExecutor, CommandRegistry};
use notebooklm_cli::notebooklm::commands::note_get::check_visible_note;
use notebooklm_cli::notebooklm::commands::source_add_youtube::{check_youtube_url, youtube_source_added};
use notebooklm_cli::notebooklm::commands::source_get::{pick_source, select_source};
use notebooklm_cli::notebooklm::commands::status::status_report;
use notebooklm_cli::server::routes::AgentBrowserSettings;
use notebooklm_cli::notebooklm::commands::source_guide::{guide_rpc_params, guide_script, resolved_source};
use notebooklm_cli::notebooklm::rpc::PageState;

fn invalid(r: Result<impl std::fmt::Debug, AppError>) -> String {
    match r {
        Err(AppError::InvalidParams(m)) => m,
        other => panic!("{:?}", other),
    }
}

fn failure<T: std::fmt::Debug>(r: Result<T, AppError>) -> String {
    match r {
        Err(AppError::BrowserExecutionFailed(m)) => m,
        other => panic!("{:?}", other),
    }
}

#[test]
fn note_query_is_trimmed_and_required() {
    assert_eq!(note_query(Some("  Ideas ")).unwrap(), "Ideas");
    assert_eq!(invalid(note_query(Some("   "))), "note is required");
    assert_eq!(invalid(note_query(None)), "note is required");
}

#[test]
fn visible_note_must_match_the_query() {
    let n = visible_note("ideas", "nb", Some("My Ideas".into()), Some("text".into())).unwrap();
    assert_eq!(n.title, "My Ideas");
    assert_eq!(n.content.as_deref(), Some("text"));
    assert_eq!(n.url, "https://notebooklm.google.com/notebook/nb");
    assert_eq!(
        invalid(visible_note("ideas", "nb", None, None)),
        "note 'ideas' not found — open the note in the Studio panel first"
    );
    assert_eq!(
        invalid(visible_note("plans", "nb", Some("Ideas".into()), None)),
        "visible note 'Ideas' does not match query 'plans' — click the note in the Studio panel first"
    );
}

#[test]
fn note_create_inputs_and_answer() {
    let (t, c) = note_create_inputs(Some("  Title "), Some(" body "));
    assert_eq!(t, "Title");
    assert_eq!(c, " body ");
    let (t, c) = note_create_inputs(None, None);
    assert_eq!((t.as_str(), c.as_str()), ("", ""));
    let s = note_create_script("A \"q\"", "line\nnext");
    assert!(s.contains("})(\"A \\\"q\\\"\", \"line\\nnext\")"));
    let n = note_created("nb", Some(true), None, Some("T".into()), Some("C".into())).unwrap();
    assert_eq!((n.title.as_str(), n.content.as_str()), ("T", "C"));
    assert_eq!(failure(note_created("nb", Some(false), Some("add-note button not found".into()), None, None)), "add-note button not found");
    assert_eq!(failure(note_created("nb", None, None, None, None)), "failed to create note");
    assert_eq!(failure(note_created("nb", Some(true), None, Some(String::new()), None)), "note editor did not produce a title");
}

#[test]
fn note_list_rows() {
    let s = note_list_script("nb7");
    assert!(s.contains("const notebookId = 'nb7';"));
    let rows = note_rows(
        "nb7",
        &vec![
            ListedNote { title: "a".into(), created_at: Some("Mar 1".into()) },
            ListedNote { title: "b".into(), created_at: None },
        ],
    );
    assert_eq!(rows.len(), 2);
    assert_eq!(rows[0].title, "a");
    assert_eq!(rows[0].created_at.as_deref(), Some("Mar 1"));
    assert_eq!(rows[1].created_at, None);
    assert_eq!(rows[1].url, "https://notebooklm.google.com/notebook/nb7");
}

#[test]
fn youtube_url_checks() {
    assert_eq!(youtube_url(Some(" https://www.YouTube.com/watch?v=1 ")).unwrap(), "https://www.YouTube.com/watch?v=1");
    assert_eq!(youtube_url(Some("https://youtu.be/x")).unwrap(), "https://youtu.be/x");
    assert_eq!(invalid(youtube_url(Some(""))), "url is required");
    assert_eq!(invalid(youtube_url(None)), "url is required");
    assert_eq!(invalid(youtube_url(Some("https://vimeo.com/1"))), "url must be a YouTube link");
    assert_eq!(parse_source_count(Some(3)), 3);
    assert_eq!(parse_source_count(None), 0);
}

#[test]
fn snapshot_reference_lookup() {
    let refs = vec![
        RefEntry { key: "e1".into(), role: "link".into(), name: "Website".into() },
        RefEntry { key: "e2".into(), role: "button".into(), name: "Add Website".into() },
        RefEntry { key: "e3".into(), role: "button".into(), name: "网站".into() },
    ];
    assert_eq!(ref_by_name(&refs, &vec!["网站", "Website"], "button"), Some("@e2".to_string()));
    assert_eq!(ref_by_name(&refs, &vec!["Insert"], "button"), None);
    assert_eq!(ref_by_name(&vec![], &vec!["Insert"], "button"), None);
}

#[test]
fn browser_fallback_messages() {
    let e = unclickable_error(&vec!["插入".to_string(), "Insert".to_string()]);
    assert_eq!(failure::<()>(Err(e)), "none of these text targets were clickable: 插入, Insert");
}

fn page(kind: &str, id: &str, login: bool) -> PageState {
    PageState {
        url: String::new(),
        title: String::new(),
        hostname: "notebooklm.google.com".into(),
        kind: kind.into(),
        notebook_id: id.into(),
        login_required: login,
        notebook_count: 0,
        google_account: String::new(),
    }
}

#[test]
fn notebook_creation_decisions() {
    assert!(matches!(creation_start(&page("notebook", "nb", false)), Ok(CreationStart::Use(id)) if id == "nb"));
    assert!(matches!(creation_start(&page("notebook", "creating", false)), Ok(CreationStart::GoHomeAndCreate)));
    assert!(matches!(creation_start(&page("unknown", "", false)), Ok(CreationStart::GoHomeAndCreate)));
    assert!(matches!(creation_start(&page("home", "", false)), Ok(CreationStart::Create)));
    assert!(matches!(creation_start(&page("home", "", true)), Err(AppError::NotebooklmLoginRequired)));
    assert_eq!(created_notebook(&page("notebook", "new", false)).unwrap(), Some("new".to_string()));
    assert_eq!(created_notebook(&page("notebook", "creating", false)).unwrap(), None);
    assert!(created_notebook(&page("notebook", "new", true)).is_err());
}

#[test]
fn source_queries_and_rpc_params() {
    assert_eq!(source_query(Some(" Paper ")).unwrap(), "Paper");
    assert_eq!(invalid(source_query(Some(""))), "source is required");
    assert_eq!(fulltext_rpc_params("s1"), r#"[["s1"], [2], [2]]"#);
    assert_eq!(guide_rpc_params("s1"), r#"[[[["s1"]]]]"#);
    assert_eq!(resolved_source_id(Some("s1".into()), "q").unwrap(), "s1");
    assert_eq!(invalid(resolved_source_id(None, "q")), "source 'q' not found");
    assert_eq!(resolved_source(Some("s1".into()), None, "q").unwrap(), ("s1".to_string(), String::new()));
    assert_eq!(invalid(resolved_source(None, Some("t".into()), "q")), "source 'q' not found");
    assert!(guide_script("[]", "s1", "nb", "It's \"x\"").contains("title: \"It's \\\"x\\\"\","));
    assert_eq!(threads_rpc_params("nb"), r#"[[], null, "nb", 20]"#);
    assert_eq!(thread_detail_rpc_params("t1"), r#"[[], null, null, "t1", 20]"#);
    let row = history_row("t1", "nb", 4, Some("hi".into()));
    assert_eq!(row.url, "https://notebooklm.google.com/notebook/nb");
    assert_eq!(row.item_count, 4);
}

fn source(id: &str, title: &str) -> Source {
    Source {
        id: id.into(),
        notebook_id: "nb".into(),
        title: title.into(),
        url: String::new(),
        kind: None,
        size: None,
        created_at: None,
        updated_at: None,
    }
}

#[test]
fn source_selection_order() {
    let sources = vec![source("A1", "Report 2023"), source("b2", "Report 2024"), source("c3", "Notes")];
    assert_eq!(select_source(&sources, "a1"), Some(0));
    assert_eq!(select_source(&sources, "NOTES"), Some(2));
    assert_eq!(select_source(&sources, "2024"), Some(1));
    assert_eq!(select_source(&sources, "report"), None);
    assert_eq!(select_source(&sources, "missing"), None);
    let dup = vec![source("x", "Same"), source("y", "same")];
    assert_eq!(select_source(&dup, "same"), Some(0));
}

#[test]
fn create_button_click_tries_each_way_in_order() {
    assert_eq!(create_click_command(0), vec!["wait", "--text", "新建笔记本"]);
    assert_eq!(create_click_command(2), vec!["wait", "button.create-notebook-button"]);
    assert_eq!(create_click_command(3), vec!["click", "button.create-notebook-button"]);
    assert_eq!(create_click_command(5), vec!["find", "role", "button", "click", "--name", "Create notebook"]);
    assert_eq!(create_click_command(6), vec!["find", "first", "button.create-notebook-button", "click"]);
    assert_eq!(create_click_command(8), vec!["find", "text", "Create notebook", "click"]);
    assert!(matches!(create_click_next(0, false), CreateClick::Try(1)));
    assert!(matches!(create_click_next(1, true), CreateClick::Try(2)));
    assert!(matches!(create_click_next(2, true), CreateClick::Try(3)));
    assert!(matches!(create_click_next(2, false), CreateClick::Try(4)));
    assert!(matches!(create_click_next(3, true), CreateClick::Clicked));
    assert!(matches!(create_click_next(3, false), CreateClick::Try(4)));
    assert!(matches!(create_click_next(7, false), CreateClick::Try(8)));
    match create_click_next(8, false) {
        CreateClick::Failed(AppError::BrowserExecutionFailed(m)) => {
            assert_eq!(m, "none of these text targets were clickable: 新建笔记本, Create notebook")
        }
        other => panic!("{:?}", other),
    }
}

#[test]
fn youtube_check_on_given_lowered_text() {
    assert!(check_youtube_url("https://x/Watch".to_string(), "https://youtube.com/watch").is_ok());
    assert_eq!(invalid(check_youtube_url("https://YOUTUBE.com/x".to_string(), "https://YOUTUBE.com/x")), "url must be a YouTube link");
    assert_eq!(invalid(check_youtube_url(String::new(), "youtu.be/")), "url is required");
}

#[test]
fn visible_note_check_on_given_lowered_text() {
    let n = check_visible_note("Plan", "nb", "My PLAN".to_string(), "body".to_string(), "my plan", "plan").unwrap();
    assert_eq!(n.title, "My PLAN");
    assert_eq!(n.content.as_deref(), Some("body"));
    assert_eq!(
        invalid(check_visible_note("Plan", "nb", "My PLAN".to_string(), String::new(), "MY PLAN", "plan")),
        "visible note 'My PLAN' does not match query 'Plan' — click the note in the Studio panel first"
    );
}

#[test]
fn pick_source_compares_as_given() {
    let ids = vec!["a1".to_string(), "b2".to_string()];
    let titles = vec!["Notes".to_string(), "notes 2024".to_string()];
    assert_eq!(pick_source(&ids, &titles, "b2"), Some(1));
    assert_eq!(pick_source(&ids, &titles, "Notes"), Some(0));
    assert_eq!(pick_source(&ids, &titles, "notes"), Some(1));
    assert_eq!(pick_source(&ids, &titles, "otes"), None);
    assert_eq!(pick_source(&ids, &titles, "A1"), None);
}

#[test]
fn planned_answer_and_browser_options() {
    let a = planned_answer("later");
    assert_eq!(a.status, "planned");
    assert_eq!(a.message, "Command `later` is registered but not implemented yet");
    let settings = AgentBrowserSettings { binary: "/bin/ab".into(), session_name: "s".into(), timeout_secs: 45 };
    let inv = CommandExecutor::new(CommandRegistry::new()).plan("list", Some("9333"), &vec![]).unwrap();
    let o = browser_options(&settings, &inv);
    assert_eq!((o.binary.as_str(), o.cdp_port.as_str(), o.session_name.as_str(), o.timeout_secs), ("/bin/ab", "9333", "s", 45));
}

#[test]
fn status_reports_the_signed_in_account() {
    let mut p = page("home", "", false);
    p.google_account = "me@example.com".to_string();
    let r = status_report(&p);
    assert_eq!(r.google_account, "me@example.com");
    assert_eq!(r.kind, "home");
    assert!(!r.login_required);
}

#[test]
fn youtube_report_counts_and_newest_source() {
    let r = youtube_source_added("nb1", "https://youtu.be/x".to_string(), Some(2), Some(3));
    assert_eq!(r.url, "https://notebooklm.google.com/notebook/nb1");
    assert!(r.accepted);
    assert_eq!((r.source_count_before, r.source_count_after, r.latest_source), (2, 3, Some(2)));
    let r = youtube_source_added("nb1", "u".to_string(), None, Some(0));
    assert_eq!((r.source_count_before, r.source_count_after, r.latest_source), (0, 0, None));
}
