use notebooklm_cli::error::AppError;
use notebooklm_cli::notebooklm::rpc::{
    build_rpc_eval_script, detail_rpc_params, explicit_notebook_id, notebook_id_from_page, notebook_url, rpc_outcome,
    PageState, RPC_SCRIPT_0, RPC_SCRIPT_1, RPC_SCRIPT_2,
};

fn page(kind: &str, id: &str, login: bool) -> PageState {
    PageState {
        url: String::new(),
        title: "NotebookLM".to_string(),
        hostname: "notebooklm.google.com".to_string(),
        kind: kind.to_string(),
        notebook_id: id.to_string(),
        login_required: login,
        notebook_count: 0,
        google_account: String::new(),
    }
}

#[test]
fn explicit_notebook_id_needs_text() {
    assert_eq!(explicit_notebook_id(Some("abc")), Some("abc".to_string()));
    assert_eq!(explicit_notebook_id(Some("")), None);
    assert_eq!(explicit_notebook_id(None), None);
}

#[test]
fn notebook_from_page() {
    assert_eq!(notebook_id_from_page(&page("notebook", "nb1", false)).unwrap(), "nb1");
    assert!(matches!(notebook_id_from_page(&page("notebook", "nb1", true)), Err(AppError::NotebooklmLoginRequired)));
    match notebook_id_from_page(&page("home", "", false)) {
        Err(AppError::InvalidParams(m)) => assert_eq!(m, "notebook_id is required (not currently on a notebook page)"),
        other => panic!("{:?}", other),
    }
    assert!(matches!(notebook_id_from_page(&page("notebook", "", false)), Err(AppError::InvalidParams(_))));
}

#[test]
fn rpc_answers() {
    assert!(rpc_outcome(None, None).is_ok());
    assert!(matches!(rpc_outcome(Some("NOTEBOOKLM_LOGIN_REQUIRED"), Some("x".into())), Err(AppError::NotebooklmLoginRequired)));
    match rpc_outcome(Some("NOTEBOOKLM_RPC_FAILED"), Some("HTTP 500".into())) {
        Err(AppError::NotebooklmRpcFailed(m)) => assert_eq!(m, "HTTP 500"),
        other => panic!("{:?}", other),
    }
    match rpc_outcome(Some("NOTEBOOKLM_RPC_FAILED"), None) {
        Err(AppError::NotebooklmRpcFailed(m)) => assert_eq!(m, "NOTEBOOKLM_RPC_FAILED"),
        other => panic!("{:?}", other),
    }
}

#[test]
fn rpc_script_embeds_the_quoted_id_and_params() {
    let s = build_rpc_eval_script("wXbhsf", "[null, 1, null, [2]]");
    assert_eq!(s, format!("{}\"wXbhsf\"{}[null, 1, null, [2]]{}", RPC_SCRIPT_0, RPC_SCRIPT_1, RPC_SCRIPT_2));
    assert!(s.contains("const rpcId = \"wXbhsf\";"));
    assert!(s.contains("const params = [null, 1, null, [2]];"));
    assert!(s.contains("/^\\)\\]\\}'\\r?\\n/"));
}

#[test]
fn addresses_and_params() {
    assert_eq!(notebook_url("abc"), "https://notebooklm.google.com/notebook/abc");
    assert_eq!(detail_rpc_params("abc"), r#"["abc", null, [2], null, 0]"#);
}
