use notebooklm_cli::error::AppError;
use notebooklm_cli::server::routes::{check_password_setup, is_authenticated, route_access, AuthState};
use notebooklm_cli::text::{split_chars, trim};

fn auth(password: &str) -> AuthState {
    AuthState { password: password.to_string(), password_initialized: true }
}

#[test]
fn split_chars_keeps_empty_parts() {
    let parts = split_chars(&"a;b;;".chars().collect(), ';');
    let parts: Vec<String> = parts.into_iter().map(|p| p.into_iter().collect()).collect();
    assert_eq!(parts, vec!["a", "b", "", ""]);
    assert_eq!(split_chars(&Vec::new(), ';').len(), 1);
}

#[test]
fn trim_knows_the_unicode_white_space() {
    assert_eq!(trim("\u{3000}\u{1680}a b\u{85}\u{a0}"), "a b");
    assert_eq!(trim("\u{200b}a"), "\u{200b}a");
}

#[test]
fn requests_carry_the_password_as_bearer_or_cookie() {
    let a = auth("s3cret");
    assert!(is_authenticated(&vec![], Some("Bearer s3cret"), &a));
    assert!(!is_authenticated(&vec![], Some("Bearer other"), &a));
    assert!(!is_authenticated(&vec![], Some("s3cret"), &a));
    assert!(is_authenticated(&vec!["theme=dark; notebooklm_cli_token=s3cret".to_string()], None, &a));
    assert!(is_authenticated(&vec!["x=1".to_string(), " notebooklm_cli_token=s3cret ;y=2".to_string()], None, &a));
    assert!(!is_authenticated(&vec!["notebooklm_cli_token=s3cre".to_string()], None, &a));
    assert!(!is_authenticated(&vec!["other_token=s3cret".to_string()], None, &a));
    let unset = AuthState { password: "s3cret".to_string(), password_initialized: false };
    assert!(!is_authenticated(&vec![], Some("Bearer s3cret"), &unset));
    assert!(!is_authenticated(&vec![], Some("Bearer "), &auth("")));
}

#[test]
fn protected_routes_need_authentication() {
    for path in ["/health", "/api/bootstrap", "/api/setup/password", "/api/login", "/api/logout", "/logout"] {
        assert!(route_access(path, false).is_ok());
    }
    for path in ["/api/config", "/api/commands", "/api/skills", "/api/cdp-ports", "/api/execute"] {
        assert!(matches!(route_access(path, false), Err(AppError::AuthRequired)));
        assert!(route_access(path, true).is_ok());
    }
}

#[test]
fn password_setup_is_for_the_first_run() {
    assert!(check_password_setup(false, false, "pw").is_ok());
    assert!(matches!(check_password_setup(true, false, "pw"), Err(AppError::AuthRequired)));
    assert!(check_password_setup(true, true, "pw").is_ok());
    match check_password_setup(false, false, "") {
        Err(AppError::InvalidParams(m)) => assert_eq!(m, "password cannot be empty"),
        other => panic!("{:?}", other),
    }
}
