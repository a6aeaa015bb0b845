use notebooklm_cli::commands::executor::{planned_message, CommandExecutor, CommandKind, CommandRegistry};
use notebooklm_cli::error::AppError;

fn executor() -> CommandExecutor {
    CommandExecutor::new(CommandRegistry::new())
}

#[test]
fn unknown_command_is_not_found() {
    match executor().plan("nope", Some("9222"), &vec![]) {
        Err(AppError::CommandNotFound(name)) => assert_eq!(name, "nope"),
        other => panic!("{:?}", other),
    }
}

#[test]
fn missing_or_empty_port_is_invalid() {
    for port in [None, Some("")] {
        match executor().plan("list", port, &vec![]) {
            Err(AppError::InvalidParams(m)) => assert_eq!(
                m,
                "cdp_port is required. Call notebooklm_accounts first to discover available accounts."
            ),
            other => panic!("{:?}", other),
        }
    }
}

#[test]
fn unmanaged_port_is_refused_with_the_managed_list() {
    let managed = vec!["9222".to_string(), "9223".to_string()];
    match executor().plan("list", Some("9333"), &managed) {
        Err(AppError::InvalidParams(m)) => assert_eq!(m, "cdp_port 9333 is not managed. Available: 9222, 9223"),
        other => panic!("{:?}", other),
    }
}

#[test]
fn managed_or_unrestricted_port_runs_the_command() {
    let managed = vec!["9222".to_string(), "9223".to_string()];
    let inv = executor().plan("source_list", Some("9223"), &managed).unwrap();
    assert_eq!(inv.kind, CommandKind::SourceList);
    assert_eq!(inv.command, "source_list");
    assert_eq!(inv.cdp_port, "9223");
    let inv = executor().plan("note_create", Some("1234"), &vec![]).unwrap();
    assert_eq!(inv.kind, CommandKind::NoteCreate);
}

#[test]
fn every_catalogue_command_has_an_implementation() {
    let reg = CommandRegistry::new();
    for c in &reg.commands {
        let inv = executor().plan(c.name, Some("9222"), &vec![]).unwrap();
        assert_ne!(inv.kind, CommandKind::Planned);
    }
    assert!(reg.get("history").is_some());
    assert!(reg.get("History").is_none());
}

#[test]
fn planned_answer_message() {
    assert_eq!(planned_message("x"), "Command `x` is registered but not implemented yet");
}
