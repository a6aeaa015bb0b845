use notebooklm_cli::manifest::{build_manifest, command_specs, skill_specs, tool_specs, PACKAGE_VERSION};

#[test]
fn commands_are_listed_in_catalogue_order() {
    let names: Vec<&str> = command_specs().iter().map(|c| c.name).collect();
    assert_eq!(
        names,
        vec![
            "status",
            "list",
            "get",
            "summary",
            "source_list",
            "source_get",
            "source_fulltext",
            "source_guide",
            "history",
            "note_list",
            "note_get",
            "note_create",
            "source_add_youtube",
        ]
    );
}

#[test]
fn command_attributes() {
    let cmds = command_specs();
    assert!(cmds.iter().all(|c| c.requires_auth));
    assert_eq!(cmds[0].params.len(), 0);
    assert_eq!(cmds[2].params[0].name, "notebook_id");
    assert!(!cmds[2].params[0].required);
    assert_eq!(cmds[2].params[0].kind, "string");
    assert_eq!(cmds[5].params[0].name, "source");
    assert!(cmds[5].params[0].required);
    assert_eq!(cmds[10].params[0].name, "note");
    assert_eq!(cmds[9].execution_mode, "ui-first");
    assert_eq!(cmds[8].execution_mode, "rpc-first");
    assert_eq!(cmds[5].wave, 1);
    assert_eq!(cmds[6].wave, 2);
    assert_eq!(cmds[11].category, "write");
    assert_eq!(cmds[12].params[0].name, "url");
    assert!(cmds[12].params[0].required);
}

#[test]
fn every_tool_runs_the_command_of_its_name() {
    let cmds = command_specs();
    let tools = tool_specs();
    assert_eq!(tools.len(), cmds.len());
    for (t, c) in tools.iter().zip(cmds.iter()) {
        assert_eq!(t.command, c.name);
        assert_eq!(t.name, format!("notebooklm_{}", c.name));
        assert_eq!(t.read_only, c.category == "read");
        assert!(t.requires_auth);
    }
}

#[test]
fn every_skill_step_names_a_command() {
    let cmds = command_specs();
    for skill in skill_specs() {
        for step in &skill.steps {
            assert!(cmds.iter().any(|c| c.name == step.uses), "{}", step.uses);
        }
    }
    let skills = skill_specs();
    assert_eq!(skills[0].name, "research_notebook");
    let steps: Vec<&str> = skills[0].steps.iter().map(|s| s.uses).collect();
    assert_eq!(steps, vec!["summary", "source_list", "history"]);
}

#[test]
fn command_names_are_distinct() {
    let cmds = command_specs();
    for i in 0..cmds.len() {
        for j in 0..cmds.len() {
            if i != j {
                assert_ne!(cmds[i].name, cmds[j].name);
            }
        }
    }
}

#[test]
fn manifest_reports_server_defaults() {
    let m = build_manifest("/home/u/.config/notebooklm-cli/config.toml".to_string(), "127.0.0.1".to_string(), 12234);
    assert_eq!(m.server_defaults.base_url, "http://127.0.0.1:12234");
    assert_eq!(m.server_defaults.host, "127.0.0.1");
    assert_eq!(m.server_defaults.port, 12234);
    assert_eq!(m.runtime.config_path, "/home/u/.config/notebooklm-cli/config.toml");
    assert_eq!(m.runtime.binary, "notebooklm-cli");
    assert_eq!(m.site.id, "notebooklm");
    assert_eq!(m.site.version, PACKAGE_VERSION);
    assert_eq!(m.auth_model.cookie_name, "notebooklm_cli_token");
    assert_eq!(m.agent_browser.default_session_name, "notebooklm-cli");
    assert_eq!(m.commands.len(), 13);
    assert_eq!(m.mcp_tools.len(), 13);
    assert_eq!(m.skills.len(), 3);
}

#[test]
fn base_url_of_port_zero_and_max() {
    let m = build_manifest(String::new(), "0.0.0.0".to_string(), 0);
    assert_eq!(m.server_defaults.base_url, "http://0.0.0.0:0");
    let m = build_manifest(String::new(), "localhost".to_string(), 65535);
    assert_eq!(m.server_defaults.base_url, "http://localhost:65535");
}
