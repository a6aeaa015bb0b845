//! The self-description of the tool: its commands, the MCP tools that expose
//! them, the skills that chain them, and the runtime and server defaults.
use vstd::prelude::*;

use crate::text::{concat2, decimal, decimal_string};

verus! {

/// The package version reported in the manifest.
pub const PACKAGE_VERSION: &'static str = "0.1.0";

/// One parameter of a command.
#[derive(Debug, Clone)]
pub struct ParamSpec {
    pub name: &'static str,
    pub kind: &'static str,
    pub required: bool,
    pub description: &'static str,
}

/// One command of the tool.
#[derive(Debug, Clone)]
pub struct CommandSpec {
    pub name: &'static str,
    pub category: &'static str,
    pub wave: u8,
    pub execution_mode: &'static str,
    pub summary: &'static str,
    pub requires_auth: bool,
    pub params: Vec<ParamSpec>,
}

/// One MCP tool and the command it runs.
#[derive(Debug, Clone)]
pub struct ToolSpec {
    pub name: &'static str,
    pub command: &'static str,
    pub read_only: bool,
    pub requires_auth: bool,
}

/// One step of a skill: the command it uses.
#[derive(Debug, Clone)]
pub struct SkillStep {
    pub uses: &'static str,
}

/// A skill: a named sequence of commands.
#[derive(Debug, Clone)]
pub struct SkillSpec {
    pub name: &'static str,
    pub summary: &'static str,
    pub requires_auth: bool,
    pub steps: Vec<SkillStep>,
}

#[derive(Debug, Clone)]
pub struct SiteSpec {
    pub id: &'static str,
    pub name: &'static str,
    pub version: &'static str,
}

#[derive(Debug, Clone)]
pub struct RuntimeSpec {
    pub binary: &'static str,
    pub config_path: String,
}

#[derive(Debug, Clone)]
pub struct ServerDefaults {
    pub host: String,
    pub port: u16,
    pub base_url: String,
}

#[derive(Debug, Clone)]
pub struct AuthModelSpec {
    pub mode: &'static str,
    pub cookie_name: &'static str,
    pub bearer_format: &'static str,
    pub first_run_requires_password_setup: bool,
}

#[derive(Debug, Clone)]
pub struct AgentBrowserSpec {
    pub binding: &'static str,
    pub binary_auto_detect: bool,
    pub multi_account: bool,
    pub default_session_name: &'static str,
}

/// Everything `describe` reports.
#[derive(Debug, Clone)]
pub struct DescribeManifest {
    pub site: SiteSpec,
    pub runtime: RuntimeSpec,
    pub server_defaults: ServerDefaults,
    pub auth_model: AuthModelSpec,
    pub agent_browser: AgentBrowserSpec,
    pub commands: Vec<CommandSpec>,
    pub mcp_tools: Vec<ToolSpec>,
    pub skills: Vec<SkillSpec>,
}

/// `p` is a string parameter with these attributes.
pub open spec fn param_is(p: ParamSpec, name: &str, required: bool, description: &str) -> bool {
    &&& p.name@ == name@
    &&& p.kind@ == "string"@
    &&& p.required == required
    &&& p.description@ == description@
}

/// `c` is a command with these attributes that requires authentication.
pub open spec fn command_is(
    c: CommandSpec,
    name: &str,
    category: &str,
    wave: u8,
    mode: &str,
    summary: &str,
) -> bool {
    &&& c.name@ == name@
    &&& c.category@ == category@
    &&& c.wave == wave
    &&& c.execution_mode@ == mode@
    &&& c.summary@ == summary@
    &&& c.requires_auth
}

/// `c` takes the single optional `notebook_id` parameter.
pub open spec fn takes_notebook_id(c: CommandSpec) -> bool {
    &&& c.params@.len() == 1
    &&& param_is(c.params@[0], "notebook_id", false, "Notebook ID (defaults to current)")
}

/// `c` takes the single required parameter `name`.
pub open spec fn takes_required(c: CommandSpec, name: &str, description: &str) -> bool {
    &&& c.params@.len() == 1
    &&& param_is(c.params@[0], name, true, description)
}

/// The command catalogue, entry by entry.
pub open spec fn is_command_table(s: Seq<CommandSpec>) -> bool {
    &&& s.len() == 13
    &&& command_is(s[0], "status", "read", 1, "rpc-first", "Check NotebookLM page availability and login state")
    &&& s[0].params@.len() == 0
    &&& command_is(s[1], "list", "read", 1, "rpc-first", "List all notebooks")
    &&& s[1].params@.len() == 0
    &&& command_is(s[2], "get", "read", 1, "rpc-first", "Get notebook metadata (emoji, source count, timestamps)")
    &&& takes_notebook_id(s[2])
    &&& command_is(s[3], "summary", "read", 1, "rpc-first", "Get the summary block from a notebook")
    &&& takes_notebook_id(s[3])
    &&& command_is(s[4], "source_list", "read", 1, "rpc-first", "List sources in a notebook")
    &&& takes_notebook_id(s[4])
    &&& command_is(s[5], "source_get", "read", 1, "rpc-first", "Get a single source by ID or title")
    &&& takes_required(s[5], "source", "Source ID or title substring")
    &&& command_is(s[6], "source_fulltext", "read", 2, "rpc-first", "Get full text content of a source")
    &&& takes_required(s[6], "source", "Source ID or title substring")
    &&& command_is(s[7], "source_guide", "read", 2, "rpc-first", "Get guide summary and keywords for a source")
    &&& takes_required(s[7], "source", "Source ID or title substring")
    &&& command_is(s[8], "history", "read", 2, "rpc-first", "List conversation history threads")
    &&& takes_notebook_id(s[8])
    &&& command_is(s[9], "note_list", "read", 2, "ui-first", "List saved notes from the Studio panel")
    &&& takes_notebook_id(s[9])
    &&& command_is(s[10], "note_get", "read", 2, "ui-first", "Get content of a specific note")
    &&& takes_required(s[10], "note", "Note title or ID")
    &&& command_is(s[11], "note_create", "write", 2, "ui-first", "Create a new note in the Studio panel")
    &&& s[11].params@.len() == 3
    &&& param_is(s[11].params@[0], "notebook_id", false, "Notebook ID (defaults to current)")
    &&& param_is(s[11].params@[1], "title", false, "Note title")
    &&& param_is(s[11].params@[2], "content", false, "Note content")
    &&& command_is(s[12], "source_add_youtube", "write", 2, "ui-first", "Add a YouTube video as a source of a notebook")
    &&& s[12].params@.len() == 2
    &&& param_is(s[12].params@[0], "url", true, "YouTube video URL")
    &&& param_is(s[12].params@[1], "notebook_id", false, "Notebook ID (defaults to current, or a new notebook)")
}

fn param(name: &'static str, required: bool, description: &'static str) -> (p: ParamSpec)
    ensures
        param_is(p, name, required, description),
{
    ParamSpec { name, kind: "string", required, description }
}

fn command(
    name: &'static str,
    category: &'static str,
    wave: u8,
    execution_mode: &'static str,
    summary: &'static str,
    params: Vec<ParamSpec>,
) -> (c: CommandSpec)
    ensures
        command_is(c, name, category, wave, execution_mode, summary),
        c.params@ == params@,
{
    CommandSpec { name, category, wave, execution_mode, summary, requires_auth: true, params }
}

fn notebook_id_param() -> (v: Vec<ParamSpec>)
    ensures
        v@.len() == 1,
        param_is(v@[0], "notebook_id", false, "Notebook ID (defaults to current)"),
{
    let mut v = Vec::new();
    v.push(param("notebook_id", false, "Notebook ID (defaults to current)"));
    v
}

fn required_param(name: &'static str, description: &'static str) -> (v: Vec<ParamSpec>)
    ensures
        v@.len() == 1,
        param_is(v@[0], name, true, description),
{
    let mut v = Vec::new();
    v.push(param(name, true, description));
    v
}

/// Every command the tool offers, in catalogue order.
pub fn command_specs() -> (r: Vec<CommandSpec>)
    ensures
        is_command_table(r@),
{
    let mut r: Vec<CommandSpec> = Vec::new();
    // Wave 1: read-only basics
    r.push(command("status", "read", 1, "rpc-first", "Check NotebookLM page availability and login state", Vec::new()));
    r.push(command("list", "read", 1, "rpc-first", "List all notebooks", Vec::new()));
    r.push(command("get", "read", 1, "rpc-first", "Get notebook metadata (emoji, source count, timestamps)", notebook_id_param()));
    r.push(command("summary", "read", 1, "rpc-first", "Get the summary block from a notebook", notebook_id_param()));
    r.push(command("source_list", "read", 1, "rpc-first", "List sources in a notebook", notebook_id_param()));
    r.push(command("source_get", "read", 1, "rpc-first", "Get a single source by ID or title", required_param("source", "Source ID or title substring")));
    // Wave 2: read-only deep
    r.push(command("source_fulltext", "read", 2, "rpc-first", "Get full text content of a source", required_param("source", "Source ID or title substring")));
    r.push(command("source_guide", "read", 2, "rpc-first", "Get guide summary and keywords for a source", required_param("source", "Source ID or title substring")));
    r.push(command("history", "read", 2, "rpc-first", "List conversation history threads", notebook_id_param()));
    r.push(command("note_list", "read", 2, "ui-first", "List saved notes from the Studio panel", notebook_id_param()));
    r.push(command("note_get", "read", 2, "ui-first", "Get content of a specific note", required_param("note", "Note title or ID")));
    // Wave 2: writes
    let mut create_params: Vec<ParamSpec> = Vec::new();
    create_params.push(param("notebook_id", false, "Notebook ID (defaults to current)"));
    create_params.push(param("title", false, "Note title"));
    create_params.push(param("content", false, "Note content"));
    r.push(command("note_create", "write", 2, "ui-first", "Create a new note in the Studio panel", create_params));
    let mut youtube_params: Vec<ParamSpec> = Vec::new();
    youtube_params.push(param("url", true, "YouTube video URL"));
    youtube_params.push(param("notebook_id", false, "Notebook ID (defaults to current, or a new notebook)"));
    r.push(command("source_add_youtube", "write", 2, "ui-first", "Add a YouTube video as a source of a notebook", youtube_params));
    r
}

/// `t` is the MCP tool `name` that runs `command` and requires authentication.
pub open spec fn tool_is(t: ToolSpec, name: &str, command: &str, read_only: bool) -> bool {
    &&& t.name@ == name@
    &&& t.command@ == command@
    &&& t.read_only == read_only
    &&& t.requires_auth
}

/// The MCP tool catalogue, entry by entry.
pub open spec fn is_tool_table(s: Seq<ToolSpec>) -> bool {
    &&& s.len() == 13
    &&& tool_is(s[0], "notebooklm_status", "status", true)
    &&& tool_is(s[1], "notebooklm_list", "list", true)
    &&& tool_is(s[2], "notebooklm_get", "get", true)
    &&& tool_is(s[3], "notebooklm_summary", "summary", true)
    &&& tool_is(s[4], "notebooklm_source_list", "source_list", true)
    &&& tool_is(s[5], "notebooklm_source_get", "source_get", true)
    &&& tool_is(s[6], "notebooklm_source_fulltext", "source_fulltext", true)
    &&& tool_is(s[7], "notebooklm_source_guide", "source_guide", true)
    &&& tool_is(s[8], "notebooklm_history", "history", true)
    &&& tool_is(s[9], "notebooklm_note_list", "note_list", true)
    &&& tool_is(s[10], "notebooklm_note_get", "note_get", true)
    &&& tool_is(s[11], "notebooklm_note_create", "note_create", false)
    &&& tool_is(s[12], "notebooklm_source_add_youtube", "source_add_youtube", false)
}

fn tool(name: &'static str, command: &'static str, read_only: bool) -> (t: ToolSpec)
    ensures
        tool_is(t, name, command, read_only),
{
    ToolSpec { name, command, read_only, requires_auth: true }
}

/// Every MCP tool the tool exposes, in catalogue order.
pub fn tool_specs() -> (r: Vec<ToolSpec>)
    ensures
        is_tool_table(r@),
{
    let mut r: Vec<ToolSpec> = Vec::new();
    r.push(tool("notebooklm_status", "status", true));
    r.push(tool("notebooklm_list", "list", true));
    r.push(tool("notebooklm_get", "get", true));
    r.push(tool("notebooklm_summary", "summary", true));
    r.push(tool("notebooklm_source_list", "source_list", true));
    r.push(tool("notebooklm_source_get", "source_get", true));
    r.push(tool("notebooklm_source_fulltext", "source_fulltext", true));
    r.push(tool("notebooklm_source_guide", "source_guide", true));
    r.push(tool("notebooklm_history", "history", true));
    r.push(tool("notebooklm_note_list", "note_list", true));
    r.push(tool("notebooklm_note_get", "note_get", true));
    r.push(tool("notebooklm_note_create", "note_create", false));
    r.push(tool("notebooklm_source_add_youtube", "source_add_youtube", false));
    r
}

/// `s` is the authenticated skill `name` with this summary.
pub open spec fn skill_is(s: SkillSpec, name: &str, summary: &str) -> bool {
    &&& s.name@ == name@
    &&& s.summary@ == summary@
    &&& s.requires_auth
}

/// The skill catalogue, entry by entry, with the steps of each.
pub open spec fn is_skill_table(s: Seq<SkillSpec>) -> bool {
    &&& s.len() == 3
    &&& skill_is(s[0], "research_notebook", "Get notebook overview: summary + source list + conversation history")
    &&& s[0].steps@.len() == 3
    &&& s[0].steps@[0].uses@ == "summary"@
    &&& s[0].steps@[1].uses@ == "source_list"@
    &&& s[0].steps@[2].uses@ == "history"@
    &&& skill_is(s[1], "deep_read_source", "Deep-read a source: guide summary + full text")
    &&& s[1].steps@.len() == 2
    &&& s[1].steps@[0].uses@ == "source_guide"@
    &&& s[1].steps@[1].uses@ == "source_fulltext"@
    &&& skill_is(s[2], "notebook_overview", "Global overview: list all notebooks and check status")
    &&& s[2].steps@.len() == 2
    &&& s[2].steps@[0].uses@ == "list"@
    &&& s[2].steps@[1].uses@ == "status"@
}

fn step(uses: &'static str) -> (s: SkillStep)
    ensures
        s.uses@ == uses@,
{
    SkillStep { uses }
}

/// Every skill, in catalogue order.
pub fn skill_specs() -> (r: Vec<SkillSpec>)
    ensures
        is_skill_table(r@),
{
    let mut research: Vec<SkillStep> = Vec::new();
    research.push(step("summary"));
    research.push(step("source_list"));
    research.push(step("history"));
    let mut deep: Vec<SkillStep> = Vec::new();
    deep.push(step("source_guide"));
    deep.push(step("source_fulltext"));
    let mut overview: Vec<SkillStep> = Vec::new();
    overview.push(step("list"));
    overview.push(step("status"));
    let mut r: Vec<SkillSpec> = Vec::new();
    r.push(SkillSpec {
        name: "research_notebook",
        summary: "Get notebook overview: summary + source list + conversation history",
        requires_auth: true,
        steps: research,
    });
    r.push(SkillSpec {
        name: "deep_read_source",
        summary: "Deep-read a source: guide summary + full text",
        requires_auth: true,
        steps: deep,
    });
    r.push(SkillSpec {
        name: "notebook_overview",
        summary: "Global overview: list all notebooks and check status",
        requires_auth: true,
        steps: overview,
    });
    r
}

/// The base URL a server at `host` and `port` answers on.
pub open spec fn base_url_of(host: Seq<char>, port: u16) -> Seq<char> {
    "http://"@ + host + seq![':'] + decimal(port as nat)
}

/// The full manifest for a configuration file at `config_path` and a server at
/// `host`:`port`.
pub fn build_manifest(config_path: String, host: String, port: u16) -> (m: DescribeManifest)
    ensures
        m.site.id@ == "notebooklm"@,
        m.site.name@ == "NotebookLM CLI"@,
        m.site.version@ == PACKAGE_VERSION@,
        m.runtime.binary@ == "notebooklm-cli"@,
        m.runtime.config_path@ == config_path@,
        m.server_defaults.host@ == host@,
        m.server_defaults.port == port,
        m.server_defaults.base_url@ == base_url_of(host@, port),
        m.auth_model.mode@ == "shared-password"@,
        m.auth_model.cookie_name@ == "notebooklm_cli_token"@,
        m.auth_model.bearer_format@ == "Authorization: Bearer <password>"@,
        m.auth_model.first_run_requires_password_setup,
        m.agent_browser.binding@ == "cli"@,
        m.agent_browser.binary_auto_detect,
        m.agent_browser.multi_account,
        m.agent_browser.default_session_name@ == "notebooklm-cli"@,
        is_command_table(m.commands@),
        is_tool_table(m.mcp_tools@),
        is_skill_table(m.skills@),
{
    let head = concat2("http://", host.as_str());
    let with_colon = concat2(head.as_str(), ":");
    let digits = decimal_string(port as u64);
    let base_url = concat2(with_colon.as_str(), digits.as_str());
    proof {
        reveal_strlit(":");
        assert(base_url@ =~= base_url_of(host@, port));
    }
    DescribeManifest {
        site: SiteSpec { id: "notebooklm", name: "NotebookLM CLI", version: PACKAGE_VERSION },
        runtime: RuntimeSpec { binary: "notebooklm-cli", config_path },
        server_defaults: ServerDefaults { base_url, host, port },
        auth_model: AuthModelSpec {
            mode: "shared-password",
            cookie_name: "notebooklm_cli_token",
            bearer_format: "Authorization: Bearer <password>",
            first_run_requires_password_setup: true,
        },
        agent_browser: AgentBrowserSpec {
            binding: "cli",
            binary_auto_detect: true,
            multi_account: true,
            default_session_name: "notebooklm-cli",
        },
        commands: command_specs(),
        mcp_tools: tool_specs(),
        skills: skill_specs(),
    }
}

/// Tool `i` of the catalogue runs command `i` of the command catalogue; its name is
/// `notebooklm_` followed by the command's name; it is read-only exactly when the
/// command reads.
pub proof fn law_tools_expose_commands(cmds: Seq<CommandSpec>, tools: Seq<ToolSpec>)
    requires
        is_command_table(cmds),
        is_tool_table(tools),
    ensures
        tools.len() == cmds.len(),
        forall|i: int|
            0 <= i < tools.len() ==> {
                &&& #[trigger] tools[i].command@ == cmds[i].name@
                &&& tools[i].name@ == "notebooklm_"@ + cmds[i].name@
                &&& tools[i].read_only == (cmds[i].category@ == "read"@)
            },
{
    reveal_strlit("notebooklm_");
    reveal_strlit("read");
    reveal_strlit("write");
    reveal_strlit("status");
    reveal_strlit("list");
    reveal_strlit("get");
    reveal_strlit("summary");
    reveal_strlit("source_list");
    reveal_strlit("source_get");
    reveal_strlit("source_fulltext");
    reveal_strlit("source_guide");
    reveal_strlit("history");
    reveal_strlit("note_list");
    reveal_strlit("note_get");
    reveal_strlit("note_create");
    reveal_strlit("source_add_youtube");
    reveal_strlit("notebooklm_status");
    reveal_strlit("notebooklm_list");
    reveal_strlit("notebooklm_get");
    reveal_strlit("notebooklm_summary");
    reveal_strlit("notebooklm_source_list");
    reveal_strlit("notebooklm_source_get");
    reveal_strlit("notebooklm_source_fulltext");
    reveal_strlit("notebooklm_source_guide");
    reveal_strlit("notebooklm_history");
    reveal_strlit("notebooklm_note_list");
    reveal_strlit("notebooklm_note_get");
    reveal_strlit("notebooklm_note_create");
    reveal_strlit("notebooklm_source_add_youtube");
    assert forall|i: int| 0 <= i < tools.len() implies {
        &&& #[trigger] tools[i].command@ == cmds[i].name@
        &&& tools[i].name@ == "notebooklm_"@ + cmds[i].name@
        &&& tools[i].read_only == (cmds[i].category@ == "read"@)
    } by {
        assert(tools[i].name@ =~= "notebooklm_"@ + cmds[i].name@);
        assert(cmds[i].category@ == "read"@ || cmds[i].category@.len() != "read"@.len());
    }
}

/// Every step of every skill uses a command of the command catalogue.
pub proof fn law_skill_steps_use_commands(cmds: Seq<CommandSpec>, skills: Seq<SkillSpec>)
    requires
        is_command_table(cmds),
        is_skill_table(skills),
    ensures
        forall|i: int, k: int|
            0 <= i < skills.len() && 0 <= k < skills[i].steps@.len() ==> exists|j: int|
                0 <= j < cmds.len() && cmds[j].name@ == #[trigger] skills[i].steps@[k].uses@,
{
    assert forall|i: int, k: int|
        0 <= i < skills.len() && 0 <= k < skills[i].steps@.len() implies exists|j: int|
            0 <= j < cmds.len() && cmds[j].name@ == #[trigger] skills[i].steps@[k].uses@ by {
        if i == 0 {
            if k == 0 { assert(cmds[3].name@ == skills[i].steps@[k].uses@); }
            else if k == 1 { assert(cmds[4].name@ == skills[i].steps@[k].uses@); }
            else { assert(cmds[8].name@ == skills[i].steps@[k].uses@); }
        } else if i == 1 {
            if k == 0 { assert(cmds[7].name@ == skills[i].steps@[k].uses@); }
            else { assert(cmds[6].name@ == skills[i].steps@[k].uses@); }
        } else {
            if k == 0 { assert(cmds[1].name@ == skills[i].steps@[k].uses@); }
            else { assert(cmds[0].name@ == skills[i].steps@[k].uses@); }
        }
    }
}

/// No two commands of the catalogue share a name.
pub proof fn law_command_names_distinct(cmds: Seq<CommandSpec>)
    requires
        is_command_table(cmds),
    ensures
        forall|i: int, j: int|
            0 <= i < cmds.len() && 0 <= j < cmds.len() && i != j ==> #[trigger] cmds[i].name@
                != #[trigger] cmds[j].name@,
{
    reveal_strlit("status");
    reveal_strlit("list");
    reveal_strlit("get");
    reveal_strlit("summary");
    reveal_strlit("source_list");
    reveal_strlit("source_get");
    reveal_strlit("source_fulltext");
    reveal_strlit("source_guide");
    reveal_strlit("history");
    reveal_strlit("note_list");
    reveal_strlit("note_get");
    reveal_strlit("note_create");
    reveal_strlit("source_add_youtube");
    // The names differ in length, or else in their first letter.
    assert forall|i: int, j: int|
        0 <= i < cmds.len() && 0 <= j < cmds.len() && i != j implies #[trigger] cmds[i].name@
            != #[trigger] cmds[j].name@ by {
        let a = cmds[i].name@;
        let b = cmds[j].name@;
        assert(a.len() != b.len() || a[0] != b[0]);
    }
}

} // verus!
