//! Choosing and checking the command a request runs.
use vstd::prelude::*;

use crate::error::{AppError, invalid_params_message};
use crate::server::routes::AgentBrowserSettings;
use crate::manifest::{CommandSpec, command_specs, is_command_table};
use crate::text::{concat2, concat3, join_seqs, join_strings, str_eq};

verus! {

/// The commands that can be run, looked up by name.
#[derive(Debug, Clone)]
pub struct CommandRegistry {
    pub commands: Vec<CommandSpec>,
}

/// Command `i` of `commands` is the first named `name`.
pub open spec fn first_named(commands: Seq<CommandSpec>, name: Seq<char>, i: int) -> bool {
    &&& 0 <= i < commands.len()
    &&& commands[i].name@ == name
    &&& forall|j: int| 0 <= j < i ==> (#[trigger] commands[j]).name@ != name
}

/// Some command of `commands` is named `name`.
pub open spec fn is_registered(commands: Seq<CommandSpec>, name: Seq<char>) -> bool {
    exists|i: int| 0 <= i < commands.len() && (#[trigger] commands[i]).name@ == name
}

impl CommandRegistry {
    /// The registry of every command of the catalogue.
    pub fn new() -> (r: Self)
        ensures
            is_command_table(r.commands@),
    {
        CommandRegistry { commands: command_specs() }
    }

    /// The index of the first command named `name`, if any.
    pub fn position(&self, name: &str) -> (r: Option<usize>)
        ensures
            match r {
                Some(i) => first_named(self.commands@, name@, i as int),
                None => !is_registered(self.commands@, name@),
            },
    {
        let n = self.commands.len();
        let mut i: usize = 0;
        while i < n
            invariant
                n == self.commands.len(),
                i <= n,
                forall|j: int| 0 <= j < i ==> (#[trigger] self.commands@[j]).name@ != name@,
            decreases n - i,
        {
            if str_eq(self.commands[i].name, name) {
                return Some(i);
            }
            i = i + 1;
        }
        None
    }

    /// The first command named `name`, if any.
    pub fn get(&self, name: &str) -> (r: Option<&CommandSpec>)
        ensures
            match r {
                Some(c) => exists|i: int| first_named(self.commands@, name@, i) && *c == self.commands@[i],
                None => !is_registered(self.commands@, name@),
            },
    {
        match self.position(name) {
            Some(i) => Some(&self.commands[i]),
            None => None,
        }
    }
}

/// The implementations a command can run.
#[derive(Debug, Clone, Copy, PartialEq, Eq, Structural)]
pub enum CommandKind {
    Status,
    List,
    Get,
    Summary,
    SourceList,
    SourceGet,
    SourceFulltext,
    SourceGuide,
    History,
    NoteList,
    NoteGet,
    NoteCreate,
    SourceAddYoutube,
    /// Registered, with no implementation.
    Planned,
}

/// The implementation that runs the command named `name`.
pub open spec fn kind_of(name: Seq<char>) -> CommandKind {
    if name == "status"@ {
        CommandKind::Status
    } else if name == "list"@ {
        CommandKind::List
    } else if name == "get"@ {
        CommandKind::Get
    } else if name == "summary"@ {
        CommandKind::Summary
    } else if name == "source_list"@ {
        CommandKind::SourceList
    } else if name == "source_get"@ {
        CommandKind::SourceGet
    } else if name == "source_fulltext"@ {
        CommandKind::SourceFulltext
    } else if name == "source_guide"@ {
        CommandKind::SourceGuide
    } else if name == "history"@ {
        CommandKind::History
    } else if name == "note_list"@ {
        CommandKind::NoteList
    } else if name == "note_get"@ {
        CommandKind::NoteGet
    } else if name == "note_create"@ {
        CommandKind::NoteCreate
    } else if name == "source_add_youtube"@ {
        CommandKind::SourceAddYoutube
    } else {
        CommandKind::Planned
    }
}

/// Every command of the catalogue has an implementation: none of them is only planned.
pub proof fn law_catalogue_commands_are_implemented(cmds: Seq<CommandSpec>)
    requires
        is_command_table(cmds),
    ensures
        forall|i: int| 0 <= i < cmds.len() ==> kind_of(#[trigger] cmds[i].name@) != CommandKind::Planned,
{
}

/// The command an implementation carries out, by name; none for a planned command.
pub open spec fn implementation_name(k: CommandKind) -> Seq<char> {
    match k {
        CommandKind::Status => "status"@,
        CommandKind::List => "list"@,
        CommandKind::Get => "get"@,
        CommandKind::Summary => "summary"@,
        CommandKind::SourceList => "source_list"@,
        CommandKind::SourceGet => "source_get"@,
        CommandKind::SourceFulltext => "source_fulltext"@,
        CommandKind::SourceGuide => "source_guide"@,
        CommandKind::History => "history"@,
        CommandKind::NoteList => "note_list"@,
        CommandKind::NoteGet => "note_get"@,
        CommandKind::NoteCreate => "note_create"@,
        CommandKind::SourceAddYoutube => "source_add_youtube"@,
        CommandKind::Planned => Seq::empty(),
    }
}

/// Each command of the catalogue runs the implementation of that very command, so
/// two different commands never run the same implementation.
pub proof fn law_catalogue_commands_run_their_own_implementation(cmds: Seq<CommandSpec>)
    requires
        is_command_table(cmds),
    ensures
        forall|i: int| 0 <= i < cmds.len() ==> implementation_name(#[trigger] kind_of(cmds[i].name@)) == cmds[i].name@,
        forall|i: int, j: int|
            0 <= i < cmds.len() && 0 <= j < cmds.len() && i != j ==> #[trigger] kind_of(cmds[i].name@)
                != #[trigger] kind_of(cmds[j].name@),
{
    reveal_strlit("status");
    reveal_strlit("list");
    reveal_strlit("get");
    reveal_strlit("summary");
    reveal_strlit("source_list");
    reveal_strlit("source_get");
    reveal_strlit("source_fulltext");
    reveal_strlit("source_guide");
    reveal_strlit("history");
    reveal_strlit("note_list");
    reveal_strlit("note_get");
    reveal_strlit("note_create");
    reveal_strlit("source_add_youtube");
    crate::manifest::law_command_names_distinct(cmds);
    assert forall|i: int, j: int|
        0 <= i < cmds.len() && 0 <= j < cmds.len() && i != j implies #[trigger] kind_of(cmds[i].name@)
            != #[trigger] kind_of(cmds[j].name@) by {
        assert(implementation_name(kind_of(cmds[i].name@)) == cmds[i].name@);
        assert(implementation_name(kind_of(cmds[j].name@)) == cmds[j].name@);
    }
}

/// The implementation that runs the command named `name`.
pub fn command_kind(name: &str) -> (r: CommandKind)
    ensures
        r == kind_of(name@),
{
    if str_eq(name, "status") {
        CommandKind::Status
    } else if str_eq(name, "list") {
        CommandKind::List
    } else if str_eq(name, "get") {
        CommandKind::Get
    } else if str_eq(name, "summary") {
        CommandKind::Summary
    } else if str_eq(name, "source_list") {
        CommandKind::SourceList
    } else if str_eq(name, "source_get") {
        CommandKind::SourceGet
    } else if str_eq(name, "source_fulltext") {
        CommandKind::SourceFulltext
    } else if str_eq(name, "source_guide") {
        CommandKind::SourceGuide
    } else if str_eq(name, "history") {
        CommandKind::History
    } else if str_eq(name, "note_list") {
        CommandKind::NoteList
    } else if str_eq(name, "note_get") {
        CommandKind::NoteGet
    } else if str_eq(name, "note_create") {
        CommandKind::NoteCreate
    } else if str_eq(name, "source_add_youtube") {
        CommandKind::SourceAddYoutube
    } else {
        CommandKind::Planned
    }
}

/// A checked request: what to run, and on which CDP port.
#[derive(Debug, Clone)]
pub struct Invocation {
    pub kind: CommandKind,
    pub command: String,
    pub cdp_port: String,
}

/// Runs the commands of a registry.
#[derive(Debug, Clone)]
pub struct CommandExecutor {
    pub registry: CommandRegistry,
}

/// The error for a request without a CDP port.
pub open spec fn port_required_message() -> Seq<char> {
    "cdp_port is required. Call notebooklm_accounts first to discover available accounts."@
}

/// The error for a CDP port that is not among the managed ones.
pub open spec fn unmanaged_port_message(port: Seq<char>, managed: Seq<String>) -> Seq<char> {
    "cdp_port "@ + port + " is not managed. Available: "@ + join_seqs(
        managed.map_values(|p: String| p@),
        ", "@,
    )
}

/// `port` is one of the managed ports.
pub open spec fn is_managed(port: Seq<char>, managed: Seq<String>) -> bool {
    exists|i: int| 0 <= i < managed.len() && (#[trigger] managed[i])@ == port
}

/// The port a request names may be used: any port when none are managed, else a managed one.
pub open spec fn port_allowed(port: Seq<char>, managed: Seq<String>) -> bool {
    managed.len() == 0 || is_managed(port, managed)
}

fn contains_port(managed: &Vec<String>, port: &str) -> (r: bool)
    ensures
        r == is_managed(port@, managed@),
{
    let n = managed.len();
    let mut i: usize = 0;
    while i < n
        invariant
            n == managed.len(),
            i <= n,
            forall|j: int| 0 <= j < i ==> (#[trigger] managed@[j])@ != port@,
        decreases n - i,
    {
        if str_eq(managed[i].as_str(), port) {
            return true;
        }
        i = i + 1;
    }
    false
}

impl CommandExecutor {
    pub fn new(registry: CommandRegistry) -> (r: Self)
        ensures
            r.registry == registry,
    {
        CommandExecutor { registry }
    }

    /// Checks a request for command `command_name` on CDP port `cdp_port` against the
    /// registry and the `managed_ports`: the command must be registered, the port must
    /// be given and not empty, and it must be managed when any ports are.
    pub fn plan(&self, command_name: &str, cdp_port: Option<&str>, managed_ports: &Vec<String>) -> (r: Result<
        Invocation,
        AppError,
    >)
        ensures
            !is_registered(self.registry.commands@, command_name@) ==> (r matches Err(
                AppError::CommandNotFound(m),
            ) && m@ == command_name@),
            is_registered(self.registry.commands@, command_name@) && (cdp_port is None
                || cdp_port->0@.len() == 0) ==> (r is Err && invalid_params_message(r->Err_0) == Some(
                port_required_message(),
            )),
            is_registered(self.registry.commands@, command_name@) && cdp_port is Some
                && cdp_port->0@.len() > 0 && !port_allowed(cdp_port->0@, managed_ports@) ==> (r is Err
                && invalid_params_message(r->Err_0) == Some(
                unmanaged_port_message(cdp_port->0@, managed_ports@),
            )),
            is_registered(self.registry.commands@, command_name@) && cdp_port is Some
                && cdp_port->0@.len() > 0 && port_allowed(cdp_port->0@, managed_ports@) ==> (r matches Ok(
                inv,
            ) && inv.kind == kind_of(command_name@) && inv.command@ == command_name@ && inv.cdp_port@
                == cdp_port->0@),
    {
        let idx = match self.registry.position(command_name) {
            Some(i) => i,
            None => return Err(AppError::CommandNotFound(String::from_str(command_name))),
        };
        let port = match cdp_port {
            Some(p) => {
                if p.unicode_len() == 0 {
                    return Err(
                        AppError::InvalidParams(
                            String::from_str(
                                "cdp_port is required. Call notebooklm_accounts first to discover available accounts.",
                            ),
                        ),
                    );
                }
                p
            },
            None => {
                return Err(
                    AppError::InvalidParams(
                        String::from_str(
                            "cdp_port is required. Call notebooklm_accounts first to discover available accounts.",
                        ),
                    ),
                );
            },
        };
        if managed_ports.len() > 0 && !contains_port(managed_ports, port) {
            let available = join_strings(managed_ports, ", ");
            let mut msg = concat3("cdp_port ", port, " is not managed. Available: ");
            msg.append(available.as_str());
            return Err(AppError::InvalidParams(msg));
        }
        let name = self.registry.commands[idx].name;
        Ok(Invocation { kind: command_kind(name), command: String::from_str(name), cdp_port: String::from_str(port) })
    }
}

/// The message of the answer for a registered command without an implementation.
pub fn planned_message(name: &str) -> (r: String)
    ensures
        r@ == "Command `"@ + name@ + "` is registered but not implemented yet"@,
{
    concat3("Command `", name, "` is registered but not implemented yet")
}

/// The answer for a registered command without an implementation.
#[derive(Debug, Clone)]
pub struct PlannedAnswer {
    pub status: &'static str,
    pub message: String,
}

/// The answer for the registered command `name` that has no implementation yet.
pub fn planned_answer(name: &str) -> (r: PlannedAnswer)
    ensures
        r.status@ == "planned"@,
        r.message@ == "Command `"@ + name@ + "` is registered but not implemented yet"@,
{
    PlannedAnswer { status: "planned", message: planned_message(name) }
}

/// How the browser behind a CDP port is driven: which binary, port, session and
/// time limit.
#[derive(Debug, Clone)]
pub struct BrowserOptions {
    pub binary: String,
    pub cdp_port: String,
    pub session_name: String,
    pub timeout_secs: u64,
}

/// The browser a checked request runs on: the configured binary, session and time
/// limit, on the request's port.
pub fn browser_options(settings: &AgentBrowserSettings, invocation: &Invocation) -> (r: BrowserOptions)
    ensures
        r.binary@ == settings.binary@,
        r.cdp_port@ == invocation.cdp_port@,
        r.session_name@ == settings.session_name@,
        r.timeout_secs == settings.timeout_secs,
{
    BrowserOptions {
        binary: settings.binary.clone(),
        cdp_port: invocation.cdp_port.clone(),
        session_name: settings.session_name.clone(),
        timeout_secs: settings.timeout_secs,
    }
}

} // verus!
