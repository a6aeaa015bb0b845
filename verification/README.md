# notebooklm-cli

A command-line tool and local control service for NotebookLM that drives a
browser through the `agent-browser` CLI. This crate holds its verified core.

## Layout

- `src/` — the library, verified with Verus:
  - `manifest` — the catalogue of commands, MCP tools and skills, with laws that
    tie them together (every tool exposes a command, every skill step uses one,
    command names are distinct).
  - `commands::executor` — which command a request runs and the checks on its
    CDP port; every catalogue command has an implementation.
  - `notebooklm::rpc`, `notebooklm::commands::*` — the scripts sent to the page,
    the parameter checks, and the decisions taken on what the page answers.
    `add_source_flow` is the UI flow that submits a website source, written as a
    machine from phase and browser answer to the next step, with laws that it
    always ends and only ever types the requested URL.
  - `preview` — note previews: keys, preview texts, the collection of one port
    (`PortSyncRun`) and of all ports (`PreviewSyncRun`), and the status of the
    periodic collection.
  - `discovery` — which account a probe found and what is recorded per port.
  - `server::routes` — authentication by session cookie or bearer token, which
    routes are protected, the first-run password setup, login and logout answers,
    configuration updates, and the bounded execution history.
  - `embedded` — which embedded file answers a request path, and its media type.
  - `text`, `json` — string helpers with exact specifications over `Seq<char>`.
- `tests/` — tests of the library on concrete values.
- `app/` — the runtime around the library: the `agent-browser` process, the
  SQLite store, the background loops, and the HTTP routes.
