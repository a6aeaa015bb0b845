//! The NotebookLM RPC layer: page addresses, RPC identifiers, the page-state probe,
//! the in-page RPC script, and how its answer and the page state are read.
use vstd::prelude::*;

use crate::error::{AppError, invalid_params_message};
use crate::json::{json_string, json_string_literal};
use crate::text::{concat3, concat5, contains_seq, occurs_at, str_eq};

verus! {

pub const NOTEBOOKLM_DOMAIN: &'static str = "notebooklm.google.com";

pub const NOTEBOOKLM_HOME_URL: &'static str = "https://notebooklm.google.com/";

pub const RPC_LIST: &'static str = "wXbhsf";

pub const RPC_NOTEBOOK_DETAIL: &'static str = "rLM1Ne";

pub const RPC_HISTORY_THREADS: &'static str = "hPTbtc";

pub const RPC_HISTORY_DETAIL: &'static str = "khqZz";

pub const RPC_SOURCE_FULLTEXT: &'static str = "hizoJc";

pub const RPC_SOURCE_GUIDE: &'static str = "tr032e";

/// The parameters of the notebook-list RPC.
pub const LIST_RPC_PARAMS: &'static str = "[null, 1, null, [2]]";

/// The error code the in-page script reports when the page holds no login.
pub const LOGIN_REQUIRED_CODE: &'static str = "NOTEBOOKLM_LOGIN_REQUIRED";

/// What the page-state probe reports about the open page.
#[derive(Debug, Clone)]
pub struct PageState {
    pub url: String,
    pub title: String,
    pub hostname: String,
    pub kind: String,
    pub notebook_id: String,
    pub login_required: bool,
    pub notebook_count: u32,
    pub google_account: String,
}

/// The script that reports the page state as JSON.
pub const PAGE_STATE_SCRIPT: &'static str = r#"(async () => {
        const url = window.location.href;
        const title = document.title || '';
        const hostname = window.location.hostname || '';
        const notebookMatch = url.match(/\/notebook\/([^/?#]+)/);
        const notebookId = notebookMatch ? notebookMatch[1] : '';
        const kind = notebookId
            ? 'notebook'
            : (hostname === 'notebooklm.google.com' ? 'home' : 'unknown');

        const textNodes = Array.from(document.querySelectorAll('a, button, [role="button"], h1, h2'))
            .map(node => (node.textContent || '').trim().toLowerCase())
            .filter(Boolean);
        let loginRequired = textNodes.some(text =>
            text.includes('sign in') ||
            text.includes('log in')
        );

        // Check if page auth tokens exist to override heuristic
        if (loginRequired && hostname === 'notebooklm.google.com') {
            const wiz = window.WIZ_global_data || {};
            const html = document.documentElement.innerHTML;
            const csrf = (typeof wiz.SNlM0e === 'string' && wiz.SNlM0e) || (html.match(/"SNlM0e":"([^"]+)"/) || [])[1] || '';
            const sid = (typeof wiz.FdrFJe === 'string' && wiz.FdrFJe) || (html.match(/"FdrFJe":"([^"]+)"/) || [])[1] || '';
            if (csrf && sid) loginRequired = false;
        }

        const notebookCount = Array.from(document.querySelectorAll('a[href*="/notebook/"]'))
            .map(node => node instanceof HTMLAnchorElement ? node.href : '')
            .filter(Boolean)
            .reduce((count, href, index, list) => list.indexOf(href) === index ? count + 1 : count, 0);

        const emailRegex = /[A-Z0-9._%+-]+@[A-Z0-9.-]+\.[A-Z]{2,}/ig;
        const candidates = [
            title,
            document.body?.innerText || '',
            ...Array.from(document.querySelectorAll('[aria-label], [title]')).flatMap(node => [
                node.getAttribute('aria-label') || '',
                node.getAttribute('title') || '',
            ]),
        ];
        const googleAccount = candidates
            .flatMap(text => (text.match(emailRegex) || []).map(value => value.trim()))
            .find(Boolean) || '';

        return JSON.stringify({ url, title, hostname, kind, notebookId, loginRequired, notebookCount, googleAccount });
    })()"#;

/// The in-page RPC script, around the quoted RPC identifier and the parameters.
pub const RPC_SCRIPT_0: &'static str = r#"(async () => {
            const wiz = window.WIZ_global_data || {};
            const html = document.documentElement.innerHTML;
            const csrfToken = (typeof wiz.SNlM0e === 'string' && wiz.SNlM0e) || (html.match(/"SNlM0e":"([^"]+)"/) || [])[1] || '';
            const sessionId = (typeof wiz.FdrFJe === 'string' && wiz.FdrFJe) || (html.match(/"FdrFJe":"([^"]+)"/) || [])[1] || '';

            if (!csrfToken || !sessionId) {
                return JSON.stringify({ error: 'NOTEBOOKLM_LOGIN_REQUIRED', message: 'No auth tokens found' });
            }

            const rpcId = "#;

pub const RPC_SCRIPT_1: &'static str = r#";
            const params = "#;

pub const RPC_SCRIPT_2: &'static str = r#";
            const rpcRequest = [[[rpcId, JSON.stringify(params), null, 'generic']]];
            const body = 'f.req=' + encodeURIComponent(JSON.stringify(rpcRequest)) + '&at=' + encodeURIComponent(csrfToken) + '&';
            const url = 'https://notebooklm.google.com/_/LabsTailwindUi/data/batchexecute'
                + '?rpcids=' + rpcId
                + '&source-path=' + encodeURIComponent(location.pathname || '/')
                + '&hl=en'
                + '&f.sid=' + encodeURIComponent(sessionId)
                + '&rt=c';

            const resp = await fetch(url, {
                method: 'POST',
                headers: { 'Content-Type': 'application/x-www-form-urlencoded;charset=UTF-8' },
                body: body,
                credentials: 'include',
            });

            if (resp.status === 401 || resp.status === 403) {
                return JSON.stringify({ error: 'NOTEBOOKLM_LOGIN_REQUIRED', message: 'Auth error ' + resp.status });
            }
            if (!resp.ok) {
                return JSON.stringify({ error: 'NOTEBOOKLM_RPC_FAILED', message: 'HTTP ' + resp.status });
            }

            const rawBody = await resp.text();
            // Strip anti-XSSI prefix
            const cleaned = rawBody.replace(/^\)\]\}'\r?\n/, '').trim();
            if (!cleaned) return JSON.stringify({ error: 'NOTEBOOKLM_RPC_FAILED', message: 'Empty response' });

            // Parse chunked response
            const lines = cleaned.split('\n');
            const chunks = [];
            for (let i = 0; i < lines.length; i++) {
                const line = lines[i].trim();
                if (!line) continue;
                if (/^\d+$/.test(line)) {
                    const nextLine = lines[i + 1];
                    if (nextLine) {
                        try { chunks.push(JSON.parse(nextLine)); } catch {}
                        i++;
                    }
                    continue;
                }
                if (line.startsWith('[')) {
                    try { chunks.push(JSON.parse(line)); } catch {}
                }
            }

            // Extract RPC result
            for (const chunk of chunks) {
                if (!Array.isArray(chunk)) continue;
                const items = Array.isArray(chunk[0]) ? chunk : [chunk];
                for (const item of items) {
                    if (!Array.isArray(item) || item.length < 1) continue;
                    if (item[0] === 'er') {
                        const errorCode = typeof item[2] === 'number' ? item[2] : (typeof item[5] === 'number' ? item[5] : null);
                        if (errorCode === 401 || errorCode === 403) {
                            return JSON.stringify({ error: 'NOTEBOOKLM_LOGIN_REQUIRED', message: 'RPC auth error ' + errorCode });
                        }
                        return JSON.stringify({ error: 'NOTEBOOKLM_RPC_FAILED', message: 'RPC error' + (errorCode ? ' code=' + errorCode : '') });
                    }
                    if (item[0] === 'wrb.fr' && item[1] === rpcId) {
                        const payload = item[2];
                        if (typeof payload === 'string') {
                            try { return JSON.stringify({ result: JSON.parse(payload) }); } catch {}
                            return JSON.stringify({ result: payload });
                        }
                        return JSON.stringify({ result: payload });
                    }
                }
            }

            return JSON.stringify({ result: null });
        })()"#;

/// The address of a notebook's page.
pub open spec fn notebook_url_of(notebook_id: Seq<char>) -> Seq<char> {
    "https://"@ + NOTEBOOKLM_DOMAIN@ + "/notebook/"@ + notebook_id
}

/// The address of the page of notebook `notebook_id`.
pub fn notebook_url(notebook_id: &str) -> (r: String)
    ensures
        r@ == notebook_url_of(notebook_id@),
{
    let mut r = concat3("https://", NOTEBOOKLM_DOMAIN, "/notebook/");
    r.append(notebook_id);
    r
}

/// The notebook named by the request, if it names one (an empty name names none).
pub fn explicit_notebook_id(param: Option<&str>) -> (r: Option<String>)
    ensures
        r is Some <==> (param is Some && param->0@.len() > 0),
        r matches Some(id) ==> id@ == param->0@,
{
    match param {
        Some(id) => {
            if id.unicode_len() > 0 {
                Some(String::from_str(id))
            } else {
                None
            }
        },
        None => None,
    }
}

/// The notebook the open page shows, as the request's target.
pub fn notebook_id_from_page(state: &PageState) -> (r: Result<String, AppError>)
    ensures
        state.login_required ==> r matches Err(AppError::NotebooklmLoginRequired),
        !state.login_required && state.kind@ == "notebook"@ && state.notebook_id@.len() > 0
            ==> (r matches Ok(id) && id@ == state.notebook_id@),
        !state.login_required && !(state.kind@ == "notebook"@ && state.notebook_id@.len() > 0)
            ==> r is Err && invalid_params_message(r->Err_0) == Some(
            "notebook_id is required (not currently on a notebook page)"@,
        ),
{
    if state.login_required {
        return Err(AppError::NotebooklmLoginRequired);
    }
    if str_eq(state.kind.as_str(), "notebook") && state.notebook_id.as_str().unicode_len() > 0 {
        return Ok(state.notebook_id.clone());
    }
    Err(AppError::InvalidParams(String::from_str("notebook_id is required (not currently on a notebook page)")))
}

/// The in-page script that calls RPC `rpc_id` with `params_json` and reports its result.
pub open spec fn rpc_script_of(rpc_id: Seq<char>, params_json: Seq<char>) -> Seq<char> {
    RPC_SCRIPT_0@ + json_string(rpc_id) + RPC_SCRIPT_1@ + params_json + RPC_SCRIPT_2@
}

/// The RPC script names the RPC as a JSON string, and sends `params_json` as data:
/// its JSON text stands verbatim right after `const params = `.
pub proof fn law_rpc_script_sends_params_as_data(rpc_id: Seq<char>, params_json: Seq<char>)
    ensures
        contains_seq(rpc_script_of(rpc_id, params_json), json_string(rpc_id)),
        contains_seq(rpc_script_of(rpc_id, params_json), "const params = "@ + params_json),
{
    reveal_strlit(";
            const params = ");
    reveal_strlit("const params = ");
    let script = rpc_script_of(rpc_id, params_json);
    let at = RPC_SCRIPT_0@.len() as int;
    assert(script.subrange(at, at + json_string(rpc_id).len()) =~= json_string(rpc_id));
    assert(occurs_at(script, json_string(rpc_id), at));
    let s1 = RPC_SCRIPT_1@;
    let at2 = (RPC_SCRIPT_0@ + json_string(rpc_id) + s1).len() - "const params = "@.len();
    let field = "const params = "@ + params_json;
    assert(s1.subrange(s1.len() - "const params = "@.len(), s1.len() as int) =~= "const params = "@);
    assert(script.subrange(at2, at2 + field.len()) =~= field);
    assert(occurs_at(script, field, at2));
}

/// Builds the in-page script for RPC `rpc_id` with `params_json`.
pub fn build_rpc_eval_script(rpc_id: &str, params_json: &str) -> (r: String)
    ensures
        r@ == rpc_script_of(rpc_id@, params_json@),
{
    let quoted = match json_string_literal(rpc_id) {
        Ok(q) => q,
        Err(_) => String::new(),
    };
    concat5(RPC_SCRIPT_0, quoted.as_str(), RPC_SCRIPT_1, params_json, RPC_SCRIPT_2)
}

/// How the answer of the RPC script is read: no error code means success; the
/// login code means the page holds no login; any other code is an RPC failure
/// that carries the script's message, or the code itself when there is none.
pub fn rpc_outcome(error: Option<&str>, message: Option<String>) -> (r: Result<(), AppError>)
    ensures
        error is None ==> r is Ok,
        error matches Some(e) && e@ == LOGIN_REQUIRED_CODE@ ==> r matches Err(
            AppError::NotebooklmLoginRequired,
        ),
        error matches Some(e) && e@ != LOGIN_REQUIRED_CODE@ ==> (r matches Err(
            AppError::NotebooklmRpcFailed(m),
        ) && m@ == (match message {
            Some(t) => t@,
            None => error->0@,
        })),
{
    match error {
        None => Ok(()),
        Some(e) => {
            if str_eq(e, LOGIN_REQUIRED_CODE) {
                Err(AppError::NotebooklmLoginRequired)
            } else {
                let m = match message {
                    Some(t) => t,
                    None => String::from_str(e),
                };
                Err(AppError::NotebooklmRpcFailed(m))
            }
        },
    }
}

/// The parameters of the notebook-detail RPC for one notebook.
pub open spec fn detail_rpc_params_of(notebook_id: Seq<char>) -> Seq<char> {
    "[\""@ + notebook_id + "\", null, [2], null, 0]"@
}

/// Builds the parameters of the notebook-detail RPC for `notebook_id`.
pub fn detail_rpc_params(notebook_id: &str) -> (r: String)
    ensures
        r@ == detail_rpc_params_of(notebook_id@),
{
    concat3("[\"", notebook_id, "\", null, [2], null, 0]")
}

} // verus!
