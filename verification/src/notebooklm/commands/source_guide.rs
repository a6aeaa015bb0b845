//! `source_guide`: the guide summary and keywords of one source.
use vstd::prelude::*;

use crate::error::{AppError, invalid_params_message};
use crate::json::{json_string, json_string_literal};
use crate::notebooklm::commands::params::{string_or_default, string_or_empty};
use crate::notebooklm::commands::source_fulltext::source_not_found_message;
use crate::text::{concat3, concat5, contains_seq, has_suffix, occurs_at};

verus! {

/// The parameters of the guide RPC for `source_id`.
pub fn guide_rpc_params(source_id: &str) -> (r: String)
    ensures
        r@ == "[[[[\""@ + source_id@ + "\"]]]]"@,
{
    concat3("[[[[\"", source_id, "\"]]]]")
}

/// The script that finds a source (identifier and title) of a notebook-detail RPC
/// result, around the result's JSON and the quoted query; followed by the script that
/// reads a guide RPC result, around the result's JSON, the source's identifier, the
/// notebook's identifier and the quoted source title.
pub const GUIDE_RESOLVE_SCRIPT_0: &'static str = r#"(() => {
            let detail = "#;

pub const GUIDE_RESOLVE_SCRIPT_1: &'static str = r#";
            while (Array.isArray(detail) && detail.length === 1 && Array.isArray(detail[0])) detail = detail[0];
            if (!Array.isArray(detail) || detail.length < 2) return JSON.stringify({});

            const rawSources = Array.isArray(detail[1]) ? detail[1] : [];
            const query = "#;

pub const GUIDE_RESOLVE_SCRIPT_2: &'static str = r#".toLowerCase();

            function findFirstString(v) {
                if (typeof v === 'string' && v.trim()) return v.trim();
                if (!Array.isArray(v)) return null;
                for (const item of v) { const f = findFirstString(item); if (f) return f; }
                return null;
            }

            const sources = rawSources.filter(e => Array.isArray(e)).map(entry => ({
                id: findFirstString(entry[0]) || '',
                title: (typeof entry[1] === 'string' ? entry[1] : '').replace(/\s+/g, ' ').trim(),
            })).filter(s => s.id);

            let found = sources.find(s => s.id.toLowerCase() === query);
            if (!found) found = sources.find(s => s.title.toLowerCase() === query);
            if (!found) {
                const partial = sources.filter(s => s.title.toLowerCase().includes(query));
                if (partial.length === 1) found = partial[0];
            }

            return JSON.stringify({ source_id: found ? found.id : null, source_title: found ? found.title : null });
        })()"#;

pub const GUIDE_SCRIPT_0: &'static str = r#"(() => {
            const result = "#;

pub const GUIDE_SCRIPT_1: &'static str = r#";
            if (!Array.isArray(result) || result.length === 0 || !Array.isArray(result[0])) {
                return JSON.stringify({ guide: null });
            }

            const outer = result[0];
            const guide = Array.isArray(outer) && outer.length > 0 && Array.isArray(outer[0]) ? outer[0] : outer;
            if (!Array.isArray(guide)) return JSON.stringify({ guide: null });

            const summary = Array.isArray(guide[1]) && typeof guide[1][0] === 'string'
                ? guide[1][0].trim()
                : '';
            const keywords = Array.isArray(guide[2]) && Array.isArray(guide[2][0])
                ? guide[2][0].filter(item => typeof item === 'string' && item.trim().length > 0)
                : [];

            if (!summary) return JSON.stringify({ guide: null });

            return JSON.stringify({
                guide: {
                    "#;

/// The field of the guide script that carries the source's identifier.
pub const GUIDE_SOURCE_ID_FIELD: &'static str = "source_id: '";

pub const GUIDE_SCRIPT_2: &'static str = r#"',
                    notebook_id: '"#;

pub const GUIDE_SCRIPT_3: &'static str = r#"',
                    title: "#;

pub const GUIDE_SCRIPT_4: &'static str = r#",
                    summary,
                    keywords,
                }
            });
        })()"#;

/// The script that finds the source answering `query` in `result_json`.
pub open spec fn guide_resolve_script_of(result_json: Seq<char>, query: Seq<char>) -> Seq<char> {
    GUIDE_RESOLVE_SCRIPT_0@ + result_json + GUIDE_RESOLVE_SCRIPT_1@ + json_string(query)
        + GUIDE_RESOLVE_SCRIPT_2@
}

/// The script reads `result_json` as data: the result's JSON text stands verbatim
/// right after `let detail = `, and the query is quoted as a JSON string.
pub proof fn law_guide_resolve_script_reads_result_as_data(result_json: Seq<char>, query: Seq<char>)
    ensures
        guide_resolve_script_of(result_json, query).take((GUIDE_RESOLVE_SCRIPT_0@.len() + result_json.len()) as int) == GUIDE_RESOLVE_SCRIPT_0@ + result_json,
        has_suffix(GUIDE_RESOLVE_SCRIPT_0@, "let detail = "@),
        contains_seq(guide_resolve_script_of(result_json, query), json_string(query)),
{
    reveal_strlit("(() => {\n            let detail = ");
    reveal_strlit("let detail = ");
    let script = guide_resolve_script_of(result_json, query);
    let head = GUIDE_RESOLVE_SCRIPT_0@ + result_json;
    assert(script.take(head.len() as int) =~= head);
    let s0 = GUIDE_RESOLVE_SCRIPT_0@;
    assert(s0.subrange(s0.len() - "let detail = "@.len(), s0.len() as int) =~= "let detail = "@);
    let at = (head + GUIDE_RESOLVE_SCRIPT_1@).len() as int;
    assert(script.subrange(at, at + json_string(query).len()) =~= json_string(query));
    assert(occurs_at(script, json_string(query), at));
}

/// Builds the script that finds the source answering `query` in `result_json`.
pub fn guide_resolve_script(result_json: &str, query: &str) -> (r: String)
    ensures
        r@ == guide_resolve_script_of(result_json@, query@),
{
    let quoted = match json_string_literal(query) {
        Ok(q) => q,
        Err(_) => String::from_str("\"\""),
    };
    concat5(GUIDE_RESOLVE_SCRIPT_0, result_json, GUIDE_RESOLVE_SCRIPT_1, quoted.as_str(), GUIDE_RESOLVE_SCRIPT_2)
}

/// The script that reads the guide of source `source_id` (titled `source_title`) of
/// notebook `notebook_id` from `result_json`.
pub open spec fn guide_script_of(
    result_json: Seq<char>,
    source_id: Seq<char>,
    notebook_id: Seq<char>,
    source_title: Seq<char>,
) -> Seq<char> {
    GUIDE_SCRIPT_0@ + result_json + GUIDE_SCRIPT_1@ + GUIDE_SOURCE_ID_FIELD@ + source_id + GUIDE_SCRIPT_2@
        + notebook_id + GUIDE_SCRIPT_3@ + json_string(source_title) + GUIDE_SCRIPT_4@
}

/// The guide script reads `result_json` as data (spliced verbatim right after
/// `const result = `), and reports the guide with the source identifier in its
/// `source_id` field and the notebook identifier in its `notebook_id` field.
pub proof fn law_guide_script_fields(
    result_json: Seq<char>,
    source_id: Seq<char>,
    notebook_id: Seq<char>,
    source_title: Seq<char>,
)
    ensures
        guide_script_of(result_json, source_id, notebook_id, source_title).take(
            (GUIDE_SCRIPT_0@.len() + result_json.len()) as int,
        ) == GUIDE_SCRIPT_0@ + result_json,
        contains_seq(
            guide_script_of(result_json, source_id, notebook_id, source_title),
            "source_id: '"@ + source_id + "'"@,
        ),
        contains_seq(
            guide_script_of(result_json, source_id, notebook_id, source_title),
            "notebook_id: '"@ + notebook_id + "'"@,
        ),
{
    reveal_strlit("source_id: '");
    reveal_strlit("notebook_id: '");
    reveal_strlit("'");
    reveal_strlit("',
                    notebook_id: '");
    reveal_strlit("',
                    title: ");
    let script = guide_script_of(result_json, source_id, notebook_id, source_title);
    let head = GUIDE_SCRIPT_0@ + result_json;
    assert(script.take(head.len() as int) =~= head);
    let at = (head + GUIDE_SCRIPT_1@).len() as int;
    let field = "source_id: '"@ + source_id + "'"@;
    assert(script.subrange(at, at + field.len()) =~= field);
    assert(occurs_at(script, field, at));
    let g2 = GUIDE_SCRIPT_2@;
    let at2 = (head + GUIDE_SCRIPT_1@ + GUIDE_SOURCE_ID_FIELD@ + source_id + g2).len() - "notebook_id: '"@.len();
    let field2 = "notebook_id: '"@ + notebook_id + "'"@;
    assert(g2.subrange(g2.len() - 14, g2.len() as int) =~= "notebook_id: '"@);
    assert(script.subrange(at2, at2 + field2.len()) =~= field2);
    assert(occurs_at(script, field2, at2));
}

/// Builds the script that reads the guide of a source from `result_json`.
pub fn guide_script(result_json: &str, source_id: &str, notebook_id: &str, source_title: &str) -> (r: String)
    ensures
        r@ == guide_script_of(result_json@, source_id@, notebook_id@, source_title@),
{
    let quoted = match json_string_literal(source_title) {
        Ok(q) => q,
        Err(_) => String::from_str("\"\""),
    };
    let mut r = concat5(GUIDE_SCRIPT_0, result_json, GUIDE_SCRIPT_1, GUIDE_SOURCE_ID_FIELD, source_id);
    r.append(GUIDE_SCRIPT_2);
    r.append(notebook_id);
    r.append(GUIDE_SCRIPT_3);
    r.append(quoted.as_str());
    r.append(GUIDE_SCRIPT_4);
    r
}

/// The source (identifier, title) the script found for `query`, or the not-found
/// error; a missing title is empty.
pub fn resolved_source(id: Option<String>, title: Option<String>, query: &str) -> (r: Result<(String, String), AppError>)
    ensures
        id matches Some(i) ==> (r matches Ok(p) && p.0@ == i@ && p.1@ == string_or_empty(title)),
        id is None ==> (r is Err && invalid_params_message(r->Err_0) == Some(
            source_not_found_message(query@),
        )),
{
    match id {
        Some(i) => Ok((i, string_or_default(title))),
        None => Err(AppError::InvalidParams(concat3("source '", query, "' not found"))),
    }
}

} // verus!
