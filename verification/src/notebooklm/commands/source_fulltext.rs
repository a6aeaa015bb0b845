//! `source_fulltext`: the full text of one source.
use vstd::prelude::*;

use crate::error::{AppError, invalid_params_message};
use crate::json::{json_string, json_string_literal};
use crate::notebooklm::commands::params::{required_text, text_or_empty};
use crate::text::{concat3, concat5, contains_seq, has_suffix, occurs_at, trim_seq};

verus! {

/// The source query of a request: its trimmed text, which must not be empty.
pub fn source_query(param: Option<&str>) -> (r: Result<String, AppError>)
    ensures
        trim_seq(text_or_empty(param)).len() > 0 ==> (r matches Ok(t) && t@ == trim_seq(
            text_or_empty(param),
        )),
        trim_seq(text_or_empty(param)).len() == 0 ==> (r is Err && invalid_params_message(
            r->Err_0,
        ) == Some("source is required"@)),
{
    required_text(param, "source is required")
}

/// The parameters of the full-text RPC for `source_id`.
pub fn fulltext_rpc_params(source_id: &str) -> (r: String)
    ensures
        r@ == "[[\""@ + source_id@ + "\"], [2], [2]]"@,
{
    concat3("[[\"", source_id, "\"], [2], [2]]")
}

/// The script that reads a full-text RPC result, around the result's JSON and the
/// notebook's identifier; followed by the script that finds a source of a
/// notebook-detail RPC result by identifier or title, around the result's JSON and
/// the quoted query.
pub const FULLTEXT_SCRIPT_0: &'static str = r#"(() => {
            const result = "#;

pub const FULLTEXT_SCRIPT_1: &'static str = r#";
            if (!Array.isArray(result) || result.length === 0 || !Array.isArray(result[0])) {
                return JSON.stringify({ fulltext: null });
            }

            const source = result[0];
            function findFirstString(v) {
                if (typeof v === 'string' && v.trim()) return v.trim();
                if (!Array.isArray(v)) return null;
                for (const item of v) { const f = findFirstString(item); if (f) return f; }
                return null;
            }

            const sourceId = findFirstString(source[0]) || '';
            const title = (typeof source[1] === 'string' ? source[1] : '').replace(/\s+/g, ' ').trim() || 'Untitled source';
            const meta = Array.isArray(source[2]) ? source[2] : [];

            function parseSourceType(code) {
                if (code === 8) return 'pasted-text';
                if (code === 9) return 'youtube';
                if (code === 2) return 'generated-text';
                if (code === 3) return 'pdf';
                if (code === 4) return 'audio';
                if (code === 5) return 'web';
                if (code === 6) return 'video';
                return code == null ? null : 'type-' + code;
            }

            function collectLeafStrings(v, results) {
                if (typeof v === 'string') { const t = v.trim(); if (t) results.push(t); return results; }
                if (!Array.isArray(v)) return results;
                for (const item of v) collectLeafStrings(item, results);
                return results;
            }

            const contentRoot = Array.isArray(result[3]) && result[3].length > 0 ? result[3][0] : [];
            const content = collectLeafStrings(contentRoot, []).join('\n').trim();

            if (!sourceId || !content) return JSON.stringify({ fulltext: null });

            return JSON.stringify({
                fulltext: {
                    source_id: sourceId,
                    notebook_id: '"#;

pub const FULLTEXT_SCRIPT_2: &'static str = r#"',
                    title,
                    content,
                    char_count: content.length,
                    kind: parseSourceType(meta[4]),
                }
            });
        })()"#;

pub const RESOLVE_SOURCE_SCRIPT_0: &'static str = r#"(() => {
            let detail = "#;

pub const RESOLVE_SOURCE_SCRIPT_1: &'static str = r#";
            while (Array.isArray(detail) && detail.length === 1 && Array.isArray(detail[0])) detail = detail[0];
            if (!Array.isArray(detail) || detail.length < 2) return JSON.stringify({});

            const rawSources = Array.isArray(detail[1]) ? detail[1] : [];
            const query = "#;

pub const RESOLVE_SOURCE_SCRIPT_2: &'static str = r#".toLowerCase();

            function findFirstString(v) {
                if (typeof v === 'string' && v.trim()) return v.trim();
                if (!Array.isArray(v)) return null;
                for (const item of v) { const f = findFirstString(item); if (f) return f; }
                return null;
            }

            const sources = rawSources.filter(e => Array.isArray(e)).map(entry => ({
                id: findFirstString(entry[0]) || '',
                title: (typeof entry[1] === 'string' ? entry[1] : '').replace(/\s+/g, ' ').trim(),
            })).filter(s => s.id);

            // Match by exact id, exact title, partial title
            let found = sources.find(s => s.id.toLowerCase() === query);
            if (!found) found = sources.find(s => s.title.toLowerCase() === query);
            if (!found) {
                const partial = sources.filter(s => s.title.toLowerCase().includes(query));
                if (partial.length === 1) found = partial[0];
            }

            return JSON.stringify({ source_id: found ? found.id : null });
        })()"#;

/// The script that reads the full text of a source of notebook `notebook_id` from `result_json`.
pub fn fulltext_script(result_json: &str, notebook_id: &str) -> (r: String)
    ensures
        r@ == FULLTEXT_SCRIPT_0@ + result_json@ + FULLTEXT_SCRIPT_1@ + notebook_id@ + FULLTEXT_SCRIPT_2@,
        r@.take((FULLTEXT_SCRIPT_0@.len() + result_json@.len()) as int) == FULLTEXT_SCRIPT_0@ + result_json@,
{
    concat5(FULLTEXT_SCRIPT_0, result_json, FULLTEXT_SCRIPT_1, notebook_id, FULLTEXT_SCRIPT_2)
}

/// The script that finds the source answering `query` in `result_json`.
pub open spec fn resolve_source_script_of(result_json: Seq<char>, query: Seq<char>) -> Seq<char> {
    RESOLVE_SOURCE_SCRIPT_0@ + result_json + RESOLVE_SOURCE_SCRIPT_1@ + json_string(query)
        + RESOLVE_SOURCE_SCRIPT_2@
}

/// The script reads `result_json` as data: the result's JSON text stands verbatim
/// right after `let detail = `, and the query is quoted as a JSON string.
pub proof fn law_resolve_script_reads_result_as_data(result_json: Seq<char>, query: Seq<char>)
    ensures
        resolve_source_script_of(result_json, query).take((RESOLVE_SOURCE_SCRIPT_0@.len() + result_json.len()) as int) == RESOLVE_SOURCE_SCRIPT_0@ + result_json,
        has_suffix(RESOLVE_SOURCE_SCRIPT_0@, "let detail = "@),
        contains_seq(resolve_source_script_of(result_json, query), json_string(query)),
{
    reveal_strlit("(() => {\n            let detail = ");
    reveal_strlit("let detail = ");
    let script = resolve_source_script_of(result_json, query);
    let head = RESOLVE_SOURCE_SCRIPT_0@ + result_json;
    assert(script.take(head.len() as int) =~= head);
    let s0 = RESOLVE_SOURCE_SCRIPT_0@;
    assert(s0.subrange(s0.len() - "let detail = "@.len(), s0.len() as int) =~= "let detail = "@);
    let at = (head + RESOLVE_SOURCE_SCRIPT_1@).len() as int;
    assert(script.subrange(at, at + json_string(query).len()) =~= json_string(query));
    assert(occurs_at(script, json_string(query), at));
}

/// Builds the script that finds the source answering `query` in `result_json`.
pub fn resolve_source_script(result_json: &str, query: &str) -> (r: String)
    ensures
        r@ == resolve_source_script_of(result_json@, query@),
{
    let quoted = match json_string_literal(query) {
        Ok(q) => q,
        Err(_) => String::from_str("\"\""),
    };
    concat5(RESOLVE_SOURCE_SCRIPT_0, result_json, RESOLVE_SOURCE_SCRIPT_1, quoted.as_str(), RESOLVE_SOURCE_SCRIPT_2)
}

/// The error for a query that names no source.
pub open spec fn source_not_found_message(query: Seq<char>) -> Seq<char> {
    "source '"@ + query + "' not found"@
}

/// The source the script found for `query`, or the not-found error.
pub fn resolved_source_id(found: Option<String>, query: &str) -> (r: Result<String, AppError>)
    ensures
        found matches Some(id) ==> (r matches Ok(t) && t@ == id@),
        found is None ==> (r is Err && invalid_params_message(r->Err_0) == Some(
            source_not_found_message(query@),
        )),
{
    match found {
        Some(id) => Ok(id),
        None => Err(AppError::InvalidParams(concat3("source '", query, "' not found"))),
    }
}

} // verus!
