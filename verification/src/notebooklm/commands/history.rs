//! `history`: the conversation threads of a notebook.
use vstd::prelude::*;

use crate::models::HistoryThread;
use crate::notebooklm::rpc::{notebook_url, notebook_url_of};
use crate::text::concat3;

verus! {

/// The parameters of the thread-list RPC for `notebook_id` (at most 20 threads).
pub fn threads_rpc_params(notebook_id: &str) -> (r: String)
    ensures
        r@ == "[[], null, \""@ + notebook_id@ + "\", 20]"@,
{
    concat3("[[], null, \"", notebook_id, "\", 20]")
}

/// The parameters of the thread-detail RPC for `thread_id` (at most 20 items).
pub fn thread_detail_rpc_params(thread_id: &str) -> (r: String)
    ensures
        r@ == "[[], null, null, \""@ + thread_id@ + "\", 20]"@,
{
    concat3("[[], null, null, \"", thread_id, "\", 20]")
}

/// The script that collects the thread identifiers (UUIDs, first occurrence only) of a
/// thread-list RPC result, around the result's JSON.
pub const THREAD_IDS_SCRIPT_0: &'static str = r#"(() => {
            const result = "#;

pub const THREAD_IDS_SCRIPT_1: &'static str = r#";
            const uuidRe = /^[0-9a-f]{8}-[0-9a-f]{4}-[0-9a-f]{4}-[0-9a-f]{4}-[0-9a-f]{12}$/i;
            const ids = [];
            const seen = new Set();

            function collect(v) {
                if (typeof v === 'string') {
                    const t = v.trim();
                    if (uuidRe.test(t) && !seen.has(t)) { seen.add(t); ids.push(t); }
                    return;
                }
                if (Array.isArray(v)) for (const item of v) collect(item);
            }

            collect(result);
            return JSON.stringify({ thread_ids: ids });
        })()"#;

pub const THREAD_DETAIL_SCRIPT_0: &'static str = r#"(() => {
                const result = "#;

pub const THREAD_DETAIL_SCRIPT_1: &'static str = r#";
                const item_count = Array.isArray(result) ? result.length : 0;

                // Extract preview: first non-UUID, non-trivial string
                const uuidRe = /^[0-9a-f]{8}-[0-9a-f]{4}-[0-9a-f]{4}-[0-9a-f]{4}-[0-9a-f]{12}$/i;
                function collectStrings(v, results) {
                    if (typeof v === 'string') {
                        const t = v.replace(/\s+/g, ' ').trim();
                        if (t && !uuidRe.test(t) && !/^\d+$/.test(t) && !/^(null|undefined)$/i.test(t)) {
                            results.push(t);
                        }
                        return results;
                    }
                    if (Array.isArray(v)) for (const item of v) collectStrings(item, results);
                    return results;
                }

                const strings = collectStrings(result, []);
                return JSON.stringify({ item_count, preview: strings.length > 0 ? strings[0] : null });
            })()"#;

/// The script that collects the thread identifiers found in `result_json`.
pub fn thread_ids_script(result_json: &str) -> (r: String)
    ensures
        r@ == THREAD_IDS_SCRIPT_0@ + result_json@ + THREAD_IDS_SCRIPT_1@,
        r@.take((THREAD_IDS_SCRIPT_0@.len() + result_json@.len()) as int) == THREAD_IDS_SCRIPT_0@ + result_json@,
{
    concat3(THREAD_IDS_SCRIPT_0, result_json, THREAD_IDS_SCRIPT_1)
}

/// The script that counts the items of a thread-detail RPC result `result_json` and
/// picks its preview text.
pub fn thread_detail_script(result_json: &str) -> (r: String)
    ensures
        r@ == THREAD_DETAIL_SCRIPT_0@ + result_json@ + THREAD_DETAIL_SCRIPT_1@,
        r@.take((THREAD_DETAIL_SCRIPT_0@.len() + result_json@.len()) as int) == THREAD_DETAIL_SCRIPT_0@ + result_json@,
{
    concat3(THREAD_DETAIL_SCRIPT_0, result_json, THREAD_DETAIL_SCRIPT_1)
}

/// The reported row of thread `thread_id` of notebook `notebook_id`.
pub fn history_row(
    thread_id: &str,
    notebook_id: &str,
    item_count: u32,
    preview: Option<String>,
) -> (r: HistoryThread)
    ensures
        r.thread_id@ == thread_id@,
        r.notebook_id@ == notebook_id@,
        r.item_count == item_count,
        r.preview == preview,
        r.url@ == notebook_url_of(notebook_id@),
{
    HistoryThread {
        thread_id: String::from_str(thread_id),
        notebook_id: String::from_str(notebook_id),
        item_count,
        preview,
        url: notebook_url(notebook_id),
    }
}

} // verus!
