//! `list`: every notebook of the account.
use vstd::prelude::*;

use crate::text::concat3;

verus! {

/// The script that reads a notebook-list RPC result, around the result's JSON.
pub const NOTEBOOK_LIST_SCRIPT_0: &'static str = r#"(() => {
            const result = "#;

pub const NOTEBOOK_LIST_SCRIPT_1: &'static str = r#";
            if (!Array.isArray(result) || result.length === 0) return JSON.stringify({ notebooks: [] });
            const rawNotebooks = Array.isArray(result[0]) ? result[0] : result;
            if (!Array.isArray(rawNotebooks)) return JSON.stringify({ notebooks: [] });

            const notebooks = rawNotebooks
                .filter(item => Array.isArray(item))
                .map(item => {
                    const meta = Array.isArray(item[5]) ? item[5] : [];
                    const timestamps = Array.isArray(meta[5]) ? meta[5] : [];
                    const id = typeof item[2] === 'string' ? item[2] : '';
                    let title = typeof item[0] === 'string' ? item[0].replace(/^thought\s*\n/, '') : '';
                    title = title.replace(/\s+/g, ' ').trim() || 'Untitled Notebook';

                    let created_at = null;
                    if (timestamps.length > 0) {
                        const ts = Array.isArray(timestamps[0]) ? timestamps[0][0] : timestamps[0];
                        if (typeof ts === 'number' && isFinite(ts)) {
                            created_at = new Date(ts * 1000).toISOString();
                        }
                    }

                    return {
                        id,
                        title,
                        url: 'https://notebooklm.google.com/notebook/' + id,
                        is_owner: meta.length > 1 ? meta[1] === false ? false : true : true,
                        created_at,
                    };
                })
                .filter(row => row.id);

            return JSON.stringify({ notebooks });
        })()"#;

/// The script that reads the notebook-list RPC result `result_json`.
pub fn notebook_list_script(result_json: &str) -> (r: String)
    ensures
        r@ == NOTEBOOK_LIST_SCRIPT_0@ + result_json@ + NOTEBOOK_LIST_SCRIPT_1@,
        r@.take((NOTEBOOK_LIST_SCRIPT_0@.len() + result_json@.len()) as int) == NOTEBOOK_LIST_SCRIPT_0@ + result_json@,
{
    concat3(NOTEBOOK_LIST_SCRIPT_0, result_json, NOTEBOOK_LIST_SCRIPT_1)
}

} // verus!
