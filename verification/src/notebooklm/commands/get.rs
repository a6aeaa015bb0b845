//! `get`: the metadata of one notebook.
use vstd::prelude::*;

use crate::text::concat3;

verus! {

/// The script that reads a notebook-detail RPC result, around the result's JSON.
pub const NOTEBOOK_DETAIL_SCRIPT_0: &'static str = r#"(() => {
            let detail = "#;

pub const NOTEBOOK_DETAIL_SCRIPT_1: &'static str = r#";
            // Unwrap singleton arrays
            while (Array.isArray(detail) && detail.length === 1 && Array.isArray(detail[0])) detail = detail[0];
            if (!Array.isArray(detail) || detail.length < 3) return JSON.stringify({ notebook: null });

            const id = typeof detail[2] === 'string' ? detail[2] : '';
            if (!id) return JSON.stringify({ notebook: null });

            const title = (typeof detail[0] === 'string' ? detail[0] : '').replace(/\s+/g, ' ').trim() || 'Untitled Notebook';
            const emoji = typeof detail[3] === 'string' ? detail[3] : null;
            const meta = Array.isArray(detail[5]) ? detail[5] : [];
            const sources = Array.isArray(detail[1]) ? detail[1] : [];

            function toIso(v) {
                const s = Array.isArray(v) ? v[0] : v;
                if (typeof s !== 'number' || !isFinite(s)) return null;
                return new Date(s * 1000).toISOString();
            }

            return JSON.stringify({
                notebook: {
                    id,
                    title,
                    url: 'https://notebooklm.google.com/notebook/' + id,
                    emoji,
                    source_count: sources.length,
                    is_owner: meta.length > 1 ? meta[1] !== false : true,
                    created_at: toIso(meta[8]),
                    updated_at: toIso(meta[5]),
                }
            });
        })()"#;

/// The script that reads the notebook-detail RPC result `result_json`.
pub fn notebook_detail_script(result_json: &str) -> (r: String)
    ensures
        r@ == NOTEBOOK_DETAIL_SCRIPT_0@ + result_json@ + NOTEBOOK_DETAIL_SCRIPT_1@,
        r@.take((NOTEBOOK_DETAIL_SCRIPT_0@.len() + result_json@.len()) as int) == NOTEBOOK_DETAIL_SCRIPT_0@ + result_json@,
{
    concat3(NOTEBOOK_DETAIL_SCRIPT_0, result_json, NOTEBOOK_DETAIL_SCRIPT_1)
}

} // verus!
