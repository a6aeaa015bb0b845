//! `summary`: the summary block of a notebook.
use vstd::prelude::*;

use crate::text::concat5;

verus! {

/// The script that finds the summary in a notebook-detail RPC result, around the
/// result's JSON and the notebook's identifier.
pub const SUMMARY_SCRIPT_0: &'static str = r#"(() => {
            let detail = "#;

pub const SUMMARY_SCRIPT_1: &'static str = r#";
            while (Array.isArray(detail) && detail.length === 1 && Array.isArray(detail[0])) detail = detail[0];
            if (!Array.isArray(detail)) return JSON.stringify({ summary: null });

            const title = (typeof detail[0] === 'string' ? detail[0] : '').replace(/\s+/g, ' ').trim() || 'Untitled Notebook';
            const notebookId = typeof detail[2] === 'string' ? detail[2] : '"#;

pub const SUMMARY_SCRIPT_2: &'static str = r#"';

            // Find the summary: a long string that is not the title, id, or emoji
            const summaryText = detail
                .filter((v, i) => i !== 0 && i !== 2 && i !== 3)
                .find(v => typeof v === 'string' && v.trim().length >= 80);

            if (typeof summaryText !== 'string') {
                return JSON.stringify({ summary: null });
            }

            return JSON.stringify({
                summary: {
                    notebook_id: notebookId,
                    title,
                    summary: summaryText.trim(),
                    url: 'https://notebooklm.google.com/notebook/' + notebookId,
                }
            });
        })()"#;

/// The script that finds the summary of notebook `notebook_id` in `result_json`.
pub fn summary_script(result_json: &str, notebook_id: &str) -> (r: String)
    ensures
        r@ == SUMMARY_SCRIPT_0@ + result_json@ + SUMMARY_SCRIPT_1@ + notebook_id@ + SUMMARY_SCRIPT_2@,
        r@.take((SUMMARY_SCRIPT_0@.len() + result_json@.len()) as int) == SUMMARY_SCRIPT_0@ + result_json@,
{
    concat5(SUMMARY_SCRIPT_0, result_json, SUMMARY_SCRIPT_1, notebook_id, SUMMARY_SCRIPT_2)
}

} // verus!
