//! `source_list`: the sources of a notebook.
use vstd::prelude::*;

use crate::text::concat5;

verus! {

/// The script that reads the sources out of a notebook-detail RPC result, around the
/// result's JSON and the notebook's identifier.
pub const SOURCE_LIST_SCRIPT_0: &'static str = r#"(() => {
            let detail = "#;

pub const SOURCE_LIST_SCRIPT_1: &'static str = r#";
            while (Array.isArray(detail) && detail.length === 1 && Array.isArray(detail[0])) detail = detail[0];
            if (!Array.isArray(detail) || detail.length < 3) return JSON.stringify({ sources: [] });

            const notebookId = typeof detail[2] === 'string' ? detail[2] : '"#;

pub const SOURCE_LIST_SCRIPT_2: &'static str = r#"';
            const rawSources = Array.isArray(detail[1]) ? detail[1] : [];

            function findFirstString(v) {
                if (typeof v === 'string' && v.trim()) return v.trim();
                if (!Array.isArray(v)) return null;
                for (const item of v) { const f = findFirstString(item); if (f) return f; }
                return null;
            }

            function parseSourceType(v) {
                const code = typeof v === 'number' ? v : (Array.isArray(v) && typeof v[1] === 'number' ? v[1] : null);
                if (code === 8) return 'pasted-text';
                if (code === 9) return 'youtube';
                if (code === 2) return 'generated-text';
                if (code === 3) return 'pdf';
                if (code === 4) return 'audio';
                if (code === 5) return 'web';
                if (code === 6) return 'video';
                return code == null ? null : 'type-' + code;
            }

            function toIso(v) {
                const s = Array.isArray(v) ? v[0] : v;
                if (typeof s !== 'number' || !isFinite(s)) return null;
                return new Date(s * 1000).toISOString();
            }

            const sources = rawSources
                .filter(e => Array.isArray(e))
                .map(entry => {
                    const id = findFirstString(entry[0]) || '';
                    const title = (typeof entry[1] === 'string' ? entry[1] : '').replace(/\s+/g, ' ').trim() || 'Untitled source';
                    const meta = Array.isArray(entry[2]) ? entry[2] : [];
                    const typeInfo = typeof meta[4] === 'number' ? meta[4] : entry[3];

                    return {
                        id,
                        notebook_id: notebookId,
                        title,
                        url: 'https://notebooklm.google.com/notebook/' + notebookId,
                        type: parseSourceType(typeInfo),
                        size: typeof meta[1] === 'number' && isFinite(meta[1]) ? meta[1] : null,
                        created_at: toIso(meta[2]),
                        updated_at: toIso(meta[14]),
                    };
                })
                .filter(row => row.id);

            return JSON.stringify({ sources });
        })()"#;

/// The script that lists the sources of notebook `notebook_id` found in `result_json`.
pub fn source_list_script(result_json: &str, notebook_id: &str) -> (r: String)
    ensures
        r@ == SOURCE_LIST_SCRIPT_0@ + result_json@ + SOURCE_LIST_SCRIPT_1@ + notebook_id@ + SOURCE_LIST_SCRIPT_2@,
        r@.take((SOURCE_LIST_SCRIPT_0@.len() + result_json@.len()) as int) == SOURCE_LIST_SCRIPT_0@ + result_json@,
{
    concat5(SOURCE_LIST_SCRIPT_0, result_json, SOURCE_LIST_SCRIPT_1, notebook_id, SOURCE_LIST_SCRIPT_2)
}

} // verus!
