//! `note_list`: the notes of a notebook's Studio panel.
use vstd::prelude::*;

use crate::models::Note;
use crate::notebooklm::rpc::{notebook_url, notebook_url_of};
use crate::text::concat3;

verus! {

/// The script that lists the notes of the Studio panel, around the notebook's identifier.
pub const NOTE_LIST_SCRIPT_0: &'static str = r#"(() => {
            const notebookId = '"#;

pub const NOTE_LIST_SCRIPT_1: &'static str = r#"';
            const rawNotes = Array.from(document.querySelectorAll('artifact-library-note')).map(node => {
                const titleNode = node.querySelector('.artifact-title');
                const title = (titleNode?.textContent || '').trim();
                const text = (node.innerText || node.textContent || '').replace(/\s+/g, ' ').trim();
                return { title, text };
            });

            const notes = rawNotes
                .filter(row => row.title)
                .map(row => {
                    let text = row.text
                        .replace(/\bsticky_note_2\b/g, ' ')
                        .replace(/\bmore_vert\b/g, ' ')
                        .replace(/\s+/g, ' ')
                        .trim();
                    const suffix = text.startsWith(row.title)
                        ? text.slice(row.title.length).trim()
                        : text.replace(row.title, '').trim();
                    return {
                        title: row.title,
                        created_at: suffix || null,
                    };
                });

            return JSON.stringify({ notes });
        })()"#;

/// The script that lists the notes of notebook `notebook_id`.
pub fn note_list_script(notebook_id: &str) -> (r: String)
    ensures
        r@ == NOTE_LIST_SCRIPT_0@ + notebook_id@ + NOTE_LIST_SCRIPT_1@,
{
    concat3(NOTE_LIST_SCRIPT_0, notebook_id, NOTE_LIST_SCRIPT_1)
}

/// A note as the panel lists it: its title and the text shown after it.
#[derive(Debug, Clone)]
pub struct ListedNote {
    pub title: String,
    pub created_at: Option<String>,
}

/// The characters of an optional text, if any.
pub open spec fn opt_view(s: Option<String>) -> Option<Seq<char>> {
    match s {
        Some(t) => Some(t@),
        None => None,
    }
}

/// `n` reports `l` as a note of notebook `notebook_id`.
pub open spec fn reports_listed(n: Note, l: ListedNote, notebook_id: Seq<char>) -> bool {
    &&& n.notebook_id@ == notebook_id
    &&& n.title@ == l.title@
    &&& opt_view(n.created_at) == opt_view(l.created_at)
    &&& n.url@ == notebook_url_of(notebook_id)
    &&& n.id is None
    &&& n.content is None
}

fn clone_opt(s: &Option<String>) -> (r: Option<String>)
    ensures
        opt_view(r) == opt_view(*s),
{
    match s {
        Some(t) => Some(t.clone()),
        None => None,
    }
}

/// The reported notes of notebook `notebook_id`, one per listed note, in order.
pub fn note_rows(notebook_id: &str, listed: &Vec<ListedNote>) -> (r: Vec<Note>)
    ensures
        r@.len() == listed@.len(),
        forall|i: int| 0 <= i < r@.len() ==> reports_listed(#[trigger] r@[i], listed@[i], notebook_id@),
{
    let mut r: Vec<Note> = Vec::new();
    let n = listed.len();
    let mut i: usize = 0;
    while i < n
        invariant
            n == listed.len(),
            i <= n,
            r@.len() == i,
            forall|j: int| 0 <= j < i ==> reports_listed(#[trigger] r@[j], listed@[j], notebook_id@),
        decreases n - i,
    {
        let l = &listed[i];
        r.push(Note {
            notebook_id: String::from_str(notebook_id),
            id: None,
            title: l.title.clone(),
            content: None,
            created_at: clone_opt(&l.created_at),
            url: notebook_url(notebook_id),
        });
        i = i + 1;
    }
    r
}

} // verus!
