//! `note_get`: the note open in the Studio panel, checked against the request.
use vstd::prelude::*;

use crate::error::{AppError, invalid_params_message};
use crate::models::Note;
use crate::notebooklm::commands::params::{required_text, string_or_default, string_or_empty, text_or_empty};
use crate::notebooklm::rpc::{notebook_url, notebook_url_of};
use crate::text::{chars_of, concat3, contains_chars, contains_seq, lowercase, to_lowercase, trim_seq};

verus! {

/// The note query of a request: its trimmed text, which must not be empty.
pub fn note_query(param: Option<&str>) -> (r: Result<String, AppError>)
    ensures
        trim_seq(text_or_empty(param)).len() > 0 ==> (r matches Ok(t) && t@ == trim_seq(
            text_or_empty(param),
        )),
        trim_seq(text_or_empty(param)).len() == 0 ==> (r is Err && invalid_params_message(
            r->Err_0,
        ) == Some("note is required"@)),
{
    required_text(param, "note is required")
}

/// The script that reads the title and content of the note open in the editor.
pub const VISIBLE_NOTE_SCRIPT: &'static str = r#"(() => {
        const normalizeText = (value) => (value || '').replace(/\u00a0/g, ' ').replace(/\r\n/g, '\n').trim();
        const titleNode = document.querySelector('.note-header__editable-title');
        const title = titleNode instanceof HTMLInputElement || titleNode instanceof HTMLTextAreaElement
            ? titleNode.value
            : (titleNode?.textContent || '');
        const editor = document.querySelector('.note-editor .ql-editor, .note-editor [contenteditable="true"], .note-editor textarea');
        let content = '';
        if (editor instanceof HTMLTextAreaElement || editor instanceof HTMLInputElement) {
            content = editor.value || '';
        } else if (editor) {
            content = editor.innerText || editor.textContent || '';
        }
        return JSON.stringify({
            title: normalizeText(title),
            content: normalizeText(content),
        });
    })()"#;

/// The error for a query when no note is open.
pub open spec fn no_open_note_message(query: Seq<char>) -> Seq<char> {
    "note '"@ + query + "' not found — open the note in the Studio panel first"@
}

/// The error for an open note whose title does not match the query.
pub open spec fn mismatch_message(title: Seq<char>, query: Seq<char>) -> Seq<char> {
    "visible note '"@ + title + "' does not match query '"@ + query
        + "' — click the note in the Studio panel first"@
}

/// The open note with title `title` answers `query` when its lower-cased title
/// contains the lower-cased query.
pub open spec fn title_matches(title: Seq<char>, query: Seq<char>) -> bool {
    contains_seq(lowercase(title), lowercase(query))
}

/// Checks the note read from the editor (`title`, `content`) against `query` and
/// reports it as a note of notebook `notebook_id`; `lowered_title` and
/// `lowered_query` are the lower-cased title and query, which are compared.
pub fn check_visible_note(
    query: &str,
    notebook_id: &str,
    title: String,
    content: String,
    lowered_title: &str,
    lowered_query: &str,
) -> (r: Result<Note, AppError>)
    ensures
        title@.len() == 0 ==> (r is Err && invalid_params_message(r->Err_0) == Some(no_open_note_message(query@))),
        title@.len() > 0 && !contains_seq(lowered_title@, lowered_query@) ==> (r is Err && invalid_params_message(
            r->Err_0,
        ) == Some(mismatch_message(title@, query@))),
        title@.len() > 0 && contains_seq(lowered_title@, lowered_query@) ==> (r matches Ok(n) && n.notebook_id@
            == notebook_id@ && n.title@ == title@ && n.content is Some && n.content->0@ == content@ && n.url@
            == notebook_url_of(notebook_id@) && n.id is None && n.created_at is None),
{
    if title.as_str().unicode_len() == 0 {
        let msg = concat3("note '", query, "' not found — open the note in the Studio panel first");
        return Err(AppError::InvalidParams(msg));
    }
    let hay = chars_of(lowered_title);
    let needle = chars_of(lowered_query);
    if !contains_chars(&hay, &needle) {
        let mut msg = concat3("visible note '", title.as_str(), "' does not match query '");
        msg.append(query);
        msg.append("' — click the note in the Studio panel first");
        return Err(AppError::InvalidParams(msg));
    }
    Ok(Note {
        notebook_id: String::from_str(notebook_id),
        id: None,
        title,
        content: Some(content),
        created_at: None,
        url: notebook_url(notebook_id),
    })
}

/// Checks the note read from the editor (`title`, `content`) against `query` and
/// reports it as a note of notebook `notebook_id`.
pub fn visible_note(
    query: &str,
    notebook_id: &str,
    title: Option<String>,
    content: Option<String>,
) -> (r: Result<Note, AppError>)
    ensures
        string_or_empty(title).len() == 0 ==> (r is Err && invalid_params_message(r->Err_0)
            == Some(no_open_note_message(query@))),
        string_or_empty(title).len() > 0 && !title_matches(string_or_empty(title), query@) ==> (
        r is Err && invalid_params_message(r->Err_0) == Some(
            mismatch_message(string_or_empty(title), query@),
        )),
        string_or_empty(title).len() > 0 && title_matches(string_or_empty(title), query@) ==> (
        r matches Ok(n) && n.notebook_id@ == notebook_id@ && n.title@ == string_or_empty(title)
            && n.content is Some && n.content->0@ == string_or_empty(content)
            && n.url@ == notebook_url_of(notebook_id@) && n.id is None && n.created_at is None),
{
    let title = string_or_default(title);
    let content = string_or_default(content);
    let lowered_title = to_lowercase(title.as_str());
    let lowered_query = to_lowercase(query);
    check_visible_note(query, notebook_id, title, content, lowered_title.as_str(), lowered_query.as_str())
}

} // verus!
