//! `note_create`: a new note in the Studio panel.
use vstd::prelude::*;

use crate::error::{AppError, browser_failure_message};
use crate::json::{json_string, json_string_literal};
use crate::notebooklm::commands::params::{string_or_default, string_or_empty, text_or_empty, trimmed_param};
use crate::notebooklm::rpc::{notebook_url, notebook_url_of};
use crate::text::{has_suffix, trim_seq};

verus! {

/// The script that opens a new note and fills in its title and content, around the
/// two JSON string literals.
pub const NOTE_CREATE_SCRIPT_0: &'static str = r#"(async (title, content) => {
            const sleep = (ms) => new Promise(resolve => setTimeout(resolve, ms));
            const buttons = () => Array.from(document.querySelectorAll('button'));
            const match = (el, phrases) => {
                const hay = [
                    el.textContent || '',
                    el.getAttribute('aria-label') || '',
                    el.getAttribute('title') || '',
                    String(el.className || ''),
                ].join(' ').toLowerCase();
                return phrases.some(phrase => hay.includes(phrase));
            };
            const setValue = (el, value) => {
                const proto = Object.getPrototypeOf(el);
                const desc = Object.getOwnPropertyDescriptor(proto, 'value');
                if (desc && typeof desc.set === 'function') desc.set.call(el, value);
                else el.value = value;
                el.dispatchEvent(new Event('input', { bubbles: true }));
                el.dispatchEvent(new Event('change', { bubbles: true }));
            };

            const sourceClose = document.querySelector('button.close-button');
            if (sourceClose instanceof HTMLElement) {
                sourceClose.click();
                await sleep(300);
            }

            const noteClose = buttons().find(el => match(el, ['关闭笔记视图', 'close note view']));
            if (noteClose instanceof HTMLElement) {
                noteClose.click();
                await sleep(300);
            }

            const add = document.querySelector('button.add-note-button')
                || buttons().find(el => match(el, ['添加笔记', 'add note']));
            if (!(add instanceof HTMLElement)) {
                return JSON.stringify({ ok: false, error: 'add-note button not found' });
            }

            add.click();
            await sleep(1200);

            const titleInput = document.querySelector('input.note-header__editable-title');
            const editor = document.querySelector('.ql-editor, .note-editor [contenteditable=true], .note-editor textarea');
            if (!(titleInput instanceof HTMLInputElement) || !editor) {
                return JSON.stringify({ ok: false, error: 'note editor not found' });
            }

            if (title) {
                setValue(titleInput, title);
                titleInput.blur();
                await sleep(200);
            }

            if (content) {
                if (editor instanceof HTMLTextAreaElement || editor instanceof HTMLInputElement) {
                    setValue(editor, content);
                    editor.blur();
                } else {
                    editor.focus();
                    editor.textContent = content;
                    editor.dispatchEvent(new InputEvent('input', { bubbles: true, inputType: 'insertText', data: content }));
                    editor.blur();
                }
            }

            await sleep(1500);

            return JSON.stringify({
                ok: true,
                title: (titleInput.value || titleInput.textContent || '').trim(),
                content: (editor.innerText || editor.textContent || editor.value || '').trim(),
            });
        })("#;

pub const NOTE_CREATE_SCRIPT_1: &'static str = r#", "#;

pub const NOTE_CREATE_SCRIPT_2: &'static str = r#")"#;

/// The note a request asks for: its trimmed title (empty when absent) and its
/// content as given (empty when absent).
pub fn note_create_inputs(title: Option<&str>, content: Option<&str>) -> (r: (String, String))
    ensures
        r.0@ == trim_seq(text_or_empty(title)),
        r.1@ == text_or_empty(content),
{
    let t = trimmed_param(title);
    let c = match content {
        Some(c) => String::from_str(c),
        None => String::new(),
    };
    (t, c)
}

/// The script that writes a note with `title` and `content`.
pub open spec fn note_create_script_of(title: Seq<char>, content: Seq<char>) -> Seq<char> {
    NOTE_CREATE_SCRIPT_0@ + json_string(title) + NOTE_CREATE_SCRIPT_1@ + json_string(content)
        + NOTE_CREATE_SCRIPT_2@
}

/// The note-writing function of the script is called with the title first and the
/// content second, each quoted as a JSON string.
pub proof fn law_note_create_script_passes_title_then_content(title: Seq<char>, content: Seq<char>)
    ensures
        has_suffix(note_create_script_of(title, content), json_string(title) + ", "@ + json_string(content) + ")"@),
{
    reveal_strlit(", ");
    reveal_strlit(")");
    let script = note_create_script_of(title, content);
    let tail = json_string(title) + ", "@ + json_string(content) + ")"@;
    assert(script.subrange(script.len() - tail.len(), script.len() as int) =~= tail);
}

/// Builds the script that writes a note with `title` and `content`.
pub fn note_create_script(title: &str, content: &str) -> (r: String)
    ensures
        r@ == note_create_script_of(title@, content@),
{
    let t = match json_string_literal(title) {
        Ok(t) => t,
        Err(_) => String::new(),
    };
    let c = match json_string_literal(content) {
        Ok(c) => c,
        Err(_) => String::new(),
    };
    let mut r = String::from_str(NOTE_CREATE_SCRIPT_0);
    r.append(t.as_str());
    r.append(NOTE_CREATE_SCRIPT_1);
    r.append(c.as_str());
    r.append(NOTE_CREATE_SCRIPT_2);
    r
}

/// A note that was written.
#[derive(Debug, Clone)]
pub struct CreatedNote {
    pub notebook_id: String,
    pub title: String,
    pub content: String,
    pub url: String,
}

/// What the script's answer means: `ok` must be true, else the script's error (or a
/// generic message) is a browser failure; the editor must then show a title.
pub fn note_created(
    notebook_id: &str,
    ok: Option<bool>,
    error: Option<String>,
    title: Option<String>,
    content: Option<String>,
) -> (r: Result<CreatedNote, AppError>)
    ensures
        ok != Some(true) ==> (r is Err && browser_failure_message(r->Err_0) == Some(
            match error {
                Some(e) => e@,
                None => "failed to create note"@,
            },
        )),
        ok == Some(true) && string_or_empty(title).len() == 0 ==> (r is Err
            && browser_failure_message(r->Err_0) == Some("note editor did not produce a title"@)),
        ok == Some(true) && string_or_empty(title).len() > 0 ==> (r matches Ok(n)
            && n.notebook_id@ == notebook_id@ && n.title@ == string_or_empty(title) && n.content@
            == string_or_empty(content) && n.url@ == notebook_url_of(notebook_id@)),
{
    if ok != Some(true) {
        let message = match error {
            Some(e) => e,
            None => String::from_str("failed to create note"),
        };
        return Err(AppError::BrowserExecutionFailed(message));
    }
    let title = string_or_default(title);
    let content = string_or_default(content);
    if title.as_str().unicode_len() == 0 {
        return Err(
            AppError::BrowserExecutionFailed(String::from_str("note editor did not produce a title")),
        );
    }
    Ok(CreatedNote {
        notebook_id: String::from_str(notebook_id),
        title,
        content,
        url: notebook_url(notebook_id),
    })
}

} // verus!
