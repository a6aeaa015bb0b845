//! Note previews: collecting the notes of every notebook of every account into
//! the local database, and the rules for their keys and preview texts.
use vstd::prelude::*;

use crate::db::NewPreviewNoteEntry;
use crate::error::{AppError, browser_failure_message};
use crate::notebooklm::rpc::PageState;
use crate::json::{json_error_text, json_string, json_string_literal};
use crate::text::{
    chars_of, collapse_white_space, collapse_white_space_chars, concat2, concat3, lowercase, string_from_chars,
    to_lowercase, trim, trim_seq,
};

verus! {

/// How often the previews are collected, in seconds.
pub const PREVIEW_SYNC_INTERVAL_SECS: u64 = 300;

/// How many characters a stored preview keeps.
pub const PREVIEW_CHARS: usize = 240;

/// What one collection added, skipped, and on how many ports it failed.
#[derive(Debug, Clone)]
pub struct PreviewSyncResult {
    pub added: u64,
    pub skipped: u64,
    pub failed_ports: u64,
}

/// The first `max_chars` characters of `content` with its white space collapsed.
pub open spec fn preview_of(content: Seq<char>, max_chars: nat) -> Seq<char> {
    let normalized = collapse_white_space(content);
    if normalized.len() <= max_chars {
        normalized
    } else {
        normalized.take(max_chars as int)
    }
}

/// The preview of `content`: its words joined by single spaces, cut after `max_chars` characters.
pub fn preview_text(content: &str, max_chars: usize) -> (r: String)
    ensures
        r@ == preview_of(content@, max_chars as nat),
{
    let chars = chars_of(content);
    let normalized = collapse_white_space_chars(&chars);
    if normalized.len() <= max_chars {
        return string_from_chars(&normalized);
    }
    let mut out: Vec<char> = Vec::new();
    let mut i: usize = 0;
    while i < max_chars
        invariant
            max_chars < normalized.len(),
            i <= max_chars,
            out@ == normalized@.take(i as int),
        decreases max_chars - i,
    {
        out.push(normalized[i]);
        i = i + 1;
        assert(out@ =~= normalized@.take(i as int));
    }
    string_from_chars(&out)
}

/// A preview holds at most `max_chars` characters, all taken from the start of the
/// collapsed content, which is well spaced.
pub proof fn law_preview_is_bounded_prefix(content: Seq<char>, max_chars: nat)
    ensures
        preview_of(content, max_chars).len() <= max_chars,
        collapse_white_space(content).take(preview_of(content, max_chars).len() as int) == preview_of(
            content,
            max_chars,
        ),
        crate::text::well_spaced(collapse_white_space(content)),
{
    let c = collapse_white_space(content);
    if c.len() <= max_chars {
        assert(c.take(c.len() as int) =~= c);
    }
    crate::text::law_collapsed_is_well_spaced(content);
}

/// The key a note is stored under: its title without surrounding white space, lower-cased.
pub open spec fn note_key_of(title: Seq<char>) -> Seq<char> {
    lowercase(trim_seq(title))
}

/// Titles that differ only in surrounding white space share a key: the key of a
/// trimmed title is the key of the title.
pub proof fn law_note_key_ignores_surrounding_space(title: Seq<char>)
    ensures
        note_key_of(trim_seq(title)) == note_key_of(title),
{
    crate::text::lemma_trim_idempotent(title);
}

/// The key note `title` is stored under.
pub fn note_key(title: &str) -> (r: String)
    ensures
        r@ == note_key_of(title@),
{
    let t = trim(title);
    to_lowercase(t.as_str())
}

/// The browser session name used to collect the notes behind `cdp_port`.
pub fn sync_session_name(cdp_port: &str) -> (r: String)
    ensures
        r@ == "preview-sync-"@ + cdp_port@,
{
    concat2("preview-sync-", cdp_port)
}

/// The scripts of the collection: reading a notebook-list RPC result (around the
/// result's JSON), listing the notes of the Studio panel, opening a note (around its
/// quoted title), and reading the open note.
pub const PREVIEW_NOTEBOOKS_SCRIPT_0: &'static str = r#"(() => {
            const result = "#;

pub const PREVIEW_NOTEBOOKS_SCRIPT_1: &'static str = r#";
            if (!Array.isArray(result) || result.length === 0) return JSON.stringify({ notebooks: [] });
            const rawNotebooks = Array.isArray(result[0]) ? result[0] : result;
            const notebooks = (Array.isArray(rawNotebooks) ? rawNotebooks : [])
                .filter(item => Array.isArray(item))
                .map(item => {
                    const id = typeof item[2] === 'string' ? item[2] : '';
                    let title = typeof item[0] === 'string' ? item[0].replace(/^thought\s*\n/, '') : '';
                    title = title.replace(/\s+/g, ' ').trim() || 'Untitled Notebook';
                    return { id, title };
                })
                .filter(item => item.id);
            return JSON.stringify({ notebooks });
        })()"#;

pub const PREVIEW_NOTES_SCRIPT: &'static str = r#"(() => {
                const notes = Array.from(document.querySelectorAll('artifact-library-note'))
                    .map(node => {
                        const titleNode = node.querySelector('.artifact-title');
                        const title = (titleNode?.textContent || '').replace(/\s+/g, ' ').trim();
                        return { title };
                    })
                    .filter(note => note.title);
                return JSON.stringify({ notes });
            })()"#;

pub const OPEN_NOTE_SCRIPT_0: &'static str = r#"(async (needle) => {
            const normalize = (value) => (value || '').replace(/\s+/g, ' ').trim().toLowerCase();
            const target = normalize(needle);
            const rows = Array.from(document.querySelectorAll('artifact-library-note'));
            const row = rows.find(node => {
                const titleNode = node.querySelector('.artifact-title');
                return normalize(titleNode?.textContent || '') === target;
            });
            if (!row) return JSON.stringify({ ok: false, error: 'note not found' });
            row.scrollIntoView({ block: 'center' });
            row.click();
            await new Promise(resolve => setTimeout(resolve, 1200));
            return JSON.stringify({ ok: true });
        })("#;

pub const OPEN_NOTE_SCRIPT_1: &'static str = r#")"#;

pub const READ_VISIBLE_NOTE_SCRIPT: &'static str = r#"(() => {
                const normalize = (value) => (value || '').replace(/\u00a0/g, ' ').replace(/\r\n/g, '\n').trim();
                const titleNode = document.querySelector('.note-header__editable-title');
                const title = titleNode instanceof HTMLInputElement || titleNode instanceof HTMLTextAreaElement
                    ? titleNode.value
                    : (titleNode?.textContent || '');
                const editor = document.querySelector('.note-editor .ql-editor, .note-editor [contenteditable="true"], .note-editor textarea');
                let content = '';
                if (editor instanceof HTMLTextAreaElement || editor instanceof HTMLInputElement) {
                    content = editor.value || '';
                } else if (editor) {
                    content = editor.innerText || editor.textContent || '';
                }
                return JSON.stringify({
                    title: normalize(title),
                    content: normalize(content),
                });
            })()"#;

/// The script that reads the notebooks (identifier and title) of `result_json`.
pub fn preview_notebooks_script(result_json: &str) -> (r: String)
    ensures
        r@ == PREVIEW_NOTEBOOKS_SCRIPT_0@ + result_json@ + PREVIEW_NOTEBOOKS_SCRIPT_1@,
        r@.take((PREVIEW_NOTEBOOKS_SCRIPT_0@.len() + result_json@.len()) as int) == PREVIEW_NOTEBOOKS_SCRIPT_0@ + result_json@,
{
    concat3(PREVIEW_NOTEBOOKS_SCRIPT_0, result_json, PREVIEW_NOTEBOOKS_SCRIPT_1)
}

/// The script that opens the note titled `title`.
pub fn open_note_script(title: &str) -> (r: Result<String, AppError>)
    ensures
        r matches Ok(s) && s@ == OPEN_NOTE_SCRIPT_0@ + json_string(title@) + OPEN_NOTE_SCRIPT_1@,
{
    match json_string_literal(title) {
        Ok(quoted) => Ok(concat3(OPEN_NOTE_SCRIPT_0, quoted.as_str(), OPEN_NOTE_SCRIPT_1)),
        Err(e) => Err(AppError::Internal(json_error_text(&e))),
    }
}

/// What the answer of the open-note script means: opened when `ok` is true, else a
/// browser failure with the script's error, or a generic message.
pub fn note_opened(ok: Option<bool>, error: Option<String>) -> (r: Result<(), AppError>)
    ensures
        ok == Some(true) ==> r is Ok,
        ok != Some(true) ==> (r is Err && browser_failure_message(r->Err_0) == Some(
            match error {
                Some(e) => e@,
                None => "failed to open note"@,
            },
        )),
{
    if ok == Some(true) {
        return Ok(());
    }
    let message = match error {
        Some(e) => e,
        None => String::from_str("failed to open note"),
    };
    Err(AppError::BrowserExecutionFailed(message))
}

/// Where a note comes from: its account, port and notebook.
#[derive(Debug, Clone)]
pub struct NoteOrigin {
    pub cdp_port: String,
    pub google_account: String,
    pub notebook_id: String,
    pub notebook_title: String,
}

/// The preview to store for the note read from the editor (`title`, `content`)
/// under `key`, fetched at `now`: none when the title is blank.
pub fn preview_entry(
    origin: &NoteOrigin,
    key: &str,
    title: &str,
    content: &str,
    now: u64,
) -> (r: Option<NewPreviewNoteEntry>)
    ensures
        trim_seq(title@).len() == 0 ==> r is None,
        trim_seq(title@).len() > 0 ==> (r matches Some(e) && e.cdp_port@ == origin.cdp_port@
            && e.google_account@ == origin.google_account@ && e.notebook_id@ == origin.notebook_id@
            && e.notebook_title@ == origin.notebook_title@ && e.note_key@ == key@ && e.note_title@
            == title@ && e.content@ == content@ && e.content_preview@ == preview_of(
            content@,
            PREVIEW_CHARS as nat,
        ) && e.fetched_at == now && e.created_at == now),
{
    let trimmed = trim(title);
    if trimmed.as_str().unicode_len() == 0 {
        return None;
    }
    Some(NewPreviewNoteEntry {
        cdp_port: origin.cdp_port.clone(),
        google_account: origin.google_account.clone(),
        notebook_id: origin.notebook_id.clone(),
        notebook_title: origin.notebook_title.clone(),
        note_key: String::from_str(key),
        note_title: String::from_str(title),
        content: String::from_str(content),
        content_preview: preview_text(content, PREVIEW_CHARS),
        fetched_at: now,
        created_at: now,
    })
}

/// What became of one note listed during a collection.
#[derive(Debug, Clone)]
pub enum NoteOutcome {
    /// Already stored under its key.
    Skipped,
    /// Opened, but the editor showed no title.
    Blank,
    /// Stored.
    Added,
}

/// How many of `outcomes` are additions.
pub open spec fn added_count(outcomes: Seq<NoteOutcome>) -> nat
    decreases outcomes.len(),
{
    if outcomes.len() == 0 {
        0
    } else {
        added_count(outcomes.drop_last()) + if outcomes.last() is Added {
            1nat
        } else {
            0nat
        }
    }
}

/// How many of `outcomes` are skips.
pub open spec fn skipped_count(outcomes: Seq<NoteOutcome>) -> nat
    decreases outcomes.len(),
{
    if outcomes.len() == 0 {
        0
    } else {
        skipped_count(outcomes.drop_last()) + if outcomes.last() is Skipped {
            1nat
        } else {
            0nat
        }
    }
}

/// A port never reports more additions and skips together than notes it listed.
pub proof fn law_port_counts_bounded(outcomes: Seq<NoteOutcome>)
    ensures
        added_count(outcomes) + skipped_count(outcomes) <= outcomes.len(),
    decreases outcomes.len(),
{
    if outcomes.len() > 0 {
        law_port_counts_bounded(outcomes.drop_last());
    }
}

/// The result of collecting one port whose notes had `outcomes`.
pub fn port_sync_result(outcomes: &Vec<NoteOutcome>) -> (r: PreviewSyncResult)
    ensures
        r.added == added_count(outcomes@),
        r.skipped == skipped_count(outcomes@),
        r.failed_ports == 0,
{
    let n = outcomes.len();
    let mut added: u64 = 0;
    let mut skipped: u64 = 0;
    let mut i: usize = 0;
    while i < n
        invariant
            n == outcomes.len(),
            i <= n,
            added == added_count(outcomes@.take(i as int)),
            skipped == skipped_count(outcomes@.take(i as int)),
        decreases n - i,
    {
        proof {
            assert(outcomes@.take(i + 1).drop_last() =~= outcomes@.take(i as int));
            law_port_counts_bounded(outcomes@.take(i + 1));
        }
        match outcomes[i] {
            NoteOutcome::Added => {
                added = added + 1;
            },
            NoteOutcome::Skipped => {
                skipped = skipped + 1;
            },
            NoteOutcome::Blank => {},
        }
        i = i + 1;
    }
    assert(outcomes@.take(n as int) =~= outcomes@);
    PreviewSyncResult { added, skipped, failed_ports: 0 }
}

/// The collection of one port under way: its port and signed-in account, and what
/// became of each note listed so far.
#[derive(Debug, Clone)]
pub struct PortSyncRun {
    pub cdp_port: String,
    pub google_account: String,
    pub outcomes: Vec<NoteOutcome>,
}

/// Starts collecting the notes behind `cdp_port`, whose home page shows `state`:
/// refused when the page needs a login, else for the account the page shows.
pub fn begin_port_sync(cdp_port: &str, state: &PageState) -> (r: Result<PortSyncRun, AppError>)
    ensures
        state.login_required ==> r matches Err(AppError::NotebooklmLoginRequired),
        !state.login_required ==> (r matches Ok(run) && run.cdp_port@ == cdp_port@ && run.google_account@
            == state.google_account@ && run.outcomes@.len() == 0),
{
    if state.login_required {
        return Err(AppError::NotebooklmLoginRequired);
    }
    Ok(PortSyncRun {
        cdp_port: String::from_str(cdp_port),
        google_account: state.google_account.clone(),
        outcomes: Vec::new(),
    })
}

impl PortSyncRun {
    /// A note was listed whose preview is stored already (`stored`) or not: a stored
    /// one counts as skipped, any other is to be opened (the answer).
    pub fn note_listed(&mut self, stored: bool) -> (open: bool)
        ensures
            open == !stored,
            stored ==> final(self).outcomes@ == old(self).outcomes@.push(NoteOutcome::Skipped),
            !stored ==> final(self).outcomes@ == old(self).outcomes@,
            final(self).cdp_port == old(self).cdp_port,
            final(self).google_account == old(self).google_account,
    {
        if stored {
            self.outcomes.push(NoteOutcome::Skipped);
        }
        !stored
    }

    /// The note opened from notebook `notebook_id` (`notebook_title`) under `key`
    /// read as `title` and `content` at `now`: the preview to store, unless the title
    /// is blank; counted as added or blank.
    pub fn note_read(
        &mut self,
        notebook_id: &str,
        notebook_title: &str,
        key: &str,
        title: &str,
        content: &str,
        now: u64,
    ) -> (r: Option<NewPreviewNoteEntry>)
        ensures
            final(self).cdp_port == old(self).cdp_port,
            final(self).google_account == old(self).google_account,
            trim_seq(title@).len() == 0 ==> (r is None && final(self).outcomes@ == old(self).outcomes@.push(
                NoteOutcome::Blank,
            )),
            trim_seq(title@).len() > 0 ==> (r matches Some(e) && e.cdp_port@ == old(self).cdp_port@
                && e.google_account@ == old(self).google_account@ && e.notebook_id@ == notebook_id@
                && e.notebook_title@ == notebook_title@ && e.note_key@ == key@ && e.note_title@ == title@
                && e.content@ == content@ && e.content_preview@ == preview_of(content@, PREVIEW_CHARS as nat)
                && e.fetched_at == now && e.created_at == now && final(self).outcomes@ == old(
                self,
            ).outcomes@.push(NoteOutcome::Added)),
    {
        let origin = NoteOrigin {
            cdp_port: self.cdp_port.clone(),
            google_account: self.google_account.clone(),
            notebook_id: String::from_str(notebook_id),
            notebook_title: String::from_str(notebook_title),
        };
        let entry = preview_entry(&origin, key, title, content, now);
        match entry {
            Some(e) => {
                self.outcomes.push(NoteOutcome::Added);
                Some(e)
            },
            None => {
                self.outcomes.push(NoteOutcome::Blank);
                None
            },
        }
    }

    /// What the collection of this port reports.
    pub fn result(&self) -> (r: PreviewSyncResult)
        ensures
            r.added == added_count(self.outcomes@),
            r.skipped == skipped_count(self.outcomes@),
            r.failed_ports == 0,
    {
        port_sync_result(&self.outcomes)
    }
}

/// What became of one port during a collection.
#[derive(Debug, Clone)]
pub enum PortSync {
    Synced(PreviewSyncResult),
    /// The collection of the port failed; the text names the port and the error.
    Failed(String),
}

/// The text recorded for a port whose collection failed with `error`.
pub fn port_failure(cdp_port: &str, error: &str) -> (r: String)
    ensures
        r@ == cdp_port@ + ": "@ + error@,
{
    concat3(cdp_port, ": ", error)
}

/// The sum of the additions over `ports`.
pub open spec fn total_added(ports: Seq<PortSync>) -> nat
    decreases ports.len(),
{
    if ports.len() == 0 {
        0
    } else {
        total_added(ports.drop_last()) + match ports.last() {
            PortSync::Synced(r) => r.added as nat,
            PortSync::Failed(_) => 0nat,
        }
    }
}

/// The sum of the skips over `ports`.
pub open spec fn total_skipped(ports: Seq<PortSync>) -> nat
    decreases ports.len(),
{
    if ports.len() == 0 {
        0
    } else {
        total_skipped(ports.drop_last()) + match ports.last() {
            PortSync::Synced(r) => r.skipped as nat,
            PortSync::Failed(_) => 0nat,
        }
    }
}

/// How many of `ports` failed.
pub open spec fn failed_count(ports: Seq<PortSync>) -> nat
    decreases ports.len(),
{
    if ports.len() == 0 {
        0
    } else {
        failed_count(ports.drop_last()) + if ports.last() is Failed {
            1nat
        } else {
            0nat
        }
    }
}

/// The text of the last failure among `ports`, if any.
pub open spec fn last_failure(ports: Seq<PortSync>) -> Option<Seq<char>>
    decreases ports.len(),
{
    if ports.len() == 0 {
        None
    } else {
        match ports.last() {
            PortSync::Failed(e) => Some(e@),
            PortSync::Synced(_) => last_failure(ports.drop_last()),
        }
    }
}

proof fn lemma_totals_monotone(ports: Seq<PortSync>, i: int)
    requires
        0 <= i <= ports.len(),
    ensures
        total_added(ports.take(i)) <= total_added(ports),
        total_skipped(ports.take(i)) <= total_skipped(ports),
        failed_count(ports.take(i)) <= failed_count(ports),
        failed_count(ports) <= ports.len(),
    decreases ports.len(),
{
    if ports.len() > 0 {
        if i == ports.len() {
            assert(ports.take(i) =~= ports);
            lemma_totals_monotone(ports.drop_last(), i - 1);
        } else {
            assert(ports.drop_last().take(i) =~= ports.take(i));
            lemma_totals_monotone(ports.drop_last(), i);
        }
    }
}

/// The totals of a collection over `ports`, and the text of its last failure.
pub fn sync_totals(ports: &Vec<PortSync>) -> (r: (PreviewSyncResult, Option<String>))
    requires
        total_added(ports@) <= u64::MAX,
        total_skipped(ports@) <= u64::MAX,
    ensures
        r.0.added == total_added(ports@),
        r.0.skipped == total_skipped(ports@),
        r.0.failed_ports == failed_count(ports@),
        match r.1 {
            Some(t) => last_failure(ports@) == Some(t@),
            None => last_failure(ports@) is None,
        },
{
    let n = ports.len();
    let mut added: u64 = 0;
    let mut skipped: u64 = 0;
    let mut failed: u64 = 0;
    let mut last: Option<String> = None;
    let mut i: usize = 0;
    while i < n
        invariant
            n == ports.len(),
            i <= n,
            total_added(ports@) <= u64::MAX,
            total_skipped(ports@) <= u64::MAX,
            added == total_added(ports@.take(i as int)),
            skipped == total_skipped(ports@.take(i as int)),
            failed == failed_count(ports@.take(i as int)),
            match last {
                Some(t) => last_failure(ports@.take(i as int)) == Some(t@),
                None => last_failure(ports@.take(i as int)) is None,
            },
        decreases n - i,
    {
        proof {
            assert(ports@.take(i + 1).drop_last() =~= ports@.take(i as int));
            lemma_totals_monotone(ports@, i + 1);
            lemma_totals_monotone(ports@.take(i + 1), i + 1);
        }
        match &ports[i] {
            PortSync::Synced(r) => {
                added = added + r.added;
                skipped = skipped + r.skipped;
            },
            PortSync::Failed(e) => {
                failed = failed + 1;
                last = Some(e.clone());
            },
        }
        i = i + 1;
    }
    assert(ports@.take(n as int) =~= ports@);
    (PreviewSyncResult { added, skipped, failed_ports: failed }, last)
}

/// The state of the periodic collection.
#[derive(Debug, Clone)]
pub struct PreviewStatus {
    pub running: bool,
    pub last_started_at: Option<u64>,
    pub last_finished_at: Option<u64>,
    pub last_error: Option<String>,
    pub last_added: u64,
    pub last_skipped: u64,
    pub last_failed_ports: u64,
}

/// The status once a collection started at `now` from the idle status `s`.
pub open spec fn begun(s: PreviewStatus, now: u64) -> PreviewStatus {
    PreviewStatus {
        running: true,
        last_started_at: Some(now),
        last_finished_at: s.last_finished_at,
        last_error: None,
        last_added: 0,
        last_skipped: 0,
        last_failed_ports: 0,
    }
}

/// The status once the running collection of `s` ended at `now` with `totals` and
/// the last failure `last_error`.
pub open spec fn finished(
    s: PreviewStatus,
    totals: PreviewSyncResult,
    last_error: Option<String>,
    now: u64,
) -> PreviewStatus {
    PreviewStatus {
        running: false,
        last_started_at: s.last_started_at,
        last_finished_at: Some(now),
        last_error: last_error,
        last_added: totals.added,
        last_skipped: totals.skipped,
        last_failed_ports: totals.failed_ports,
    }
}

/// Starts a collection at `now`, unless one is running: then nothing changes and
/// the answer is false.
pub fn begin_sync(status: &mut PreviewStatus, now: u64) -> (started: bool)
    ensures
        started == !old(status).running,
        !started ==> *final(status) == *old(status),
        started ==> *final(status) == begun(*old(status), now),
{
    if status.running {
        return false;
    }
    status.running = true;
    status.last_started_at = Some(now);
    status.last_error = None;
    status.last_added = 0;
    status.last_skipped = 0;
    status.last_failed_ports = 0;
    true
}

/// Ends a collection at `now` with `totals` and the text of its last failure.
pub fn finish_sync(status: &mut PreviewStatus, totals: &PreviewSyncResult, last_error: Option<String>, now: u64)
    ensures
        *final(status) == finished(*old(status), *totals, last_error, now),
{
    status.running = false;
    status.last_finished_at = Some(now);
    status.last_added = totals.added;
    status.last_skipped = totals.skipped;
    status.last_failed_ports = totals.failed_ports;
    status.last_error = last_error;
}

/// A collection that starts at `t0` from an idle status and ends at `t1` leaves the
/// status idle, with the start time, the end time, the totals and the last failure
/// of that collection; a collection asked for while one runs changes nothing.
pub proof fn law_sync_cycle(
    s: PreviewStatus,
    totals: PreviewSyncResult,
    last_error: Option<String>,
    t0: u64,
    t1: u64,
)
    ensures
        !s.running ==> {
            let e = finished(begun(s, t0), totals, last_error, t1);
            &&& !e.running
            &&& e.last_started_at == Some(t0)
            &&& e.last_finished_at == Some(t1)
            &&& e.last_added == totals.added
            &&& e.last_skipped == totals.skipped
            &&& e.last_failed_ports == totals.failed_ports
            &&& e.last_error == last_error
        },
        begun(s, t0).running,
{
}

/// The result reported when a collection is asked for while one runs.
pub fn nothing_synced() -> (r: PreviewSyncResult)
    ensures
        r.added == 0 && r.skipped == 0 && r.failed_ports == 0,
{
    PreviewSyncResult { added: 0, skipped: 0, failed_ports: 0 }
}

/// A collection over all ports under way: what became of each port so far, in order.
#[derive(Debug, Clone)]
pub struct PreviewSyncRun {
    pub ports: Vec<PortSync>,
}

impl PreviewSyncRun {
    /// A collection with no port done yet.
    pub fn new() -> (r: Self)
        ensures
            r.ports@.len() == 0,
    {
        PreviewSyncRun { ports: Vec::new() }
    }

    /// The next port was collected with `result`.
    pub fn port_synced(&mut self, result: PreviewSyncResult)
        ensures
            final(self).ports@ == old(self).ports@.push(PortSync::Synced(result)),
    {
        self.ports.push(PortSync::Synced(result));
    }

    /// The collection of the next port, `cdp_port`, failed with `error`.
    pub fn port_failed(&mut self, cdp_port: &str, error: &str)
        ensures
            final(self).ports@.len() == old(self).ports@.len() + 1,
            final(self).ports@.drop_last() == old(self).ports@,
            final(self).ports@.last() matches PortSync::Failed(t) && t@ == cdp_port@ + ": "@ + error@,
    {
        self.ports.push(PortSync::Failed(port_failure(cdp_port, error)));
        assert(self.ports@.drop_last() =~= old(self).ports@);
    }

    /// Whether the additions and the skips over the ports so far each fit in a `u64`.
    pub fn totals_fit(&self) -> (r: bool)
        ensures
            r == (total_added(self.ports@) <= u64::MAX && total_skipped(self.ports@) <= u64::MAX),
    {
        let n = self.ports.len();
        let mut added: u64 = 0;
        let mut skipped: u64 = 0;
        let mut i: usize = 0;
        while i < n
            invariant
                n == self.ports.len(),
                i <= n,
                added == total_added(self.ports@.take(i as int)),
                skipped == total_skipped(self.ports@.take(i as int)),
            decreases n - i,
        {
            proof {
                assert(self.ports@.take(i + 1).drop_last() =~= self.ports@.take(i as int));
                lemma_totals_monotone(self.ports@, i + 1);
            }
            match &self.ports[i] {
                PortSync::Synced(r) => {
                    match added.checked_add(r.added) {
                        Some(x) => added = x,
                        None => return false,
                    }
                    match skipped.checked_add(r.skipped) {
                        Some(x) => skipped = x,
                        None => return false,
                    }
                },
                PortSync::Failed(_) => {},
            }
            i = i + 1;
        }
        assert(self.ports@.take(n as int) =~= self.ports@);
        true
    }

    /// Ends the collection at `now`: records its totals and its last failure in
    /// `status`, and gives the totals.
    pub fn finish(&self, status: &mut PreviewStatus, now: u64) -> (r: PreviewSyncResult)
        requires
            total_added(self.ports@) <= u64::MAX,
            total_skipped(self.ports@) <= u64::MAX,
        ensures
            r.added == total_added(self.ports@),
            r.skipped == total_skipped(self.ports@),
            r.failed_ports == failed_count(self.ports@),
            !final(status).running,
            final(status).last_started_at == old(status).last_started_at,
            final(status).last_finished_at == Some(now),
            final(status).last_added == r.added,
            final(status).last_skipped == r.skipped,
            final(status).last_failed_ports == r.failed_ports,
            match final(status).last_error {
                Some(t) => last_failure(self.ports@) == Some(t@),
                None => last_failure(self.ports@) is None,
            },
    {
        let (totals, last) = sync_totals(&self.ports);
        finish_sync(status, &totals, last, now);
        totals
    }
}

} // verus!
