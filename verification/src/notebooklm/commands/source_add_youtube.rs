//! `source_add_youtube`: a YouTube video added as a source, in the open notebook or
//! in a new one.
use vstd::prelude::*;

use crate::error::{AppError, browser_failure_message, invalid_params_message};
use crate::notebooklm::commands::params::{text_or_empty, trimmed_param};
use crate::notebooklm::rpc::{PageState, notebook_url, notebook_url_of};
use crate::text::{
    chars_of, concat2, contains_chars, contains_seq, join_seqs, join_strings, lowercase, str_contains,
    str_eq, to_lowercase, trim_seq,
};

verus! {

/// A lower-cased URL names a YouTube video when it contains `youtube.com/` or `youtu.be/`.
pub open spec fn names_youtube(lowered: Seq<char>) -> bool {
    contains_seq(lowered, "youtube.com/"@) || contains_seq(lowered, "youtu.be/"@)
}

/// A URL names a YouTube video when its lower-cased text does.
pub open spec fn is_youtube_link(url: Seq<char>) -> bool {
    names_youtube(lowercase(url))
}

/// Checks the trimmed video URL `url` of a request, whose lower-cased text is
/// `lowered`: not empty, and a YouTube link.
pub fn check_youtube_url(url: String, lowered: &str) -> (r: Result<String, AppError>)
    ensures
        url@.len() == 0 ==> (r is Err && invalid_params_message(r->Err_0) == Some("url is required"@)),
        url@.len() > 0 && !names_youtube(lowered@) ==> (r is Err && invalid_params_message(r->Err_0) == Some(
            "url must be a YouTube link"@,
        )),
        url@.len() > 0 && names_youtube(lowered@) ==> (r matches Ok(u) && u@ == url@),
{
    if url.as_str().unicode_len() == 0 {
        return Err(AppError::InvalidParams(String::from_str("url is required")));
    }
    if !(str_contains(lowered, "youtube.com/") || str_contains(lowered, "youtu.be/")) {
        return Err(AppError::InvalidParams(String::from_str("url must be a YouTube link")));
    }
    Ok(url)
}

/// The video URL of a request: trimmed, not empty, and a YouTube link.
pub fn youtube_url(param: Option<&str>) -> (r: Result<String, AppError>)
    ensures
        trim_seq(text_or_empty(param)).len() == 0 ==> (r is Err && invalid_params_message(
            r->Err_0,
        ) == Some("url is required"@)),
        trim_seq(text_or_empty(param)).len() > 0 && !is_youtube_link(trim_seq(text_or_empty(param)))
            ==> (r is Err && invalid_params_message(r->Err_0) == Some(
            "url must be a YouTube link"@,
        )),
        trim_seq(text_or_empty(param)).len() > 0 && is_youtube_link(trim_seq(text_or_empty(param)))
            ==> (r matches Ok(u) && u@ == trim_seq(text_or_empty(param))),
{
    let url = trimmed_param(param);
    let lowered = to_lowercase(url.as_str());
    check_youtube_url(url, lowered.as_str())
}

/// The number of sources a listing reports: the length of its rows, none when it is
/// not a list.
pub fn parse_source_count(rows: Option<usize>) -> (r: usize)
    ensures
        r == match rows {
            Some(n) => n,
            None => 0,
        },
{
    match rows {
        Some(n) => n,
        None => 0,
    }
}

/// What a submitted YouTube source reports: the notebook, the video, the notebook's
/// page, the source counts before and after, and which listed source is the newest.
#[derive(Debug, Clone)]
pub struct YoutubeSourceAdded {
    pub notebook_id: String,
    pub youtube_url: String,
    pub url: String,
    pub accepted: bool,
    pub source_count_before: usize,
    pub source_count_after: usize,
    /// The index of the newest source among those listed after the insert.
    pub latest_source: Option<usize>,
}

/// The report for video `youtube_url` submitted to notebook `notebook_id`, whose
/// source listings before and after had `before_rows` and `after_rows` rows (none
/// when the listing was not a list).
pub fn youtube_source_added(
    notebook_id: &str,
    youtube_url: String,
    before_rows: Option<usize>,
    after_rows: Option<usize>,
) -> (r: YoutubeSourceAdded)
    ensures
        r.notebook_id@ == notebook_id@,
        r.youtube_url@ == youtube_url@,
        r.url@ == notebook_url_of(notebook_id@),
        r.accepted,
        r.source_count_before == (match before_rows {
            Some(n) => n,
            None => 0,
        }),
        r.source_count_after == (match after_rows {
            Some(n) => n,
            None => 0,
        }),
        r.source_count_after > 0 ==> r.latest_source == Some((r.source_count_after - 1) as usize),
        r.source_count_after == 0 ==> r.latest_source is None,
{
    let before = parse_source_count(before_rows);
    let after = parse_source_count(after_rows);
    YoutubeSourceAdded {
        notebook_id: String::from_str(notebook_id),
        youtube_url,
        url: notebook_url(notebook_id),
        accepted: true,
        source_count_before: before,
        source_count_after: after,
        latest_source: if after > 0 {
            Some(after - 1)
        } else {
            None
        },
    }
}

/// One element of an accessibility snapshot: its reference key, role and name.
#[derive(Debug, Clone)]
pub struct RefEntry {
    pub key: String,
    pub role: String,
    pub name: String,
}

/// `e` has role `role` and a name that contains one of `names`.
pub open spec fn ref_matches(e: RefEntry, names: Seq<Seq<char>>, role: Seq<char>) -> bool {
    &&& e.role@ == role
    &&& exists|k: int| 0 <= k < names.len() && contains_seq(e.name@, #[trigger] names[k])
}

/// Element `i` of `v` is the first that matches.
pub open spec fn is_first_match(v: Seq<RefEntry>, names: Seq<Seq<char>>, role: Seq<char>, i: int) -> bool {
    &&& 0 <= i < v.len()
    &&& ref_matches(v[i], names, role)
    &&& forall|j: int| 0 <= j < i ==> !ref_matches(#[trigger] v[j], names, role)
}

/// The reference (`@` and the key) of the first element of `refs` with role `role`
/// whose name contains one of `names`, if there is one.
pub open spec fn found_ref(refs: Seq<RefEntry>, names: Seq<Seq<char>>, role: Seq<char>) -> Option<Seq<char>> {
    if exists|i: int| is_first_match(refs, names, role, i) {
        Some(seq!['@'] + refs[choose|i: int| is_first_match(refs, names, role, i)].key@)
    } else {
        None
    }
}

/// The views of the strings `names`.
pub open spec fn views_of(names: Seq<&str>) -> Seq<Seq<char>> {
    names.map_values(|s: &str| s@)
}

proof fn lemma_first_match_unique(v: Seq<RefEntry>, names: Seq<Seq<char>>, role: Seq<char>, i: int, j: int)
    requires
        is_first_match(v, names, role, i),
        is_first_match(v, names, role, j),
    ensures
        i == j,
{
    if i < j {
        assert(!ref_matches(v[i], names, role));
    } else if j < i {
        assert(!ref_matches(v[j], names, role));
    }
}

fn name_contains_any(name: &str, names: &Vec<&str>) -> (r: bool)
    ensures
        r == exists|k: int| 0 <= k < names@.len() && contains_seq(name@, #[trigger] views_of(names@)[k]),
{
    let n = names.len();
    let mut k: usize = 0;
    while k < n
        invariant
            n == names.len(),
            k <= n,
            forall|j: int| 0 <= j < k ==> !contains_seq(name@, #[trigger] views_of(names@)[j]),
        decreases n - k,
    {
        if str_contains(name, names[k]) {
            assert(contains_seq(name@, views_of(names@)[k as int]));
            return true;
        }
        k = k + 1;
    }
    false
}

/// The reference of the first snapshot element with role `role` whose name contains
/// one of `names`; none when there is no such element.
pub fn ref_by_name(refs: &Vec<RefEntry>, names: &Vec<&str>, role: &str) -> (r: Option<String>)
    ensures
        match r {
            Some(s) => found_ref(refs@, views_of(names@), role@) == Some(s@),
            None => found_ref(refs@, views_of(names@), role@) is None,
        },
{
    let ghost wanted = views_of(names@);
    let n = refs.len();
    let mut i: usize = 0;
    while i < n
        invariant
            n == refs.len(),
            i <= n,
            wanted == views_of(names@),
            forall|j: int| 0 <= j < i ==> !ref_matches(#[trigger] refs@[j], wanted, role@),
        decreases n - i,
    {
        let e = &refs[i];
        if str_eq(e.role.as_str(), role) && name_contains_any(e.name.as_str(), names) {
            let found = concat2("@", e.key.as_str());
            proof {
                reveal_strlit("@");
                assert(wanted.len() == names@.len());
                assert(ref_matches(refs@[i as int], wanted, role@));
                assert(is_first_match(refs@, wanted, role@, i as int));
                let c = choose|c: int| is_first_match(refs@, wanted, role@, c);
                lemma_first_match_unique(refs@, wanted, role@, i as int, c);
                assert(found@ =~= seq!['@'] + refs@[i as int].key@);
            }
            return Some(found);
        }
        proof {
            if ref_matches(refs@[i as int], wanted, role@) {
                let k = choose|k: int| 0 <= k < wanted.len() && contains_seq(refs@[i as int].name@, #[trigger] wanted[k]);
                assert(contains_seq(e.name@, views_of(names@)[k]));
            }
        }
        i = i + 1;
    }
    proof {
        assert forall|c: int| !is_first_match(refs@, wanted, role@, c) by {
            if 0 <= c < refs@.len() {
                assert(!ref_matches(refs@[c], wanted, role@));
            }
        }
    }
    None
}

/// The script that closes an open note view.
pub const CLOSE_NOTE_VIEW_SCRIPT: &'static str = r#"(() => {
            const close = Array.from(document.querySelectorAll('button')).find(el => {
                const label = (el.getAttribute('aria-label') || '').toLowerCase();
                return label.includes('关闭笔记视图') || label.includes('close note view');
            });
            if (close instanceof HTMLElement) close.click();
            return JSON.stringify({ ok: true });
        })()"#;

/// The names of the button that opens the website form.
pub fn website_button_names() -> (r: Vec<&'static str>)
    ensures
        r@.len() == 2,
        r@[0]@ == "网站"@,
        r@[1]@ == "Website"@,
{
    let mut r: Vec<&'static str> = Vec::new();
    r.push("网站");
    r.push("Website");
    r
}

/// The names of the URL text box.
pub fn url_box_names() -> (r: Vec<&'static str>)
    ensures
        r@.len() == 2,
        r@[0]@ == "输入网址"@,
        r@[1]@ == "Enter URL"@,
{
    let mut r: Vec<&'static str> = Vec::new();
    r.push("输入网址");
    r.push("Enter URL");
    r
}

/// The names of the button that inserts the URL.
pub fn insert_button_names() -> (r: Vec<&'static str>)
    ensures
        r@.len() == 2,
        r@[0]@ == "插入"@,
        r@[1]@ == "Insert"@,
{
    let mut r: Vec<&'static str> = Vec::new();
    r.push("插入");
    r.push("Insert");
    r
}

/// The error when none of the text targets `values` could be clicked.
pub fn unclickable_error(values: &Vec<String>) -> (r: AppError)
    ensures
        browser_failure_message(r) == Some(
            "none of these text targets were clickable: "@ + join_seqs(
                values@.map_values(|v: String| v@),
                ", "@,
            ),
        ),
{
    let joined = join_strings(values, ", ");
    AppError::BrowserExecutionFailed(concat2("none of these text targets were clickable: ", joined.as_str()))
}

/// The error when no URL input could be filled.
pub fn url_input_missing() -> (r: AppError)
    ensures
        browser_failure_message(r) == Some("url input not found"@),
{
    AppError::BrowserExecutionFailed(String::from_str("url input not found"))
}

/// The `i`-th agent-browser command tried to click the button that creates a
/// notebook: two waits for its label, a wait for the button and its click, a click
/// by role and name for each label, a click on the first such button, and a click
/// on each label's text.
pub open spec fn create_click_args(i: int) -> Seq<Seq<char>> {
    if i == 0 {
        seq!["wait"@, "--text"@, "新建笔记本"@]
    } else if i == 1 {
        seq!["wait"@, "--text"@, "Create notebook"@]
    } else if i == 2 {
        seq!["wait"@, "button.create-notebook-button"@]
    } else if i == 3 {
        seq!["click"@, "button.create-notebook-button"@]
    } else if i == 4 {
        seq!["find"@, "role"@, "button"@, "click"@, "--name"@, "新建笔记本"@]
    } else if i == 5 {
        seq!["find"@, "role"@, "button"@, "click"@, "--name"@, "Create notebook"@]
    } else if i == 6 {
        seq!["find"@, "first"@, "button.create-notebook-button"@, "click"@]
    } else if i == 7 {
        seq!["find"@, "text"@, "新建笔记本"@, "click"@]
    } else {
        seq!["find"@, "text"@, "Create notebook"@, "click"@]
    }
}

/// How many commands the click on the create button may take.
pub const CREATE_CLICK_COMMANDS: usize = 9;

/// The `i`-th command tried to click the button that creates a notebook.
pub fn create_click_command(i: usize) -> (r: Vec<String>)
    requires
        i < CREATE_CLICK_COMMANDS,
    ensures
        r@.map_values(|s: String| s@) == create_click_args(i as int),
{
    let mut parts: Vec<&str> = Vec::new();
    if i == 0 || i == 1 {
        parts.push("wait");
        parts.push("--text");
        parts.push(if i == 0 { "新建笔记本" } else { "Create notebook" });
    } else if i == 2 {
        parts.push("wait");
        parts.push("button.create-notebook-button");
    } else if i == 3 {
        parts.push("click");
        parts.push("button.create-notebook-button");
    } else if i == 4 || i == 5 {
        parts.push("find");
        parts.push("role");
        parts.push("button");
        parts.push("click");
        parts.push("--name");
        parts.push(if i == 4 { "新建笔记本" } else { "Create notebook" });
    } else if i == 6 {
        parts.push("find");
        parts.push("first");
        parts.push("button.create-notebook-button");
        parts.push("click");
    } else {
        parts.push("find");
        parts.push("text");
        parts.push(if i == 7 { "新建笔记本" } else { "Create notebook" });
        parts.push("click");
    }
    let mut r: Vec<String> = Vec::new();
    let mut k: usize = 0;
    while k < parts.len()
        invariant
            k <= parts.len(),
            r@.len() == k,
            forall|j: int| 0 <= j < k ==> (#[trigger] r@[j])@ == parts@[j]@,
        decreases parts.len() - k,
    {
        r.push(String::from_str(parts[k]));
        k = k + 1;
    }
    assert(r@.map_values(|s: String| s@) =~= create_click_args(i as int));
    r
}

/// What follows a command of the click on the create button.
#[derive(Debug, Clone)]
pub enum CreateClick {
    /// Run the command with this index next.
    Try(usize),
    /// The button was clicked.
    Clicked,
    /// No command clicked it.
    Failed(AppError),
}

/// What follows command `i` of the click on the create button, which succeeded when
/// `ok`: the waits for a label never decide; after the wait for the button its click
/// comes only if the wait succeeded; any later command that succeeds ends the search,
/// and when the last one fails no label was clickable.
pub fn create_click_next(i: usize, ok: bool) -> (r: CreateClick)
    requires
        i < CREATE_CLICK_COMMANDS,
    ensures
        i < 2 ==> (r matches CreateClick::Try(j) && j == i + 1),
        i == 2 ==> (r matches CreateClick::Try(j) && j == if ok {
            3int
        } else {
            4int
        }),
        3 <= i && ok ==> r is Clicked,
        3 <= i < 8 && !ok ==> (r matches CreateClick::Try(j) && j == i + 1),
        i == 8 && !ok ==> r is Failed && browser_failure_message(r->Failed_0) == Some(
            "none of these text targets were clickable: "@ + join_seqs(seq!["新建笔记本"@, "Create notebook"@], ", "@),
        ),
        r matches CreateClick::Try(j) ==> i < j < CREATE_CLICK_COMMANDS,
{
    if i < 2 {
        CreateClick::Try(i + 1)
    } else if i == 2 {
        CreateClick::Try(if ok { 3 } else { 4 })
    } else if ok {
        CreateClick::Clicked
    } else if i < 8 {
        CreateClick::Try(i + 1)
    } else {
        let mut labels: Vec<String> = Vec::new();
        labels.push(String::from_str("新建笔记本"));
        labels.push(String::from_str("Create notebook"));
        assert(labels@.map_values(|v: String| v@) =~= seq!["新建笔记本"@, "Create notebook"@]);
        CreateClick::Failed(unclickable_error(&labels))
    }
}

/// How many times the page is checked for the new notebook, and the wait before each check.
pub const CREATE_POLL_ATTEMPTS: u32 = 20;

pub const CREATE_POLL_WAIT_MS: u64 = 500;

/// The page shows a notebook that exists (a new one reads `creating` until it does).
pub open spec fn shows_ready_notebook(state: PageState) -> bool {
    &&& state.kind@ == "notebook"@
    &&& state.notebook_id@.len() > 0
    &&& state.notebook_id@ != "creating"@
}

fn ready_notebook(state: &PageState) -> (r: bool)
    ensures
        r == shows_ready_notebook(*state),
{
    str_eq(state.kind.as_str(), "notebook") && state.notebook_id.as_str().unicode_len() > 0 && !str_eq(
        state.notebook_id.as_str(),
        "creating",
    )
}

/// Where the search for a target notebook starts, given the open page.
#[derive(Debug, Clone)]
pub enum CreationStart {
    /// The open notebook is the target.
    Use(String),
    /// Go to the home page, then create a notebook.
    GoHomeAndCreate,
    /// Create a notebook from the home page that is open.
    Create,
}

/// The first decision for a request without a notebook: fail without a login, use
/// the open notebook, or create one (from the home page).
pub fn creation_start(state: &PageState) -> (r: Result<CreationStart, AppError>)
    ensures
        state.login_required ==> r matches Err(AppError::NotebooklmLoginRequired),
        !state.login_required && shows_ready_notebook(*state) ==> (r matches Ok(CreationStart::Use(id))
            && id@ == state.notebook_id@),
        !state.login_required && !shows_ready_notebook(*state) && state.kind@ != "home"@ ==> r matches Ok(
            CreationStart::GoHomeAndCreate,
        ),
        !state.login_required && !shows_ready_notebook(*state) && state.kind@ == "home"@ ==> r matches Ok(
            CreationStart::Create,
        ),
{
    if state.login_required {
        return Err(AppError::NotebooklmLoginRequired);
    }
    if ready_notebook(state) {
        return Ok(CreationStart::Use(state.notebook_id.clone()));
    }
    if !str_eq(state.kind.as_str(), "home") {
        Ok(CreationStart::GoHomeAndCreate)
    } else {
        Ok(CreationStart::Create)
    }
}

/// One check while the new notebook opens: fail without a login, the notebook once
/// it is ready, nothing yet otherwise.
pub fn created_notebook(state: &PageState) -> (r: Result<Option<String>, AppError>)
    ensures
        state.login_required ==> r matches Err(AppError::NotebooklmLoginRequired),
        !state.login_required && shows_ready_notebook(*state) ==> (r matches Ok(Some(id)) && id@
            == state.notebook_id@),
        !state.login_required && !shows_ready_notebook(*state) ==> r matches Ok(None),
{
    if state.login_required {
        return Err(AppError::NotebooklmLoginRequired);
    }
    if ready_notebook(state) {
        Ok(Some(state.notebook_id.clone()))
    } else {
        Ok(None)
    }
}

/// The error when no new notebook opened within the checks.
pub fn creation_timed_out() -> (r: AppError)
    ensures
        browser_failure_message(r) == Some("timed out waiting for a new notebook to open"@),
{
    AppError::BrowserExecutionFailed(String::from_str("timed out waiting for a new notebook to open"))
}

} // verus!
