//! The browser steps that add a website source through the notebook's UI, as a
//! machine: where the flow stands and what the browser answered give the next phase
//! and the next step. The caller performs each step and reports its outcome.
use vstd::prelude::*;

use crate::error::{AppError, browser_failure_message};
use crate::notebooklm::commands::source_add_youtube::{
    RefEntry, found_ref, insert_button_names, ref_by_name, unclickable_error, url_box_names,
    url_input_missing, views_of, website_button_names,
};
use crate::text::join_seqs;

verus! {

/// Where the flow stands: the step issued last, whose outcome is awaited.
#[derive(Debug, Clone, Copy, PartialEq, Eq, Structural)]
pub enum AddPhase {
    /// Nothing issued yet.
    Begin,
    ClosingNoteView,
    SettlingNoteView,
    FindingWebsite,
    OpeningAddSource,
    SettlingAddSource,
    FindingWebsiteAgain,
    ClickingWebsite,
    /// Clicking the website button by its text, trying its `i`-th name.
    ClickingWebsiteText(usize),
    SettlingWebsite,
    FindingUrlBox,
    FillingUrl,
    /// Filling the URL input, trying the `i`-th way to find it.
    FillingUrlVariant(usize),
    SettlingUrl,
    FindingInsert,
    ClickingInsert,
    /// Clicking the insert button by its text, trying its `i`-th name.
    ClickingInsertText(usize),
    SettlingInsert,
    /// The flow has ended.
    Finished,
}

/// What the browser answered to the last step.
#[derive(Debug, Clone)]
pub enum BrowserEvent {
    /// The flow starts; no step was issued.
    Start,
    /// The note-view script ran (its answer does not matter).
    Evaluated,
    Waited,
    /// The elements of an interactive snapshot.
    Refs(Vec<RefEntry>),
    /// The agent-browser command succeeded.
    RunOk,
    /// The step failed.
    RunFailed(AppError),
}

/// The next step for the caller.
#[derive(Debug, Clone)]
pub enum BrowserAction {
    /// Run the script that closes an open note view.
    CloseNoteView,
    /// Wait this many milliseconds.
    Wait(u64),
    /// Take an interactive snapshot.
    Snapshot,
    /// Run agent-browser with these arguments.
    Run(Vec<String>),
    /// The source was submitted.
    Done,
    /// The flow failed.
    Fail(AppError),
}

/// The names of the website button, the URL box and the insert button.
pub open spec fn website_names() -> Seq<Seq<char>> {
    seq!["网站"@, "Website"@]
}

pub open spec fn url_box_labels() -> Seq<Seq<char>> {
    seq!["输入网址"@, "Enter URL"@]
}

pub open spec fn insert_names() -> Seq<Seq<char>> {
    seq!["插入"@, "Insert"@]
}

/// The command that clicks the element showing text `names[i]`.
pub open spec fn text_click(names: Seq<Seq<char>>, i: int) -> Seq<Seq<char>> {
    seq!["find"@, "text"@, names[i], "click"@]
}

/// The `i`-th command that types `url` into the URL input.
pub open spec fn fill_attempt_args(i: int, url: Seq<char>) -> Seq<Seq<char>> {
    if i == 0 {
        seq!["find"@, "label"@, "输入网址"@, "fill"@, url]
    } else if i == 1 {
        seq!["find"@, "label"@, "Enter URL"@, "fill"@, url]
    } else if i == 2 {
        seq!["find"@, "placeholder"@, "粘贴任何链接"@, "fill"@, url]
    } else {
        seq!["find"@, "placeholder"@, "Paste any link"@, "fill"@, url]
    }
}

/// The failure when none of the texts `names` could be clicked.
pub open spec fn unclickable_message(names: Seq<Seq<char>>) -> Seq<char> {
    "none of these text targets were clickable: "@ + join_seqs(names, ", "@)
}

/// `a` runs agent-browser with exactly `args`.
pub open spec fn runs(a: BrowserAction, args: Seq<Seq<char>>) -> bool {
    a matches BrowserAction::Run(v) && v@.map_values(|s: String| s@) == args
}

pub open spec fn waits(a: BrowserAction, ms: u64) -> bool {
    a matches BrowserAction::Wait(n) && n == ms
}

/// `a` ends the flow with the failure `err` that the browser reported.
pub open spec fn passes_on(a: BrowserAction, err: AppError) -> bool {
    a matches BrowserAction::Fail(x) && x == err
}

/// `a` ends the flow with a browser failure saying `m`.
pub open spec fn fails_saying(a: BrowserAction, m: Seq<char>) -> bool {
    a matches BrowserAction::Fail(x) && browser_failure_message(x) == Some(m)
}

/// `a` ends the flow because the answer does not fit the step that was issued.
pub open spec fn rejects(a: BrowserAction) -> bool {
    a matches BrowserAction::Fail(AppError::Internal(m)) && m@ == "unexpected browser event"@
}

/// `a` ends the flow.
pub open spec fn ends(a: BrowserAction) -> bool {
    a is Done || a is Fail
}

/// After a step that must succeed: `next` on `success`, the failure itself on a
/// failure, a refusal on any other answer.
pub open spec fn after(e: BrowserEvent, a: BrowserAction, success: bool, next: bool) -> bool {
    match e {
        BrowserEvent::RunFailed(err) => passes_on(a, err),
        _ => if success {
            next
        } else {
            rejects(a)
        },
    }
}

/// After a snapshot: the reference found for `names` and `role` is clicked or filled
/// (`with_ref`), else `fallback`.
pub open spec fn after_snapshot(
    e: BrowserEvent,
    a: BrowserAction,
    names: Seq<Seq<char>>,
    role: Seq<char>,
    verb: Seq<char>,
    extra: Seq<Seq<char>>,
    fallback: bool,
) -> bool {
    match e {
        BrowserEvent::Refs(refs) => match found_ref(refs@, names, role) {
            Some(r) => runs(a, seq![verb, r] + extra),
            None => fallback,
        },
        BrowserEvent::RunFailed(err) => passes_on(a, err),
        _ => rejects(a),
    }
}

/// The step issued in phase `p` once the browser answered `e`, for the video `url`.
pub open spec fn step_action(p: AddPhase, e: BrowserEvent, url: Seq<char>, a: BrowserAction) -> bool {
    match p {
        AddPhase::Begin => if e is Start {
            a is CloseNoteView
        } else {
            rejects(a)
        },
        AddPhase::ClosingNoteView => if e is Evaluated || e is RunFailed {
            waits(a, 250)
        } else {
            rejects(a)
        },
        AddPhase::SettlingNoteView => after(e, a, e is Waited, a is Snapshot),
        AddPhase::FindingWebsite => after_snapshot(
            e,
            a,
            website_names(),
            "button"@,
            "click"@,
            seq![],
            runs(a, seq!["find"@, "first"@, "button.add-source-button"@, "click"@]),
        ),
        AddPhase::OpeningAddSource => after(e, a, e is RunOk, waits(a, 1000)),
        AddPhase::SettlingAddSource => after(e, a, e is Waited, a is Snapshot),
        AddPhase::FindingWebsiteAgain => after_snapshot(
            e,
            a,
            website_names(),
            "button"@,
            "click"@,
            seq![],
            runs(a, text_click(website_names(), 0)),
        ),
        AddPhase::ClickingWebsite => after(e, a, e is RunOk, waits(a, 1000)),
        AddPhase::ClickingWebsiteText(i) => match e {
            BrowserEvent::RunOk => waits(a, 1000),
            BrowserEvent::RunFailed(_) => if i + 1 < 2 {
                runs(a, text_click(website_names(), i + 1))
            } else {
                fails_saying(a, unclickable_message(website_names()))
            },
            _ => rejects(a),
        },
        AddPhase::SettlingWebsite => after(e, a, e is Waited, a is Snapshot),
        AddPhase::FindingUrlBox => after_snapshot(
            e,
            a,
            url_box_labels(),
            "textbox"@,
            "fill"@,
            seq![url],
            runs(a, fill_attempt_args(0, url)),
        ),
        AddPhase::FillingUrl => after(e, a, e is RunOk, waits(a, 500)),
        AddPhase::FillingUrlVariant(i) => match e {
            BrowserEvent::RunOk => waits(a, 500),
            BrowserEvent::RunFailed(_) => if i + 1 < 4 {
                runs(a, fill_attempt_args(i + 1, url))
            } else {
                fails_saying(a, "url input not found"@)
            },
            _ => rejects(a),
        },
        AddPhase::SettlingUrl => after(e, a, e is Waited, a is Snapshot),
        AddPhase::FindingInsert => after_snapshot(
            e,
            a,
            insert_names(),
            "button"@,
            "click"@,
            seq![],
            runs(a, text_click(insert_names(), 0)),
        ),
        AddPhase::ClickingInsert => after(e, a, e is RunOk, waits(a, 4500)),
        AddPhase::ClickingInsertText(i) => match e {
            BrowserEvent::RunOk => waits(a, 4500),
            BrowserEvent::RunFailed(_) => if i + 1 < 2 {
                runs(a, text_click(insert_names(), i + 1))
            } else {
                fails_saying(a, unclickable_message(insert_names()))
            },
            _ => rejects(a),
        },
        AddPhase::SettlingInsert => after(e, a, e is Waited, a is Done),
        AddPhase::Finished => a is Done,
    }
}

/// The phase after `p` once the browser answered `e`: the phase of the step
/// `step_action` issues, or `Finished` when that step ends the flow.
pub open spec fn next_phase(p: AddPhase, e: BrowserEvent) -> AddPhase {
    let refs_found = |names: Seq<Seq<char>>, role: Seq<char>|
        e matches BrowserEvent::Refs(refs) && found_ref(refs@, names, role) is Some;
    match p {
        AddPhase::Begin => if e is Start {
            AddPhase::ClosingNoteView
        } else {
            AddPhase::Finished
        },
        AddPhase::ClosingNoteView => if e is Evaluated || e is RunFailed {
            AddPhase::SettlingNoteView
        } else {
            AddPhase::Finished
        },
        AddPhase::SettlingNoteView => if e is Waited {
            AddPhase::FindingWebsite
        } else {
            AddPhase::Finished
        },
        AddPhase::FindingWebsite => if !(e is Refs) {
            AddPhase::Finished
        } else if refs_found(website_names(), "button"@) {
            AddPhase::ClickingWebsite
        } else {
            AddPhase::OpeningAddSource
        },
        AddPhase::OpeningAddSource => if e is RunOk {
            AddPhase::SettlingAddSource
        } else {
            AddPhase::Finished
        },
        AddPhase::SettlingAddSource => if e is Waited {
            AddPhase::FindingWebsiteAgain
        } else {
            AddPhase::Finished
        },
        AddPhase::FindingWebsiteAgain => if !(e is Refs) {
            AddPhase::Finished
        } else if refs_found(website_names(), "button"@) {
            AddPhase::ClickingWebsite
        } else {
            AddPhase::ClickingWebsiteText(0)
        },
        AddPhase::ClickingWebsite => if e is RunOk {
            AddPhase::SettlingWebsite
        } else {
            AddPhase::Finished
        },
        AddPhase::ClickingWebsiteText(i) => if e is RunOk {
            AddPhase::SettlingWebsite
        } else if e is RunFailed && i + 1 < 2 {
            AddPhase::ClickingWebsiteText((i + 1) as usize)
        } else {
            AddPhase::Finished
        },
        AddPhase::SettlingWebsite => if e is Waited {
            AddPhase::FindingUrlBox
        } else {
            AddPhase::Finished
        },
        AddPhase::FindingUrlBox => if !(e is Refs) {
            AddPhase::Finished
        } else if refs_found(url_box_labels(), "textbox"@) {
            AddPhase::FillingUrl
        } else {
            AddPhase::FillingUrlVariant(0)
        },
        AddPhase::FillingUrl => if e is RunOk {
            AddPhase::SettlingUrl
        } else {
            AddPhase::Finished
        },
        AddPhase::FillingUrlVariant(i) => if e is RunOk {
            AddPhase::SettlingUrl
        } else if e is RunFailed && i + 1 < 4 {
            AddPhase::FillingUrlVariant((i + 1) as usize)
        } else {
            AddPhase::Finished
        },
        AddPhase::SettlingUrl => if e is Waited {
            AddPhase::FindingInsert
        } else {
            AddPhase::Finished
        },
        AddPhase::FindingInsert => if !(e is Refs) {
            AddPhase::Finished
        } else if refs_found(insert_names(), "button"@) {
            AddPhase::ClickingInsert
        } else {
            AddPhase::ClickingInsertText(0)
        },
        AddPhase::ClickingInsert => if e is RunOk {
            AddPhase::SettlingInsert
        } else {
            AddPhase::Finished
        },
        AddPhase::ClickingInsertText(i) => if e is RunOk {
            AddPhase::SettlingInsert
        } else if e is RunFailed && i + 1 < 2 {
            AddPhase::ClickingInsertText((i + 1) as usize)
        } else {
            AddPhase::Finished
        },
        AddPhase::SettlingInsert => AddPhase::Finished,
        AddPhase::Finished => AddPhase::Finished,
    }
}


/// How far phase `p` is into the flow.
pub open spec fn rank(p: AddPhase) -> nat {
    match p {
        AddPhase::Begin => 0,
        AddPhase::ClosingNoteView => 1,
        AddPhase::SettlingNoteView => 2,
        AddPhase::FindingWebsite => 3,
        AddPhase::OpeningAddSource => 4,
        AddPhase::SettlingAddSource => 5,
        AddPhase::FindingWebsiteAgain => 6,
        AddPhase::ClickingWebsite => 7,
        AddPhase::ClickingWebsiteText(i) => if i == 0 {
            8
        } else {
            9
        },
        AddPhase::SettlingWebsite => 10,
        AddPhase::FindingUrlBox => 11,
        AddPhase::FillingUrl => 12,
        AddPhase::FillingUrlVariant(i) => if i < 3 {
            (13 + i) as nat
        } else {
            16
        },
        AddPhase::SettlingUrl => 17,
        AddPhase::FindingInsert => 18,
        AddPhase::ClickingInsert => 19,
        AddPhase::ClickingInsertText(i) => if i == 0 {
            20
        } else {
            21
        },
        AddPhase::SettlingInsert => 22,
        AddPhase::Finished => 23,
    }
}

/// The flow always ends: every step that does not end it moves to a later phase,
/// and no phase lies more than 23 phases after the start.
pub proof fn law_add_source_flow_advances(p: AddPhase, e: BrowserEvent, url: Seq<char>, a: BrowserAction)
    requires
        step_action(p, e, url, a),
    ensures
        ends(a) || rank(next_phase(p, e)) > rank(p),
        rank(p) <= 23,
{
}

/// A step ends the flow exactly when the flow moves to `Finished`.
pub proof fn law_add_source_flow_ends_when_finished(p: AddPhase, e: BrowserEvent, url: Seq<char>, a: BrowserAction)
    requires
        step_action(p, e, url, a),
    ensures
        ends(a) <==> next_phase(p, e) is Finished,
{
}

/// The only text the flow ever types is the video URL: a command that fills
/// something ends with `url`.
pub proof fn law_add_source_fills_only_the_url(p: AddPhase, e: BrowserEvent, url: Seq<char>, a: BrowserAction)
    requires
        step_action(p, e, url, a),
    ensures
        a matches BrowserAction::Run(v) ==> ((exists|k: int| 0 <= k < v@.len() && (#[trigger] v@[k])@ == "fill"@)
            ==> v@.len() > 0 && v@.last()@ == url),
{
    reveal_strlit("fill");
    reveal_strlit("find");
    reveal_strlit("text");
    reveal_strlit("first");
    reveal_strlit("click");
    reveal_strlit("label");
    reveal_strlit("placeholder");
    reveal_strlit("button.add-source-button");
    reveal_strlit("网站");
    reveal_strlit("Website");
    reveal_strlit("插入");
    reveal_strlit("Insert");
    reveal_strlit("输入网址");
    reveal_strlit("Enter URL");
    reveal_strlit("粘贴任何链接");
    reveal_strlit("Paste any link");
    if let BrowserAction::Run(v) = a {
        let args = v@.map_values(|s: String| s@);
        if exists|k: int| 0 <= k < v@.len() && (#[trigger] v@[k])@ == "fill"@ {
            let k = choose|k: int| 0 <= k < v@.len() && (#[trigger] v@[k])@ == "fill"@;
            assert(args[k] == "fill"@);
            assert(args.last() == v@.last()@);
            // No other word of a command is `fill`: a reference starts with `@`.
            assert(forall|r: Seq<char>| #[trigger] (seq!['@'] + r)[0] == '@');
            assert("click"@[0] != "fill"@[0]);
            assert("find"@[2] != "fill"@[2]);
            assert("text"@[0] != "fill"@[0]);
        }
    }
}

/// Clicking a text (or filling the URL input) tries every alternative in turn: when
/// an attempt fails and an alternative remains, the next step is the next
/// alternative; the flow fails only after the last one failed.
pub proof fn law_retries_try_every_alternative(p: AddPhase, err: AppError, url: Seq<char>, a: BrowserAction)
    requires
        step_action(p, BrowserEvent::RunFailed(err), url, a),
    ensures
        p matches AddPhase::ClickingInsertText(i) ==> (i + 1 < insert_names().len() ==> runs(
            a,
            seq!["find"@, "text"@, insert_names()[i + 1], "click"@],
        ) && next_phase(p, BrowserEvent::RunFailed(err)) == AddPhase::ClickingInsertText((i + 1) as usize)),
        p matches AddPhase::ClickingInsertText(i) ==> (ends(a) ==> i + 1 >= insert_names().len()),
        p matches AddPhase::ClickingWebsiteText(i) ==> (i + 1 < website_names().len() ==> runs(
            a,
            seq!["find"@, "text"@, website_names()[i + 1], "click"@],
        ) && next_phase(p, BrowserEvent::RunFailed(err)) == AddPhase::ClickingWebsiteText((i + 1) as usize)),
        p matches AddPhase::ClickingWebsiteText(i) ==> (ends(a) ==> i + 1 >= website_names().len()),
        p matches AddPhase::FillingUrlVariant(i) ==> (i + 1 < 4 ==> runs(
            a,
            seq!["find"@, if i + 1 < 2 { "label"@ } else { "placeholder"@ }, url_input_names()[i + 1], "fill"@, url],
        ) && next_phase(p, BrowserEvent::RunFailed(err)) == AddPhase::FillingUrlVariant((i + 1) as usize)),
        p matches AddPhase::FillingUrlVariant(i) ==> (ends(a) ==> i + 1 >= 4),
{
}

/// The labels and placeholders the URL input is looked up by, in order.
pub open spec fn url_input_names() -> Seq<Seq<char>> {
    seq!["输入网址"@, "Enter URL"@, "粘贴任何链接"@, "Paste any link"@]
}

fn strings(parts: &Vec<&str>) -> (r: Vec<String>)
    ensures
        r@.map_values(|s: String| s@) == views_of(parts@),
{
    let mut r: Vec<String> = Vec::new();
    let mut i: usize = 0;
    while i < parts.len()
        invariant
            i <= parts.len(),
            r@.len() == i,
            forall|j: int| 0 <= j < i ==> (#[trigger] r@[j])@ == parts@[j]@,
        decreases parts.len() - i,
    {
        r.push(String::from_str(parts[i]));
        i = i + 1;
    }
    assert(r@.map_values(|s: String| s@) =~= views_of(parts@));
    r
}

fn text_click_command(names: &Vec<&str>, i: usize) -> (r: Vec<String>)
    requires
        i < names.len(),
    ensures
        r@.map_values(|s: String| s@) == text_click(views_of(names@), i as int),
{
    let mut parts: Vec<&str> = Vec::new();
    parts.push("find");
    parts.push("text");
    parts.push(names[i]);
    parts.push("click");
    assert(views_of(parts@) =~= text_click(views_of(names@), i as int));
    strings(&parts)
}

fn fill_attempt_command(i: usize, url: &str) -> (r: Vec<String>)
    requires
        i < 4,
    ensures
        r@.map_values(|s: String| s@) == fill_attempt_args(i as int, url@),
{
    let mut parts: Vec<&str> = Vec::new();
    parts.push("find");
    if i == 0 {
        parts.push("label");
        parts.push("输入网址");
    } else if i == 1 {
        parts.push("label");
        parts.push("Enter URL");
    } else if i == 2 {
        parts.push("placeholder");
        parts.push("粘贴任何链接");
    } else {
        parts.push("placeholder");
        parts.push("Paste any link");
    }
    parts.push("fill");
    parts.push(url);
    assert(views_of(parts@) =~= fill_attempt_args(i as int, url@));
    strings(&parts)
}

fn unexpected() -> (a: BrowserAction)
    ensures
        rejects(a),
{
    BrowserAction::Fail(AppError::Internal(String::from_str("unexpected browser event")))
}

/// The answer to a step that must succeed: `next` and `action` when the answer is
/// `Waited` (for a wait or a snapshot-free step) or `RunOk` (for a command).
fn after_step(event: BrowserEvent, expects_wait: bool, next: AddPhase, action: BrowserAction) -> (r: (AddPhase, BrowserAction))
    ensures
        match event {
            BrowserEvent::RunFailed(err) => r.0 == AddPhase::Finished && passes_on(r.1, err),
            BrowserEvent::Waited => if expects_wait {
                r.0 == next && r.1 == action
            } else {
                r.0 == AddPhase::Finished && rejects(r.1)
            },
            BrowserEvent::RunOk => if !expects_wait {
                r.0 == next && r.1 == action
            } else {
                r.0 == AddPhase::Finished && rejects(r.1)
            },
            _ => r.0 == AddPhase::Finished && rejects(r.1),
        },
{
    match event {
        BrowserEvent::RunFailed(err) => (AddPhase::Finished, BrowserAction::Fail(err)),
        BrowserEvent::Waited => if expects_wait {
            (next, action)
        } else {
            (AddPhase::Finished, unexpected())
        },
        BrowserEvent::RunOk => if !expects_wait {
            (next, action)
        } else {
            (AddPhase::Finished, unexpected())
        },
        _ => (AddPhase::Finished, unexpected()),
    }
}

/// The answer to a snapshot: act on the reference found for `names` and `role`
/// (`verb`, the reference, then `extra`), else fall back.
fn after_snapshot_step(
    event: BrowserEvent,
    names: &Vec<&str>,
    role: &str,
    verb: &str,
    extra: Option<&str>,
    found_phase: AddPhase,
    fallback_phase: AddPhase,
    fallback: Vec<String>,
) -> (r: (AddPhase, BrowserAction))
    ensures
        match event {
            BrowserEvent::Refs(refs) => match found_ref(refs@, views_of(names@), role@) {
                Some(x) => r.0 == found_phase && runs(r.1, seq![verb@, x] + match extra {
                    Some(u) => seq![u@],
                    None => Seq::<Seq<char>>::empty(),
                }),
                None => r.0 == fallback_phase && runs(r.1, fallback@.map_values(|s: String| s@)),
            },
            BrowserEvent::RunFailed(err) => r.0 == AddPhase::Finished && passes_on(r.1, err),
            _ => r.0 == AddPhase::Finished && rejects(r.1),
        },
{
    match event {
        BrowserEvent::Refs(refs) => match ref_by_name(&refs, names, role) {
            Some(found) => {
                let mut parts: Vec<&str> = Vec::new();
                parts.push(verb);
                parts.push(found.as_str());
                match extra {
                    Some(u) => parts.push(u),
                    None => {},
                }
                let args = strings(&parts);
                assert(views_of(parts@) =~= seq![verb@, found@] + match extra {
                    Some(u) => seq![u@],
                    None => Seq::<Seq<char>>::empty(),
                });
                (found_phase, BrowserAction::Run(args))
            },
            None => (fallback_phase, BrowserAction::Run(fallback)),
        },
        BrowserEvent::RunFailed(err) => (AddPhase::Finished, BrowserAction::Fail(err)),
        _ => (AddPhase::Finished, unexpected()),
    }
}

fn names_to_strings(names: &Vec<&str>) -> (r: Vec<String>)
    ensures
        r@.map_values(|s: String| s@) == views_of(names@),
{
    strings(names)
}

/// The next phase and step of the flow that adds `url`, from phase `phase` and the
/// browser's answer `event`.
pub fn add_source_step(phase: AddPhase, event: BrowserEvent, url: &str) -> (r: (AddPhase, BrowserAction))
    ensures
        r.0 == next_phase(phase, event),
        step_action(phase, event, url@, r.1),
{
    let website = website_button_names();
    let url_box = url_box_names();
    let insert = insert_button_names();
    assert(views_of(website@) =~= website_names());
    assert(views_of(url_box@) =~= url_box_labels());
    assert(views_of(insert@) =~= insert_names());
    match phase {
        AddPhase::Begin => match event {
            BrowserEvent::Start => (AddPhase::ClosingNoteView, BrowserAction::CloseNoteView),
            _ => (AddPhase::Finished, unexpected()),
        },
        AddPhase::ClosingNoteView => match event {
            BrowserEvent::Evaluated => (AddPhase::SettlingNoteView, BrowserAction::Wait(250)),
            BrowserEvent::RunFailed(_) => (AddPhase::SettlingNoteView, BrowserAction::Wait(250)),
            _ => (AddPhase::Finished, unexpected()),
        },
        AddPhase::SettlingNoteView => after_step(event, true, AddPhase::FindingWebsite, BrowserAction::Snapshot),
        AddPhase::FindingWebsite => {
            let mut parts: Vec<&str> = Vec::new();
            parts.push("find");
            parts.push("first");
            parts.push("button.add-source-button");
            parts.push("click");
            let open = strings(&parts);
            assert(views_of(parts@) =~= seq!["find"@, "first"@, "button.add-source-button"@, "click"@]);
            after_snapshot_step(
                event,
                &website,
                "button",
                "click",
                None,
                AddPhase::ClickingWebsite,
                AddPhase::OpeningAddSource,
                open,
            )
        },
        AddPhase::OpeningAddSource => after_step(event, false, AddPhase::SettlingAddSource, BrowserAction::Wait(1000)),
        AddPhase::SettlingAddSource => after_step(event, true, AddPhase::FindingWebsiteAgain, BrowserAction::Snapshot),
        AddPhase::FindingWebsiteAgain => {
            let first = text_click_command(&website, 0);
            after_snapshot_step(
                event,
                &website,
                "button",
                "click",
                None,
                AddPhase::ClickingWebsite,
                AddPhase::ClickingWebsiteText(0),
                first,
            )
        },
        AddPhase::ClickingWebsite => after_step(event, false, AddPhase::SettlingWebsite, BrowserAction::Wait(1000)),
        AddPhase::ClickingWebsiteText(i) => match event {
            BrowserEvent::RunOk => (AddPhase::SettlingWebsite, BrowserAction::Wait(1000)),
            BrowserEvent::RunFailed(_) => if i < 1 {
                (AddPhase::ClickingWebsiteText(i + 1), BrowserAction::Run(text_click_command(&website, i + 1)))
            } else {
                (AddPhase::Finished, BrowserAction::Fail(unclickable_error(&names_to_strings(&website))))
            },
            _ => (AddPhase::Finished, unexpected()),
        },
        AddPhase::SettlingWebsite => after_step(event, true, AddPhase::FindingUrlBox, BrowserAction::Snapshot),
        AddPhase::FindingUrlBox => {
            let first = fill_attempt_command(0, url);
            after_snapshot_step(
                event,
                &url_box,
                "textbox",
                "fill",
                Some(url),
                AddPhase::FillingUrl,
                AddPhase::FillingUrlVariant(0),
                first,
            )
        },
        AddPhase::FillingUrl => after_step(event, false, AddPhase::SettlingUrl, BrowserAction::Wait(500)),
        AddPhase::FillingUrlVariant(i) => match event {
            BrowserEvent::RunOk => (AddPhase::SettlingUrl, BrowserAction::Wait(500)),
            BrowserEvent::RunFailed(_) => if i < 3 {
                (AddPhase::FillingUrlVariant(i + 1), BrowserAction::Run(fill_attempt_command(i + 1, url)))
            } else {
                (AddPhase::Finished, BrowserAction::Fail(url_input_missing()))
            },
            _ => (AddPhase::Finished, unexpected()),
        },
        AddPhase::SettlingUrl => after_step(event, true, AddPhase::FindingInsert, BrowserAction::Snapshot),
        AddPhase::FindingInsert => {
            let first = text_click_command(&insert, 0);
            after_snapshot_step(
                event,
                &insert,
                "button",
                "click",
                None,
                AddPhase::ClickingInsert,
                AddPhase::ClickingInsertText(0),
                first,
            )
        },
        AddPhase::ClickingInsert => after_step(event, false, AddPhase::SettlingInsert, BrowserAction::Wait(4500)),
        AddPhase::ClickingInsertText(i) => match event {
            BrowserEvent::RunOk => (AddPhase::SettlingInsert, BrowserAction::Wait(4500)),
            BrowserEvent::RunFailed(_) => if i < 1 {
                (AddPhase::ClickingInsertText(i + 1), BrowserAction::Run(text_click_command(&insert, i + 1)))
            } else {
                (AddPhase::Finished, BrowserAction::Fail(unclickable_error(&names_to_strings(&insert))))
            },
            _ => (AddPhase::Finished, unexpected()),
        },
        AddPhase::SettlingInsert => after_step(event, true, AddPhase::Finished, BrowserAction::Done),
        AddPhase::Finished => (AddPhase::Finished, BrowserAction::Done),
    }
}

} // verus!
