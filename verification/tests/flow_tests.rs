use notebooklm_cli::error::AppError;
use notebooklm_cli::notebooklm::commands::add_source_flow::{add_source_step, AddPhase, BrowserAction, BrowserEvent};
use notebooklm_cli::notebooklm::commands::source_add_youtube::RefEntry;

const URL: &str = "https://youtu.be/abc";

fn entry(key: &str, role: &str, name: &str) -> RefEntry {
    RefEntry { key: key.to_string(), role: role.to_string(), name: name.to_string() }
}

fn step(phase: AddPhase, event: BrowserEvent) -> (AddPhase, BrowserAction) {
    add_source_step(phase, event, URL)
}

fn args(action: &BrowserAction) -> Vec<String> {
    match action {
        BrowserAction::Run(v) => v.clone(),
        other => panic!("{:?}", other),
    }
}

fn wait_ms(action: &BrowserAction) -> u64 {
    match action {
        BrowserAction::Wait(ms) => *ms,
        other => panic!("{:?}", other),
    }
}

fn failure_text(action: &BrowserAction) -> String {
    match action {
        BrowserAction::Fail(AppError::BrowserExecutionFailed(m)) => m.clone(),
        other => panic!("{:?}", other),
    }
}

#[test]
fn flow_uses_the_references_it_finds() {
    let (p, a) = step(AddPhase::Begin, BrowserEvent::Start);
    assert_eq!(p, AddPhase::ClosingNoteView);
    assert!(matches!(a, BrowserAction::CloseNoteView));
    let (p, a) = step(p, BrowserEvent::Evaluated);
    assert_eq!((p, wait_ms(&a)), (AddPhase::SettlingNoteView, 250));
    let (p, a) = step(p, BrowserEvent::Waited);
    assert_eq!(p, AddPhase::FindingWebsite);
    assert!(matches!(a, BrowserAction::Snapshot));
    let refs = vec![entry("e1", "link", "Website"), entry("e2", "button", "Add Website source")];
    let (p, a) = step(p, BrowserEvent::Refs(refs));
    assert_eq!(p, AddPhase::ClickingWebsite);
    assert_eq!(args(&a), vec!["click", "@e2"]);
    let (p, a) = step(p, BrowserEvent::RunOk);
    assert_eq!((p, wait_ms(&a)), (AddPhase::SettlingWebsite, 1000));
    let (p, _) = step(p, BrowserEvent::Waited);
    assert_eq!(p, AddPhase::FindingUrlBox);
    let (p, a) = step(p, BrowserEvent::Refs(vec![entry("e5", "textbox", "输入网址")]));
    assert_eq!(p, AddPhase::FillingUrl);
    assert_eq!(args(&a), vec!["fill", "@e5", URL]);
    let (p, a) = step(p, BrowserEvent::RunOk);
    assert_eq!((p, wait_ms(&a)), (AddPhase::SettlingUrl, 500));
    let (p, _) = step(p, BrowserEvent::Waited);
    let (p, a) = step(p, BrowserEvent::Refs(vec![entry("e9", "button", "Insert")]));
    assert_eq!(p, AddPhase::ClickingInsert);
    assert_eq!(args(&a), vec!["click", "@e9"]);
    let (p, a) = step(p, BrowserEvent::RunOk);
    assert_eq!((p, wait_ms(&a)), (AddPhase::SettlingInsert, 4500));
    let (p, a) = step(p, BrowserEvent::Waited);
    assert_eq!(p, AddPhase::Finished);
    assert!(matches!(a, BrowserAction::Done));
}

#[test]
fn flow_falls_back_to_the_add_source_button_and_texts() {
    let (p, a) = step(AddPhase::FindingWebsite, BrowserEvent::Refs(Vec::new()));
    assert_eq!(p, AddPhase::OpeningAddSource);
    assert_eq!(args(&a), vec!["find", "first", "button.add-source-button", "click"]);
    let (p, a) = step(p, BrowserEvent::RunOk);
    assert_eq!((p, wait_ms(&a)), (AddPhase::SettlingAddSource, 1000));
    let (p, a) = step(p, BrowserEvent::Waited);
    assert_eq!(p, AddPhase::FindingWebsiteAgain);
    assert!(matches!(a, BrowserAction::Snapshot));
    let (p, a) = step(p, BrowserEvent::Refs(vec![entry("e3", "textbox", "Website")]));
    assert_eq!(p, AddPhase::ClickingWebsiteText(0));
    assert_eq!(args(&a), vec!["find", "text", "网站", "click"]);
    let (p, a) = step(p, BrowserEvent::RunFailed(AppError::BrowserExecutionFailed("no".into())));
    assert_eq!(p, AddPhase::ClickingWebsiteText(1));
    assert_eq!(args(&a), vec!["find", "text", "Website", "click"]);
    let (p, a) = step(p, BrowserEvent::RunFailed(AppError::BrowserExecutionFailed("no".into())));
    assert_eq!(p, AddPhase::Finished);
    assert_eq!(failure_text(&a), "none of these text targets were clickable: 网站, Website");
}

#[test]
fn flow_tries_each_way_to_fill_the_url() {
    let (mut p, a) = step(AddPhase::FindingUrlBox, BrowserEvent::Refs(Vec::new()));
    assert_eq!(p, AddPhase::FillingUrlVariant(0));
    assert_eq!(args(&a), vec!["find", "label", "输入网址", "fill", URL]);
    let expected = [
        vec!["find", "label", "Enter URL", "fill", URL],
        vec!["find", "placeholder", "粘贴任何链接", "fill", URL],
        vec!["find", "placeholder", "Paste any link", "fill", URL],
    ];
    for (i, want) in expected.iter().enumerate() {
        let (next, a) = step(p, BrowserEvent::RunFailed(AppError::BrowserExecutionFailed("no".into())));
        assert_eq!(next, AddPhase::FillingUrlVariant(i + 1));
        assert_eq!(&args(&a), want);
        p = next;
    }
    let (p, a) = step(p, BrowserEvent::RunFailed(AppError::BrowserExecutionFailed("no".into())));
    assert_eq!(p, AddPhase::Finished);
    assert_eq!(failure_text(&a), "url input not found");
    let (p, a) = step(AddPhase::FillingUrlVariant(2), BrowserEvent::RunOk);
    assert_eq!((p, wait_ms(&a)), (AddPhase::SettlingUrl, 500));
}

#[test]
fn flow_insert_falls_back_to_texts() {
    let (p, a) = step(AddPhase::FindingInsert, BrowserEvent::Refs(vec![entry("e1", "button", "Cancel")]));
    assert_eq!(p, AddPhase::ClickingInsertText(0));
    assert_eq!(args(&a), vec!["find", "text", "插入", "click"]);
    let (p, a) = step(p, BrowserEvent::RunOk);
    assert_eq!((p, wait_ms(&a)), (AddPhase::SettlingInsert, 4500));
    let (p, a) = step(AddPhase::ClickingInsertText(1), BrowserEvent::RunFailed(AppError::Internal("x".into())));
    assert_eq!(p, AddPhase::Finished);
    assert_eq!(failure_text(&a), "none of these text targets were clickable: 插入, Insert");
}

#[test]
fn flow_stops_on_failures_and_unexpected_answers() {
    let (p, a) = step(AddPhase::ClickingWebsite, BrowserEvent::RunFailed(AppError::NotebooklmLoginRequired));
    assert_eq!(p, AddPhase::Finished);
    assert!(matches!(a, BrowserAction::Fail(AppError::NotebooklmLoginRequired)));
    let (p, a) = step(AddPhase::Begin, BrowserEvent::Waited);
    assert_eq!(p, AddPhase::Finished);
    assert!(matches!(a, BrowserAction::Fail(AppError::Internal(m)) if m == "unexpected browser event"));
    let (p, a) = step(AddPhase::ClosingNoteView, BrowserEvent::RunFailed(AppError::Internal("eval".into())));
    assert_eq!((p, wait_ms(&a)), (AddPhase::SettlingNoteView, 250));
    let (p, a) = step(AddPhase::Finished, BrowserEvent::RunOk);
    assert_eq!(p, AddPhase::Finished);
    assert!(matches!(a, BrowserAction::Done));
}

#[test]
fn flow_ends_within_twenty_four_steps_whatever_the_browser_says() {
    let answers = |a: &BrowserAction, round: usize| -> BrowserEvent {
        match a {
            BrowserAction::CloseNoteView => BrowserEvent::Evaluated,
            BrowserAction::Wait(_) => BrowserEvent::Waited,
            BrowserAction::Snapshot => BrowserEvent::Refs(Vec::new()),
            BrowserAction::Run(_) if round % 2 == 0 => BrowserEvent::RunOk,
            _ => BrowserEvent::RunFailed(AppError::Internal("x".into())),
        }
    };
    for seed in 0..4usize {
        let (mut p, mut a) = step(AddPhase::Begin, BrowserEvent::Start);
        let mut steps = 1;
        while !matches!(a, BrowserAction::Done | BrowserAction::Fail(_)) {
            let e = answers(&a, steps + seed);
            let (next, action) = step(p, e);
            p = next;
            a = action;
            steps += 1;
            assert!(steps <= 24);
        }
        assert_eq!(p, AddPhase::Finished);
    }
}
