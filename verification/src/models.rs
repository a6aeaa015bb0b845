//! The records the commands report.
use vstd::prelude::*;

verus! {

/// A notebook.
#[derive(Debug, Clone)]
pub struct Notebook {
    pub id: String,
    pub title: String,
    pub url: String,
    pub emoji: Option<String>,
    pub source_count: Option<u32>,
    pub is_owner: Option<bool>,
    pub created_at: Option<String>,
    pub updated_at: Option<String>,
}

/// A source of a notebook.
#[derive(Debug, Clone)]
pub struct Source {
    pub id: String,
    pub notebook_id: String,
    pub title: String,
    pub url: String,
    pub kind: Option<String>,
    pub size: Option<u64>,
    pub created_at: Option<String>,
    pub updated_at: Option<String>,
}

/// The full text of a source.
#[derive(Debug, Clone)]
pub struct SourceFulltext {
    pub source_id: String,
    pub notebook_id: String,
    pub title: String,
    pub content: String,
    pub char_count: u64,
}

/// The guide of a source: a summary and keywords.
#[derive(Debug, Clone)]
pub struct SourceGuide {
    pub source_id: String,
    pub notebook_id: String,
    pub title: String,
    pub summary: String,
    pub keywords: Vec<String>,
}

/// A conversation thread of a notebook.
#[derive(Debug, Clone)]
pub struct HistoryThread {
    pub thread_id: String,
    pub notebook_id: String,
    pub item_count: u32,
    pub preview: Option<String>,
    pub url: String,
}

/// A note of a notebook's Studio panel.
#[derive(Debug, Clone)]
pub struct Note {
    pub notebook_id: String,
    pub id: Option<String>,
    pub title: String,
    pub content: Option<String>,
    pub created_at: Option<String>,
    pub url: String,
}

/// The summary block of a notebook.
#[derive(Debug, Clone)]
pub struct NotebookSummary {
    pub notebook_id: String,
    pub title: String,
    pub summary: String,
    pub url: String,
}

} // verus!
