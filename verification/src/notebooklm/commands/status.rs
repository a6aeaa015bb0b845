//! `status`: whether NotebookLM is reachable and signed in, and as whom.
use vstd::prelude::*;

use crate::notebooklm::rpc::PageState;

verus! {

/// What `status` reports of the home page: where it is, whether a login is needed,
/// how many notebooks it shows, and the signed-in Google account.
#[derive(Debug, Clone)]
pub struct StatusReport {
    pub url: String,
    pub title: String,
    pub hostname: String,
    pub kind: String,
    pub notebook_id: String,
    pub login_required: bool,
    pub notebook_count: u32,
    pub google_account: String,
}

/// The status report of page state `state`.
pub fn status_report(state: &PageState) -> (r: StatusReport)
    ensures
        r.url@ == state.url@,
        r.title@ == state.title@,
        r.hostname@ == state.hostname@,
        r.kind@ == state.kind@,
        r.notebook_id@ == state.notebook_id@,
        r.login_required == state.login_required,
        r.notebook_count == state.notebook_count,
        r.google_account@ == state.google_account@,
{
    StatusReport {
        url: state.url.clone(),
        title: state.title.clone(),
        hostname: state.hostname.clone(),
        kind: state.kind.clone(),
        notebook_id: state.notebook_id.clone(),
        login_required: state.login_required,
        notebook_count: state.notebook_count,
        google_account: state.google_account.clone(),
    }
}

} // verus!
