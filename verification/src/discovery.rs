//! Discovering which Google account is signed in behind each CDP port.
use vstd::prelude::*;

use crate::db::AccountEntry;
use crate::notebooklm::rpc::{NOTEBOOKLM_DOMAIN, PageState};
use crate::text::{concat2, str_eq};

verus! {

/// How often every port is probed again, in seconds.
pub const DISCOVERY_INTERVAL_SECS: u64 = 3600;

/// How long the probe waits after opening the home page, in milliseconds.
pub const PROBE_WAIT_MS: u64 = 3000;

/// The browser session name used to probe `cdp_port`.
pub fn probe_session_name(cdp_port: &str) -> (r: String)
    ensures
        r@ == "discovery-"@ + cdp_port@,
{
    concat2("discovery-", cdp_port)
}

/// The probe of `cdp_port` found a signed-in account: the page needs no login and is
/// on the NotebookLM host.
pub open spec fn probe_succeeds(state: PageState) -> bool {
    !state.login_required && state.hostname@ == NOTEBOOKLM_DOMAIN@
}

/// The account the page state of `cdp_port` shows at time `now`, if any: the
/// signed-in Google account the page reports, online.
pub fn account_from_page_state(cdp_port: &str, state: &PageState, now: u64) -> (r: Option<AccountEntry>)
    ensures
        !probe_succeeds(*state) ==> r is None,
        probe_succeeds(*state) ==> (r matches Some(a) && a.cdp_port@ == cdp_port@ && a.email@
            == state.google_account@ && a.display_name@.len() == 0 && a.online && a.last_checked == now),
{
    if state.login_required || !str_eq(state.hostname.as_str(), NOTEBOOKLM_DOMAIN) {
        return None;
    }
    Some(AccountEntry {
        cdp_port: String::from_str(cdp_port),
        email: state.google_account.clone(),
        display_name: String::new(),
        online: true,
        last_checked: now,
    })
}

/// A cached account that is online with a known e-mail need not be probed again.
pub open spec fn cache_is_fresh(cached: Option<&AccountEntry>) -> bool {
    cached matches Some(a) && a.online && a.email@.len() > 0
}

/// Whether a port is probed: always, unless cached accounts may be kept and this
/// one's is fresh.
pub fn should_probe(skip_cached: bool, cached: Option<&AccountEntry>) -> (r: bool)
    ensures
        r == !(skip_cached && cache_is_fresh(cached)),
{
    if skip_cached {
        if let Some(a) = cached {
            if a.online && a.email.as_str().unicode_len() > 0 {
                return false;
            }
        }
    }
    true
}

/// What is recorded for a probed port.
#[derive(Debug, Clone)]
pub enum DiscoveryRecord {
    /// The account found is written over the stored one.
    Store(AccountEntry),
    /// The port is kept, marked offline as of `checked_at`.
    Offline { cdp_port: String, checked_at: u64 },
}

/// What a probe of `cdp_port` at time `now` records: the account it found, or the
/// port marked offline.
pub fn discovery_record(cdp_port: &str, found: Option<AccountEntry>, now: u64) -> (r: DiscoveryRecord)
    ensures
        found is Some ==> r == DiscoveryRecord::Store(found->0),
        found is None ==> (r matches DiscoveryRecord::Offline { cdp_port: p, checked_at: t } && p@
            == cdp_port@ && t == now),
{
    match found {
        Some(a) => DiscoveryRecord::Store(a),
        None => DiscoveryRecord::Offline { cdp_port: String::from_str(cdp_port), checked_at: now },
    }
}

} // verus!
