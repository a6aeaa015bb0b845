//! The records kept in the local database.
use vstd::prelude::*;

verus! {

/// The file name of the database inside the configuration directory.
pub const DB_FILE_NAME: &'static str = "data.db";

/// What is known of the browser behind one CDP port.
#[derive(Debug, Clone)]
pub struct AccountEntry {
    pub cdp_port: String,
    pub email: String,
    pub display_name: String,
    pub online: bool,
    pub last_checked: u64,
}

/// A stored note preview.
#[derive(Debug, Clone)]
pub struct PreviewNoteEntry {
    pub id: i64,
    pub cdp_port: String,
    pub google_account: String,
    pub notebook_id: String,
    pub notebook_title: String,
    pub note_key: String,
    pub note_title: String,
    pub content: String,
    pub content_preview: String,
    pub fetched_at: u64,
    pub created_at: u64,
}

/// A note preview to be stored.
#[derive(Debug, Clone)]
pub struct NewPreviewNoteEntry {
    pub cdp_port: String,
    pub google_account: String,
    pub notebook_id: String,
    pub notebook_title: String,
    pub note_key: String,
    pub note_title: String,
    pub content: String,
    pub content_preview: String,
    pub fetched_at: u64,
    pub created_at: u64,
}

/// How many of `accounts` are online.
pub open spec fn online_count(accounts: Seq<AccountEntry>) -> nat
    decreases accounts.len(),
{
    if accounts.len() == 0 {
        0
    } else {
        online_count(accounts.drop_last()) + if accounts.last().online {
            1nat
        } else {
            0nat
        }
    }
}

/// The number of online and of offline accounts among `accounts`.
pub fn account_counts(accounts: &Vec<AccountEntry>) -> (r: (usize, usize))
    ensures
        r.0 == online_count(accounts@),
        r.0 + r.1 == accounts@.len(),
{
    let n = accounts.len();
    let mut online: usize = 0;
    let mut i: usize = 0;
    while i < n
        invariant
            n == accounts.len(),
            i <= n,
            online == online_count(accounts@.take(i as int)),
            online <= i,
        decreases n - i,
    {
        proof {
            assert(accounts@.take(i + 1).drop_last() =~= accounts@.take(i as int));
        }
        if accounts[i].online {
            online = online + 1;
        }
        i = i + 1;
    }
    assert(accounts@.take(n as int) =~= accounts@);
    (online, n - online)
}

} // verus!
