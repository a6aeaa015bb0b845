//! The library's error type.
use vstd::prelude::*;

verus! {

/// Everything a command, a request or a sync step can fail with.
#[derive(Debug, Clone)]
pub enum AppError {
    CommandNotFound(String),
    InvalidParams(String),
    NotebooklmLoginRequired,
    NotebooklmRpcFailed(String),
    BrowserExecutionFailed(String),
    Internal(String),
    InvalidPassword,
    AuthRequired,
}

/// The message an `InvalidParams` error carries, if `e` is one.
pub open spec fn invalid_params_message(e: AppError) -> Option<Seq<char>> {
    match e {
        AppError::InvalidParams(m) => Some(m@),
        _ => None,
    }
}

/// The message a `BrowserExecutionFailed` error carries, if `e` is one.
pub open spec fn browser_failure_message(e: AppError) -> Option<Seq<char>> {
    match e {
        AppError::BrowserExecutionFailed(m) => Some(m@),
        _ => None,
    }
}

} // verus!
