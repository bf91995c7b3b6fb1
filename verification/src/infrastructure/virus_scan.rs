//! Virus-scan hooks run when an upload completes. A hook is anything implementing
//! [`ScanHook`]; two ship here: one marks every upload clean at once (tests and local runs), the
//! other leaves it pending for a media worker to report later.
use vstd::prelude::*;

use crate::domain::error::CoreError;
use crate::domain::files::{VirusScanOutcome, VirusScanRequest};
use crate::text::text;

verus! {

broadcast use vstd::string::group_string_axioms;

/// A virus-scan hook: handed the request for an uploaded file, it answers with a verdict or an
/// error.
pub trait ScanHook {
    /// Whether `r` is an answer this hook may give to `req`.
    spec fn answers(&self, req: VirusScanRequest, r: Result<VirusScanOutcome, CoreError>) -> bool;

    /// Scan (or enqueue the scan of) the uploaded file `req` names.
    fn scan(&self, req: VirusScanRequest) -> (r: Result<VirusScanOutcome, CoreError>)
        ensures
            self.answers(req, r),
    ;
}

/// Marks every upload clean immediately.
#[derive(Debug, Clone, Copy)]
pub struct PassthroughVirusScanHook;

/// Leaves every upload pending; a worker reports the verdict through `apply_scan_result`.
#[derive(Debug, Clone, Copy)]
pub struct EnqueuePendingVirusScanHook;

impl ScanHook for PassthroughVirusScanHook {
    /// Clean, at once, whatever the request.
    open spec fn answers(&self, req: VirusScanRequest, r: Result<VirusScanOutcome, CoreError>) -> bool {
        r matches Ok(outcome) && hook_verdict(VirusScanHook::Passthrough(*self), outcome)
    }

    fn scan(&self, req: VirusScanRequest) -> (r: Result<VirusScanOutcome, CoreError>) {
        Ok(VirusScanOutcome::Clean { detail: Some(text("passthrough_hook")) })
    }
}

impl ScanHook for EnqueuePendingVirusScanHook {
    /// Pending, for a media worker to decide, whatever the request.
    open spec fn answers(&self, req: VirusScanRequest, r: Result<VirusScanOutcome, CoreError>) -> bool {
        r matches Ok(outcome) && hook_verdict(VirusScanHook::EnqueuePending(*self), outcome)
    }

    fn scan(&self, req: VirusScanRequest) -> (r: Result<VirusScanOutcome, CoreError>) {
        Ok(VirusScanOutcome::Pending { detail: Some(text("enqueued_pending_media_worker")) })
    }
}

/// The shipped hooks, as the file service holds one by default.
#[derive(Debug, Clone, Copy)]
pub enum VirusScanHook {
    Passthrough(PassthroughVirusScanHook),
    EnqueuePending(EnqueuePendingVirusScanHook),
}

/// What the hook answers for any request.
pub open spec fn hook_verdict(hook: VirusScanHook, outcome: VirusScanOutcome) -> bool {
    match hook {
        VirusScanHook::Passthrough(_) => outcome matches VirusScanOutcome::Clean { detail }
            && detail matches Some(d) && d@ == "passthrough_hook"@,
        VirusScanHook::EnqueuePending(_) => outcome matches VirusScanOutcome::Pending { detail }
            && detail matches Some(d) && d@ == "enqueued_pending_media_worker"@,
    }
}

impl ScanHook for VirusScanHook {
    /// The verdict of the hook it holds, whatever the request.
    open spec fn answers(&self, req: VirusScanRequest, r: Result<VirusScanOutcome, CoreError>) -> bool {
        r matches Ok(outcome) && hook_verdict(*self, outcome)
    }

    fn scan(&self, req: VirusScanRequest) -> (r: Result<VirusScanOutcome, CoreError>) {
        match self {
            VirusScanHook::Passthrough(h) => h.scan(req),
            VirusScanHook::EnqueuePending(h) => h.scan(req),
        }
    }
}

} // verus!
