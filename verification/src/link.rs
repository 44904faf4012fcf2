//! Link records and the classification of fetch outcomes.
//!
//! A fetch is performed by the caller; the library receives the outcome as a
//! plain value and classifies it.  A 2xx or 3xx status is `Valid`, a 404 is
//! `NotFound`, and every other status or transport failure becomes `Error`
//! with a human-readable detail, so a single page's failure never escapes as
//! anything but a record.

use crate::text::decimal_of;
use crate::text::decimal_string;
use vstd::prelude::*;

verus! {

/// The classification assigned to a URL after crawl processing.
#[derive(Debug)]
pub enum LinkStatus {
    /// The fetch returned a success status (2xx or 3xx).
    Valid,
    /// The fetch returned HTTP 404.
    NotFound,
    /// Any other HTTP status, or a transport-level failure; the detail is
    /// human-diagnosable.
    Error(String),
    /// Excluded by the scope policy before any network access.
    Ignored,
}

/// The mathematical value of a `LinkStatus`.
pub ghost enum StatusView {
    Valid,
    NotFound,
    Error(Seq<char>),
    Ignored,
}

impl View for LinkStatus {
    type V = StatusView;

    open spec fn view(&self) -> StatusView {
        match self {
            LinkStatus::Valid => StatusView::Valid,
            LinkStatus::NotFound => StatusView::NotFound,
            LinkStatus::Error(detail) => StatusView::Error(detail@),
            LinkStatus::Ignored => StatusView::Ignored,
        }
    }
}

impl DeepView for LinkStatus {
    type V = StatusView;

    open spec fn deep_view(&self) -> StatusView {
        self.view()
    }
}

/// One crawled URL together with its classification; created exactly once
/// per URL and never changed afterwards.
#[derive(Debug)]
pub struct LinkInfo {
    pub url: String,
    pub status: LinkStatus,
}

/// The mathematical value of a `LinkInfo`.
#[verifier::ext_equal]
pub ghost struct RecordView {
    pub url: Seq<char>,
    pub status: StatusView,
}

impl View for LinkInfo {
    type V = RecordView;

    open spec fn view(&self) -> RecordView {
        RecordView { url: self.url@, status: self.status@ }
    }
}

impl DeepView for LinkInfo {
    type V = RecordView;

    open spec fn deep_view(&self) -> RecordView {
        self.view()
    }
}

/// What one fetch of a URL came back with, as the caller reports it.
#[derive(Debug)]
pub enum FetchOutcome {
    /// The server answered; redirects were already followed by the caller.
    /// The body is the page text on a success status and may be empty
    /// otherwise.
    Response { status: u16, body: String },
    /// The fetch failed below HTTP: DNS, connect, timeout, or an unreadable
    /// body.  The detail is the caller's description of the failure.
    Failed { detail: String },
}

/// The mathematical value of a `FetchOutcome`.
pub ghost enum OutcomeView {
    Response { status: u16, body: Seq<char> },
    Failed { detail: Seq<char> },
}

impl View for FetchOutcome {
    type V = OutcomeView;

    open spec fn view(&self) -> OutcomeView {
        match self {
            FetchOutcome::Response { status, body } => OutcomeView::Response {
                status: *status,
                body: body@,
            },
            FetchOutcome::Failed { detail } => OutcomeView::Failed { detail: detail@ },
        }
    }
}

/// A status in the 2xx or 3xx range counts as a successful fetch.
pub open spec fn success_status(status: u16) -> bool {
    200 <= status < 400
}

/// How an HTTP status classifies: success, missing page, or protocol error
/// carrying the status rendered in decimal.
pub open spec fn spec_classify_status(status: u16) -> StatusView {
    if success_status(status) {
        StatusView::Valid
    } else if status == 404 {
        StatusView::NotFound
    } else {
        StatusView::Error(decimal_of(status as nat))
    }
}

/// How a whole fetch outcome classifies: by status when the server answered,
/// and as an error carrying the caller's detail when the fetch failed.
pub open spec fn spec_classify(outcome: OutcomeView) -> StatusView {
    match outcome {
        OutcomeView::Response { status, .. } => spec_classify_status(status),
        OutcomeView::Failed { detail } => StatusView::Error(detail),
    }
}

/// Classify an HTTP status code.
pub fn classify_status(status: u16) -> (r: LinkStatus)
    ensures
        r@ == spec_classify_status(status),
{
    if 200 <= status && status < 400 {
        LinkStatus::Valid
    } else if status == 404 {
        LinkStatus::NotFound
    } else {
        LinkStatus::Error(decimal_string(status))
    }
}

/// Classify a fetch outcome into the status its link record will carry.
pub fn classify_outcome(outcome: &FetchOutcome) -> (r: LinkStatus)
    ensures
        r@ == spec_classify(outcome@),
{
    match outcome {
        FetchOutcome::Response { status, .. } => classify_status(*status),
        FetchOutcome::Failed { detail } => LinkStatus::Error(detail.clone()),
    }
}

} // verus!
