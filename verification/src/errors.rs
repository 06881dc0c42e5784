use vstd::prelude::*;

verus! {

/// Spec-level mirror of [`ExecutionError`], with string payloads as character
/// sequences.
pub enum ExecutionErrorView {
    GatewayFailure(Seq<char>),
    EmptyReply,
    DecodeFailure,
    BugCeilingExceeded(Seq<char>),
}

/// An unrecoverable failure of one agent step.  Returning one of these halts
/// the whole run; there is no partial-result salvage path.
#[derive(Debug)]
pub enum ExecutionError {
    /// Both gateway attempts failed; carries the captured failure text.
    GatewayFailure(String),
    /// A gateway reply held no completion choices.
    EmptyReply,
    /// Structured decoding of a gateway reply failed.
    DecodeFailure,
    /// The build failed on the last tolerated attempt; carries the captured
    /// build error text.
    BugCeilingExceeded(String),
}

impl View for ExecutionError {
    type V = ExecutionErrorView;

    open spec fn view(&self) -> ExecutionErrorView {
        match self {
            ExecutionError::GatewayFailure(detail) => ExecutionErrorView::GatewayFailure(detail@),
            ExecutionError::EmptyReply => ExecutionErrorView::EmptyReply,
            ExecutionError::DecodeFailure => ExecutionErrorView::DecodeFailure,
            ExecutionError::BugCeilingExceeded(errors) => ExecutionErrorView::BugCeilingExceeded(
                errors@,
            ),
        }
    }
}

impl ExecutionError {
    /// The stage label a diagnostic should name for this failure.
    pub fn stage(&self) -> (r: &'static str)
        ensures
            self is GatewayFailure ==> r@ == "gateway"@,
            self is EmptyReply ==> r@ == "gateway"@,
            self is DecodeFailure ==> r@ == "decode"@,
            self is BugCeilingExceeded ==> r@ == "build"@,
    {
        match self {
            ExecutionError::GatewayFailure(_) => "gateway",
            ExecutionError::EmptyReply => "gateway",
            ExecutionError::DecodeFailure => "decode",
            ExecutionError::BugCeilingExceeded(_) => "build",
        }
    }
}

} // verus!
