//! The errors that the SDK reports.

use vstd::prelude::*;

verus! {

/// Error codes that a name-service contract answers with.
#[derive(Debug, Clone, Copy, PartialEq, Eq, Structural)]
pub enum ContractErrorCode {
    NameNotFound,
}

/// Every failure of an SDK call.
#[derive(Debug, Clone)]
pub enum SdkError {
    /// The request was refused before anything was sent.
    InvalidRequest(String),
    /// The RPC endpoint could not be reached or answered with an error.
    Transport(String),
    /// The contract answered with one of its error codes.
    ContractError(ContractErrorCode),
}

/// `SdkError` with its messages taken as character sequences.
pub enum SdkErrorView {
    InvalidRequest(Seq<char>),
    Transport(Seq<char>),
    ContractError(ContractErrorCode),
}

impl View for SdkError {
    type V = SdkErrorView;

    open spec fn view(&self) -> SdkErrorView {
        match self {
            SdkError::InvalidRequest(m) => SdkErrorView::InvalidRequest(m@),
            SdkError::Transport(m) => SdkErrorView::Transport(m@),
            SdkError::ContractError(c) => SdkErrorView::ContractError(*c),
        }
    }
}

/// A result with both sides taken by their views.
pub open spec fn result_view<T: View>(r: Result<T, SdkError>) -> Result<T::V, SdkErrorView> {
    match r {
        Ok(v) => Ok(v@),
        Err(e) => Err(e@),
    }
}

/// The error for an operation whose contract ID was not configured.
pub open spec fn missing_contract(label: Seq<char>) -> SdkErrorView {
    SdkErrorView::InvalidRequest(label + " contract ID not configured"@)
}

/// The error for a required field that is blank.
pub open spec fn empty_field(field: Seq<char>) -> SdkErrorView {
    SdkErrorView::InvalidRequest(field + " must not be empty"@)
}

/// The error for a network query that failed with `detail`.
pub open spec fn network_failure(detail: Seq<char>) -> SdkErrorView {
    SdkErrorView::Transport("failed to get network: "@ + detail)
}

/// The error that names a missing contract ID (`label` is the contract's role).
pub fn contract_id_error(label: &str) -> (e: SdkError)
    ensures
        e@ == missing_contract(label@),
{
    let mut m = label.to_owned();
    m.append(" contract ID not configured");
    SdkError::InvalidRequest(m)
}

/// The error for a blank required field.
pub fn empty_field_error(field: &str) -> (e: SdkError)
    ensures
        e@ == empty_field(field@),
{
    let mut m = field.to_owned();
    m.append(" must not be empty");
    SdkError::InvalidRequest(m)
}

/// The error for a failed network query.
pub fn network_error(detail: &str) -> (e: SdkError)
    ensures
        e@ == network_failure(detail@),
{
    let mut m = "failed to get network: ".to_owned();
    m.append(detail);
    SdkError::Transport(m)
}

/// An `InvalidRequest` error with the given message.
pub fn invalid_request(message: &str) -> (e: SdkError)
    ensures
        e@ == SdkErrorView::InvalidRequest(message@),
{
    SdkError::InvalidRequest(message.to_owned())
}

} // verus!
