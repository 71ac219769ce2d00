//! The request checks that operations run before they contact the network.

use vstd::prelude::*;
use crate::client::{XlmNsClient, label_check, result_unit_view};
use crate::errors::{SdkError, SdkErrorView, contract_id_error, invalid_request, missing_contract};

verus! {

/// The first failure of two checks run in order.
pub open spec fn then_check(
    a: Result<(), SdkErrorView>,
    b: Result<(), SdkErrorView>,
) -> Result<(), SdkErrorView> {
    match a {
        Err(e) => Err(e),
        Ok(_) => b,
    }
}

/// Refuses a zero amount with `message`.
pub open spec fn nonzero_check(value: int, message: Seq<char>) -> Result<(), SdkErrorView> {
    if value == 0 {
        Err(SdkErrorView::InvalidRequest(message))
    } else {
        Ok(())
    }
}

/// Refuses an operation whose contract ID (for the contract called `label`) is unset.
pub open spec fn contract_check(id: Option<Seq<char>>, label: Seq<char>) -> Result<(), SdkErrorView> {
    match id {
        Some(_) => Ok(()),
        None => Err(missing_contract(label)),
    }
}

/// The first failure of two checks, `a` before `b`.
pub fn check_both(a: Result<(), SdkError>, b: Result<(), SdkError>) -> (r: Result<(), SdkError>)
    ensures
        result_unit_view(r) == then_check(result_unit_view(a), result_unit_view(b)),
{
    match a {
        Err(e) => Err(e),
        Ok(()) => b,
    }
}

/// Refuses a zero `value` with `message`.
pub fn require_nonzero(value: u64, message: &str) -> (r: Result<(), SdkError>)
    ensures
        result_unit_view(r) == nonzero_check(value as int, message@),
{
    if value == 0 {
        Err(invalid_request(message))
    } else {
        Ok(())
    }
}

/// Refuses an unset contract ID, naming the contract `label`.
pub fn require_contract(id: &Option<String>, label: &str) -> (r: Result<(), SdkError>)
    ensures
        result_unit_view(r) == contract_check(id.deep_view(), label@),
{
    match id {
        Some(_) => Ok(()),
        None => Err(contract_id_error(label)),
    }
}

/// Both labels present, `a` checked first.
pub fn require_labels(a: &str, a_field: &str, b: &str, b_field: &str) -> (r: Result<(), SdkError>)
    ensures
        result_unit_view(r) == then_check(label_check(a@, a_field@), label_check(b@, b_field@)),
{
    check_both(XlmNsClient::require_label(a, a_field), XlmNsClient::require_label(b, b_field))
}

} // verus!
