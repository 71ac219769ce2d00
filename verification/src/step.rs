//! The steps by which an operation that needs the network proceeds: the
//! library decides, the caller performs the I/O it asks for and calls again
//! with what came back.

use vstd::prelude::*;
use crate::errors::{SdkError, SdkErrorView};
use crate::types::LedgerContext;

verus! {

/// What an operation needs next, or how it ended.
#[derive(Debug)]
pub enum Step<T> {
    /// Fetch the network passphrase and latest ledger, then call again with them.
    FetchLedger,
    /// Query the network once more, then call again with the outcome appended.
    FetchNetwork,
    /// The operation is over.
    Done(Result<T, SdkError>),
}

pub enum StepView<V> {
    FetchLedger,
    FetchNetwork,
    Done(Result<V, SdkErrorView>),
}

impl<T: View> View for Step<T> {
    type V = StepView<T::V>;

    open spec fn view(&self) -> StepView<T::V> {
        match self {
            Step::FetchLedger => StepView::FetchLedger,
            Step::FetchNetwork => StepView::FetchNetwork,
            Step::Done(Ok(v)) => StepView::Done(Ok(v@)),
            Step::Done(Err(e)) => StepView::Done(Err(e@)),
        }
    }
}

/// The step of an operation that checks `pre` before it needs the ledger and
/// ends with `done` once the ledger context `ctx` is at hand.
pub open spec fn after_ledger<V>(
    pre: Result<(), SdkErrorView>,
    ctx: Option<LedgerContext>,
    done: Result<V, SdkErrorView>,
) -> StepView<V> {
    match pre {
        Err(e) => StepView::Done(Err(e)),
        Ok(_) => match ctx {
            None => StepView::FetchLedger,
            Some(_) => StepView::Done(done),
        },
    }
}

} // verus!
