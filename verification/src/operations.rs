//! State-changing operations and registrar queries that need the ledger
//! context: each checks its request, asks for the context, and then
//! submits or answers.

use vstd::prelude::*;
use crate::checks::{
    check_both, contract_check, nonzero_check, require_contract, require_labels, require_nonzero,
    then_check,
};
use crate::client::{ClientView, XlmNsClient, clone_opt, label_check, result_unit_view, submission_record};
use crate::errors::{SdkError, SdkErrorView, invalid_request};
use crate::lookup::ctx_ledger;
use crate::registration::ctx_passphrase;
use crate::step::{Step, StepView, after_ledger};
use crate::types::{
    AuctionCreateRequest, BidRequest, LedgerContext, RegistrarMetrics, TextRecordUpdate,
    TextRecordsUpdate, TransactionSubmission, TransactionSubmissionView, TransferRequest,
};

verus! {

/// An operation that passes `pre` and then submits `operation` against
/// `contract_id`, submitted at `submitted_at`.
pub open spec fn submit_step(
    c: ClientView,
    pre: Result<(), SdkErrorView>,
    ctx: Option<LedgerContext>,
    operation: Seq<char>,
    contract_id: Option<Seq<char>>,
    signer: Option<Seq<char>>,
    submitted_at: u64,
) -> StepView<TransactionSubmissionView> {
    after_ledger(pre, ctx, Ok(submission_record(c.network_passphrase, operation, contract_id,
        ctx_ledger(ctx), signer, Some(ctx_passphrase(ctx)), submitted_at)))
}

/// The submission time of a finished step (0 otherwise).
pub open spec fn submitted_time(s: Step<TransactionSubmission>) -> u64 {
    match s {
        Step::Done(Ok(t)) => t.submitted_at,
        _ => 0,
    }
}

/// Refuses an empty collection with `message`.
pub open spec fn nonempty_check(len: nat, message: Seq<char>) -> Result<(), SdkErrorView> {
    if len == 0 {
        Err(SdkErrorView::InvalidRequest(message))
    } else {
        Ok(())
    }
}

/// The checks of `set_text_record`.
pub open spec fn set_text_record_check(u: TextRecordUpdate) -> Result<(), SdkErrorView> {
    then_check(label_check(u.name@, "name"@), label_check(u.key@, "key"@))
}

/// The checks of `set_text_records`.
pub open spec fn set_text_records_check(u: TextRecordsUpdate) -> Result<(), SdkErrorView> {
    then_check(label_check(u.name@, "name"@),
        nonempty_check(u.records@.dom().len(), "records must not be empty"@))
}

/// The checks of `transfer`.
pub open spec fn transfer_check(r: TransferRequest) -> Result<(), SdkErrorView> {
    then_check(label_check(r.name@, "name"@), label_check(r.new_owner@, "new_owner"@))
}

/// The checks of `create_auction`.
pub open spec fn create_auction_check(r: AuctionCreateRequest) -> Result<(), SdkErrorView> {
    then_check(
        label_check(r.name@, "name"@),
        then_check(
            nonzero_check(r.reserve_price as int, "reserve_price must be greater than zero"@),
            nonzero_check(r.duration_seconds as int, "duration_seconds must be greater than zero"@),
        ),
    )
}

/// The checks of `bid_auction`.
pub open spec fn bid_check(r: BidRequest) -> Result<(), SdkErrorView> {
    then_check(label_check(r.name@, "name"@),
        nonzero_check(r.amount as int, "bid amount must be greater than zero"@))
}

/// The checks of `load_reserved_manifest`.
pub open spec fn manifest_check(c: ClientView, count: nat) -> Result<(), SdkErrorView> {
    then_check(nonempty_check(count, "labels must not be empty"@),
        contract_check(c.registrar_contract_id, "registrar"@))
}

/// The treasury balance reported at `ledger`.
pub open spec fn treasury_at(ledger: u32) -> u64 {
    (ledger * 1000) as u64
}

impl XlmNsClient {
    /// Passes `pre`, asks for the ledger context, then submits `operation`.
    fn submit(
        &self,
        pre: Result<(), SdkError>,
        ctx: Option<LedgerContext>,
        operation: &str,
        contract_id: Option<String>,
        signer: Option<String>,
    ) -> (s: Step<TransactionSubmission>)
        ensures
            s@ == submit_step(self@, result_unit_view(pre), ctx, operation@,
                contract_id.deep_view(), signer.deep_view(), submitted_time(s)),
    {
        if let Err(e) = pre {
            return Step::Done(Err(e));
        }
        match ctx {
            None => Step::FetchLedger,
            Some(lc) => Step::Done(Ok(self.make_submission(operation, contract_id, lc.ledger,
                signer, Some(lc.network_passphrase)))),
        }
    }

    /// Sets one text record of a name through the resolver contract.
    pub fn set_text_record(&self, update: TextRecordUpdate, ctx: Option<LedgerContext>) -> (s: Step<TransactionSubmission>)
        ensures
            s@ == submit_step(self@, set_text_record_check(update), ctx, "set_text_record"@,
                self@.resolver_contract_id, update.signer.deep_view(), submitted_time(s)),
    {
        let pre = require_labels(update.name.as_str(), "name", update.key.as_str(), "key");
        self.submit(pre, ctx, "set_text_record", clone_opt(&self.resolver_contract_id), update.signer)
    }

    /// Sets several text records of a name through the resolver contract.
    pub fn set_text_records(&self, update: TextRecordsUpdate, ctx: Option<LedgerContext>) -> (s: Step<TransactionSubmission>)
        ensures
            s@ == submit_step(self@, set_text_records_check(update), ctx, "set_text_records"@,
                self@.resolver_contract_id, update.signer.deep_view(), submitted_time(s)),
    {
        let records_present = if update.records.is_empty() {
            Err(invalid_request("records must not be empty"))
        } else {
            Ok(())
        };
        let pre = check_both(XlmNsClient::require_label(update.name.as_str(), "name"), records_present);
        self.submit(pre, ctx, "set_text_records", clone_opt(&self.resolver_contract_id), update.signer)
    }

    /// Hands a name to a new owner through the registry contract.
    pub fn transfer(&self, request: TransferRequest, ctx: Option<LedgerContext>) -> (s: Step<TransactionSubmission>)
        ensures
            s@ == submit_step(self@, transfer_check(request), ctx, "transfer"@,
                self@.registry_contract_id, request.signer.deep_view(), submitted_time(s)),
    {
        let pre = require_labels(request.name.as_str(), "name", request.new_owner.as_str(), "new_owner");
        self.submit(pre, ctx, "transfer", clone_opt(&self.registry_contract_id), request.signer)
    }

    /// Mints the NFT `token_id` for `owner`.
    pub fn mint_nft(&self, token_id: &str, owner: &str, ctx: Option<LedgerContext>) -> (s: Step<TransactionSubmission>)
        ensures
            s@ == submit_step(self@, then_check(label_check(token_id@, "token_id"@),
                label_check(owner@, "owner"@)), ctx, "mint_nft"@, self@.nft_contract_id, None,
                submitted_time(s)),
    {
        let pre = require_labels(token_id, "token_id", owner, "owner");
        self.submit(pre, ctx, "mint_nft", clone_opt(&self.nft_contract_id), None)
    }

    /// Lets `operator` move the NFT `token_id`.
    pub fn approve_nft(&self, token_id: &str, operator: &str, ctx: Option<LedgerContext>) -> (s: Step<TransactionSubmission>)
        ensures
            s@ == submit_step(self@, then_check(label_check(token_id@, "token_id"@),
                label_check(operator@, "operator"@)), ctx, "approve_nft"@, self@.nft_contract_id,
                None, submitted_time(s)),
    {
        let pre = require_labels(token_id, "token_id", operator, "operator");
        self.submit(pre, ctx, "approve_nft", clone_opt(&self.nft_contract_id), None)
    }

    /// Hands the NFT `token_id` to `new_owner`.
    pub fn transfer_nft(&self, token_id: &str, new_owner: &str, ctx: Option<LedgerContext>) -> (s: Step<TransactionSubmission>)
        ensures
            s@ == submit_step(self@, then_check(label_check(token_id@, "token_id"@),
                label_check(new_owner@, "new_owner"@)), ctx, "transfer_nft"@,
                self@.nft_contract_id, None, submitted_time(s)),
    {
        let pre = require_labels(token_id, "token_id", new_owner, "new_owner");
        self.submit(pre, ctx, "transfer_nft", clone_opt(&self.nft_contract_id), None)
    }

    /// Opens an auction of a name.
    pub fn create_auction(&self, request: AuctionCreateRequest, ctx: Option<LedgerContext>) -> (s: Step<TransactionSubmission>)
        ensures
            s@ == submit_step(self@, create_auction_check(request), ctx, "create_auction"@,
                self@.auction_contract_id, request.signer.deep_view(), submitted_time(s)),
    {
        let pre = check_both(
            XlmNsClient::require_label(request.name.as_str(), "name"),
            check_both(
                require_nonzero(request.reserve_price, "reserve_price must be greater than zero"),
                require_nonzero(request.duration_seconds, "duration_seconds must be greater than zero"),
            ),
        );
        self.submit(pre, ctx, "create_auction", clone_opt(&self.auction_contract_id), request.signer)
    }

    /// Places a bid in an auction.
    pub fn bid_auction(&self, request: BidRequest, ctx: Option<LedgerContext>) -> (s: Step<TransactionSubmission>)
        ensures
            s@ == submit_step(self@, bid_check(request), ctx, "bid_auction"@,
                self@.auction_contract_id, request.signer.deep_view(), submitted_time(s)),
    {
        let pre = check_both(
            XlmNsClient::require_label(request.name.as_str(), "name"),
            require_nonzero(request.amount, "bid amount must be greater than zero"),
        );
        self.submit(pre, ctx, "bid_auction", clone_opt(&self.auction_contract_id), request.signer)
    }

    /// Loads a manifest of reserved labels into the registrar.
    pub fn load_reserved_manifest(&self, labels: Vec<String>, signer: Option<String>, ctx: Option<LedgerContext>) -> (s: Step<TransactionSubmission>)
        ensures
            s@ == submit_step(self@, manifest_check(self@, labels@.len()), ctx,
                "load_reserved_manifest"@, self@.registrar_contract_id, signer.deep_view(),
                submitted_time(s)),
    {
        let labels_present = if labels.len() == 0 {
            Err(invalid_request("labels must not be empty"))
        } else {
            Ok(())
        };
        let pre = check_both(labels_present, require_contract(&self.registrar_contract_id, "registrar"));
        self.submit(pre, ctx, "load_reserved_manifest", clone_opt(&self.registrar_contract_id), signer)
    }

    /// Settles an auction of a name.
    pub fn settle_auction(&self, name: &str, signer: Option<String>, ctx: Option<LedgerContext>) -> (s: Step<TransactionSubmission>)
        ensures
            s@ == submit_step(self@, label_check(name@, "name"@), ctx, "settle_auction"@,
                self@.auction_contract_id, signer.deep_view(), submitted_time(s)),
    {
        let pre = XlmNsClient::require_label(name, "name");
        self.submit(pre, ctx, "settle_auction", clone_opt(&self.auction_contract_id), signer)
    }

    /// The registrar's treasury balance.
    pub fn get_treasury_balance(&self, ctx: Option<LedgerContext>) -> (s: Step<u64>)
        ensures
            s@ == after_ledger(contract_check(self@.registrar_contract_id, "registrar"@), ctx,
                Ok(treasury_at(ctx_ledger(ctx)))),
    {
        if let Err(e) = require_contract(&self.registrar_contract_id, "registrar") {
            return Step::Done(Err(e));
        }
        match ctx {
            None => Step::FetchLedger,
            Some(lc) => Step::Done(Ok(lc.ledger as u64 * 1000)),
        }
    }

    /// The registrar's fee counters.
    pub fn get_fee_metrics(&self, ctx: Option<LedgerContext>) -> (s: Step<RegistrarMetrics>)
        ensures
            s@ == after_ledger(contract_check(self@.registrar_contract_id, "registrar"@), ctx,
                Ok(RegistrarMetrics {
                    treasury_balance: treasury_at(ctx_ledger(ctx)),
                    total_registrations: ctx_ledger(ctx) as u64,
                    total_renewals: (ctx_ledger(ctx) / 2) as u64,
                })),
    {
        if let Err(e) = require_contract(&self.registrar_contract_id, "registrar") {
            return Step::Done(Err(e));
        }
        match ctx {
            None => Step::FetchLedger,
            Some(lc) => Step::Done(Ok(RegistrarMetrics {
                treasury_balance: lc.ledger as u64 * 1000,
                total_registrations: lc.ledger as u64,
                total_renewals: (lc.ledger / 2) as u64,
            })),
        }
    }
}

} // verus!
