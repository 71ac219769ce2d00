//! Quoting, registering and renewing names.

use vstd::prelude::*;
use vstd::utf8::encode_utf8;
use crate::checks::{
    check_both, contract_check, nonzero_check, require_contract, require_labels, require_nonzero,
    then_check,
};
use crate::client::{XlmNsClient, ClientView, clone_opt, label_check, now_unix, result_unit_view, submission_record};
use crate::constants::{
    BASE_FEE_PER_YEAR, DEFAULT_FEE_CURRENCY, GRACE_PERIOD_SECONDS, MOCK_REFERENCE_TIMESTAMP,
    NETWORK_FEE, SECONDS_PER_YEAR, YEAR_SECONDS,
};
use crate::errors::{SdkError, SdkErrorView, result_view};
use crate::lookup::ctx_ledger;
use crate::pricing::{label_price, price_for_label_length, sat_add, sat_mul, saturating_add, saturating_mul};
use crate::step::{Step, StepView, after_ledger};
use crate::text::{trim, trim_bounds};
use crate::types::{
    FeeBreakdown, LedgerContext, RegistrationQuote, RegistrationQuoteView, RegistrationReceipt,
    RegistrationReceiptView, RegistrationRequest, RenewalReceipt, RenewalReceiptView, RenewalRequest,
    fee_total,
};

verus! {

/// The UTF-8 byte length of `label` once trimmed, which sets its price.
pub open spec fn trimmed_len(label: Seq<char>) -> nat {
    encode_utf8(trim(label)).len()
}

/// The network passphrase of a context that is present.
pub open spec fn ctx_passphrase(ctx: Option<LedgerContext>) -> Seq<char> {
    match ctx {
        Some(c) => c.network_passphrase@,
        None => Seq::empty(),
    }
}

/// The checks of a quote: a label, a positive duration, a registrar.
pub open spec fn quote_check(c: ClientView, label: Seq<char>, years: u32) -> Result<(), SdkErrorView> {
    then_check(
        label_check(label, "label"@),
        then_check(
            nonzero_check(years as int, "duration_years must be greater than zero"@),
            contract_check(c.registrar_contract_id, "registrar"@),
        ),
    )
}

/// The quote for `label` over `years` years, made at `now`.
pub open spec fn quote_view(c: ClientView, label: Seq<char>, years: u32, now: u64) -> RegistrationQuoteView {
    let y = years as u64;
    let fees = FeeBreakdown {
        base_fee: sat_mul(label_price(trimmed_len(label)), y),
        premium_fee: 0,
        network_fee: 0,
    };
    let expires_at = sat_add(now, sat_mul(y, YEAR_SECONDS));
    RegistrationQuoteView {
        label,
        duration_years: years,
        fee_breakdown: fees,
        total_fee: fee_total(fees),
        fee_currency: DEFAULT_FEE_CURRENCY@,
        expires_at,
        grace_period_ends_at: sat_add(expires_at, GRACE_PERIOD_SECONDS),
        quoted_at: now,
        contract_id: c.registrar_contract_id,
    }
}

/// The outcome of quoting `label` over `years` years at `now`.
pub open spec fn quote_result(c: ClientView, label: Seq<char>, years: u32, now: u64) -> Result<RegistrationQuoteView, SdkErrorView> {
    match quote_check(c, label, years) {
        Err(e) => Err(e),
        Ok(_) => Ok(quote_view(c, label, years, now)),
    }
}

/// The time a quote outcome was made at (0 for a refusal).
pub open spec fn quoted_time(r: Result<RegistrationQuote, SdkError>) -> u64 {
    match r {
        Ok(q) => q.quoted_at,
        Err(_) => 0,
    }
}

/// The checks of a registration, in the order they run.
pub open spec fn register_check(c: ClientView, req: RegistrationRequest) -> Result<(), SdkErrorView> {
    then_check(
        then_check(label_check(req.label@, "label"@), label_check(req.owner@, "owner"@)),
        then_check(
            nonzero_check(req.duration_years as int, "duration_years must be greater than zero"@),
            quote_check(c, req.label@, req.duration_years),
        ),
    )
}

/// The registration of `req`, quoted at `quoted_at` and submitted at `submitted_at`.
pub open spec fn register_step(
    c: ClientView,
    req: RegistrationRequest,
    ctx: Option<LedgerContext>,
    quoted_at: u64,
    submitted_at: u64,
) -> StepView<RegistrationReceiptView> {
    let q = quote_view(c, req.label@, req.duration_years, quoted_at);
    after_ledger(
        register_check(c, req),
        ctx,
        Ok(RegistrationReceiptView {
            name: req.label@ + ".xlm"@,
            owner: req.owner@,
            duration_years: req.duration_years,
            expires_at: q.expires_at,
            fee_paid: q.total_fee,
            submission: submission_record(c.network_passphrase, "register"@,
                c.registrar_contract_id, ctx_ledger(ctx), req.signer.deep_view(),
                Some(ctx_passphrase(ctx)), submitted_at),
        }),
    )
}

/// The submission time of a finished step (0 otherwise).
pub open spec fn receipt_time(s: Step<RegistrationReceipt>) -> u64 {
    match s {
        Step::Done(Ok(r)) => r.submission.submitted_at,
        _ => 0,
    }
}

/// The checks of a renewal, in the order they run.
pub open spec fn renew_check(c: ClientView, req: RenewalRequest) -> Result<(), SdkErrorView> {
    then_check(
        label_check(req.name@, "name"@),
        then_check(
            nonzero_check(req.additional_years as int, "additional_years must be greater than zero"@),
            contract_check(c.registrar_contract_id, "registrar"@),
        ),
    )
}

/// The renewal fee: the yearly fee times the years, plus the network fee.
pub open spec fn renewal_fee(years: u32) -> u64 {
    sat_add(sat_mul(BASE_FEE_PER_YEAR, years as u64), NETWORK_FEE)
}

/// The renewal of `req`, submitted at `submitted_at`.
pub open spec fn renew_step(
    c: ClientView,
    req: RenewalRequest,
    ctx: Option<LedgerContext>,
    submitted_at: u64,
) -> StepView<RenewalReceiptView> {
    after_ledger(
        renew_check(c, req),
        ctx,
        Ok(RenewalReceiptView {
            name: req.name@,
            additional_years: req.additional_years,
            new_expiry: (MOCK_REFERENCE_TIMESTAMP + req.additional_years * SECONDS_PER_YEAR) as u64,
            fee_paid: renewal_fee(req.additional_years),
            submission: submission_record(c.network_passphrase, "renew"@,
                c.registrar_contract_id, ctx_ledger(ctx), req.signer.deep_view(),
                Some(ctx_passphrase(ctx)), submitted_at),
        }),
    )
}

/// The submission time of a finished step (0 otherwise).
pub open spec fn renewal_time(s: Step<RenewalReceipt>) -> u64 {
    match s {
        Step::Done(Ok(r)) => r.submission.submitted_at,
        _ => 0,
    }
}

/// The UTF-8 byte length of `label.trim()`.
pub fn trimmed_byte_len(label: &str) -> (n: usize)
    ensures
        n == trimmed_len(label@),
{
    let (a, b) = trim_bounds(label);
    let t = label.substring_char(a, b);
    t.as_bytes().len()
}

impl XlmNsClient {
    /// Runs the checks of a quote.
    pub fn quote_precheck(&self, label: &str, duration_years: u32) -> (r: Result<(), SdkError>)
        ensures
            result_unit_view(r) == quote_check(self@, label@, duration_years),
    {
        check_both(
            XlmNsClient::require_label(label, "label"),
            check_both(
                require_nonzero(duration_years as u64, "duration_years must be greater than zero"),
                require_contract(&self.registrar_contract_id, "registrar"),
            ),
        )
    }

    /// The quote for registering `label` over `duration_years` years, made at `now`.
    pub fn quote_registration_at(&self, label: &str, duration_years: u32, now: u64) -> (r: Result<RegistrationQuote, SdkError>)
        ensures
            result_view(r) == quote_result(self@, label@, duration_years, now),
    {
        if let Err(e) = self.quote_precheck(label, duration_years) {
            return Err(e);
        }
        let registrar_id = clone_opt(&self.registrar_contract_id);
        let years = duration_years as u64;
        let annual_fee = price_for_label_length(trimmed_byte_len(label));
        let base_fee = saturating_mul(annual_fee, years);
        let fee_breakdown = FeeBreakdown { base_fee, premium_fee: 0, network_fee: 0 };
        let total_fee = fee_breakdown.total();
        let expires_at = saturating_add(now, saturating_mul(years, YEAR_SECONDS));
        let grace_period_ends_at = saturating_add(expires_at, GRACE_PERIOD_SECONDS);
        Ok(RegistrationQuote {
            label: label.to_owned(),
            duration_years,
            fee_breakdown,
            total_fee,
            fee_currency: DEFAULT_FEE_CURRENCY.to_owned(),
            expires_at,
            grace_period_ends_at,
            quoted_at: now,
            contract_id: registrar_id,
        })
    }

    /// The quote for registering `label` over `duration_years` years, made now.
    pub fn quote_registration(&self, label: &str, duration_years: u32) -> (r: Result<RegistrationQuote, SdkError>)
        ensures
            result_view(r) == quote_result(self@, label@, duration_years, quoted_time(r)),
    {
        let now = now_unix();
        self.quote_registration_at(label, duration_years, now)
    }

    /// Runs the checks of a registration.
    pub fn register_precheck(&self, request: &RegistrationRequest) -> (r: Result<(), SdkError>)
        ensures
            result_unit_view(r) == register_check(self@, *request),
    {
        check_both(
            require_labels(request.label.as_str(), "label", request.owner.as_str(), "owner"),
            check_both(
                require_nonzero(request.duration_years as u64, "duration_years must be greater than zero"),
                self.quote_precheck(request.label.as_str(), request.duration_years),
            ),
        )
    }

    /// Registers a name: checks the request, asks for the ledger context,
    /// then reads the clock once, quotes the fee at that time and submits
    /// stamped with it.
    pub fn register(&self, request: RegistrationRequest, ctx: Option<LedgerContext>) -> (s: Step<RegistrationReceipt>)
        ensures
            exists|quoted_at: u64| s@ == register_step(self@, request, ctx, quoted_at, receipt_time(s)),
            s@ == register_step(self@, request, ctx, receipt_time(s), receipt_time(s)),
    {
        if let Err(e) = self.register_precheck(&request) {
            let s = Step::Done(Err(e));
            assert(s@ == register_step(self@, request, ctx, 0, receipt_time(s)));
            return s;
        }
        let lc = match ctx {
            None => {
                let s = Step::FetchLedger;
                assert(s@ == register_step(self@, request, ctx, 0, receipt_time(s)));
                return s;
            },
            Some(lc) => lc,
        };
        let now = now_unix();
        let quote = match self.quote_registration_at(request.label.as_str(), request.duration_years, now) {
            Ok(q) => q,
            Err(e) => {
                assert(false);
                return Step::Done(Err(e));
            },
        };
        let registrar_id = clone_opt(&self.registrar_contract_id);
        let ledger = lc.ledger;
        let submission = self.make_submission_at("register", registrar_id, ledger,
            request.signer, Some(lc.network_passphrase), now);
        let mut name = request.label.as_str().to_owned();
        name.append(".xlm");
        let receipt = RegistrationReceipt {
            name,
            owner: request.owner,
            duration_years: request.duration_years,
            expires_at: quote.expires_at,
            fee_paid: quote.total_fee,
            submission,
        };
        let s = Step::Done(Ok(receipt));
        assert(s@ == register_step(self@, request, ctx, now, receipt_time(s)));
        s
    }

    /// Runs the checks of a renewal.
    pub fn renew_precheck(&self, request: &RenewalRequest) -> (r: Result<(), SdkError>)
        ensures
            result_unit_view(r) == renew_check(self@, *request),
    {
        check_both(
            XlmNsClient::require_label(request.name.as_str(), "name"),
            check_both(
                require_nonzero(request.additional_years as u64, "additional_years must be greater than zero"),
                require_contract(&self.registrar_contract_id, "registrar"),
            ),
        )
    }

    /// Renews a name: checks the request, asks for the ledger context, then submits.
    pub fn renew(&self, request: RenewalRequest, ctx: Option<LedgerContext>) -> (s: Step<RenewalReceipt>)
        ensures
            s@ == renew_step(self@, request, ctx, renewal_time(s)),
    {
        if let Err(e) = self.renew_precheck(&request) {
            return Step::Done(Err(e));
        }
        let lc = match ctx {
            None => return Step::FetchLedger,
            Some(lc) => lc,
        };
        let registrar_id = clone_opt(&self.registrar_contract_id);
        let years = request.additional_years as u64;
        let fee_paid = saturating_add(saturating_mul(BASE_FEE_PER_YEAR, years), NETWORK_FEE);
        let new_expiry = MOCK_REFERENCE_TIMESTAMP + years * SECONDS_PER_YEAR;
        let submission = self.make_submission("renew", registrar_id, lc.ledger,
            request.signer, Some(lc.network_passphrase));
        Step::Done(Ok(RenewalReceipt {
            name: request.name,
            additional_years: request.additional_years,
            new_expiry,
            fee_paid,
            submission,
        }))
    }
}

} // verus!
