//! Properties that hold across the library's functions.

use vstd::prelude::*;
use crate::client::{ClientView, bare_client};
use crate::errors::SdkErrorView;
use crate::lookup::resolve_step;
use crate::pricing::{label_price, sat_mul};
use crate::registration::{quote_result, quote_view, register_check, register_step, renewal_fee, trimmed_len};
use crate::types::{AuctionState, RegistrationRequest, ResolutionResultView};
use crate::bridge::{chain_registration, message_for, route_for};
use crate::client::label_check;
use crate::constants::{MOCK_REFERENCE_TIMESTAMP, SECONDS_PER_YEAR, YEAR_SECONDS};
use crate::errors::ContractErrorCode;
use crate::queries::{auction_for, auction_state_result};
use crate::step::{StepView, after_ledger};
use crate::text::{decimal, digit_char, is_blank, is_unicode_whitespace, trim, trim_end, trim_start};
use crate::types::LedgerContext;

verus! {

/// The number that a string of ASCII digits denotes.
pub open spec fn decimal_value(s: Seq<char>) -> int
    decreases s.len(),
{
    if s.len() == 0 {
        0
    } else {
        decimal_value(s.drop_last()) * 10 + (s.last() as int - 48)
    }
}

/// Every character is an ASCII digit.
pub open spec fn all_digits(s: Seq<char>) -> bool {
    forall|i: int| 0 <= i < s.len() ==> 48 <= #[trigger] (s[i] as int) <= 57
}

/// Decimal rendering can be read back: the digits of `n` denote `n`, and
/// there is at least one digit.
pub proof fn law_decimal_roundtrip(n: nat)
    ensures
        decimal(n).len() >= 1,
        all_digits(decimal(n)),
        decimal_value(decimal(n)) == n,
    decreases n,
{
    if n < 10 {
        let c = digit_char(n);
        assert((n + 48) as char as int == n + 48);
        let s = decimal(n);
        assert(s == seq![c]);
        assert(s.drop_last() =~= Seq::<char>::empty());
        assert(decimal_value(s.drop_last()) == 0);
        assert(s.last() == c);
        assert(decimal_value(s) == decimal_value(s.drop_last()) * 10 + (s.last() as int - 48));
    } else {
        law_decimal_roundtrip(n / 10);
        let d = n % 10;
        assert((d + 48) as char as int == d + 48);
        let s = decimal(n);
        assert(s.drop_last() =~= decimal(n / 10));
        assert(n == (n / 10) * 10 + n % 10) by (nonlinear_arith);
        assert(s.last() == digit_char(d));
        assert(decimal_value(s) == decimal_value(s.drop_last()) * 10 + (s.last() as int - 48));
        assert(decimal_value(s.drop_last()) == n / 10);
        assert forall|i: int| 0 <= i < s.len() implies 48 <= #[trigger] (s[i] as int) <= 57 by {
            if i < s.len() - 1 {
                assert(s[i] == decimal(n / 10)[i]);
            }
        }
    }
}

/// Every character is whitespace.
pub open spec fn all_whitespace(s: Seq<char>) -> bool {
    forall|i: int| 0 <= i < s.len() ==> is_unicode_whitespace(#[trigger] s[i])
}

proof fn lemma_trim_end_blank(x: Seq<char>)
    ensures
        trim_end(x).len() == 0 <==> all_whitespace(x),
    decreases x.len(),
{
    if x.len() > 0 {
        let d = x.drop_last();
        lemma_trim_end_blank(d);
        if is_unicode_whitespace(x.last()) {
            if all_whitespace(d) {
                assert forall|i: int| 0 <= i < x.len() implies is_unicode_whitespace(#[trigger] x[i]) by {
                    if i < x.len() - 1 {
                        assert(d[i] == x[i]);
                    }
                }
            }
            if all_whitespace(x) {
                assert forall|i: int| 0 <= i < d.len() implies is_unicode_whitespace(#[trigger] d[i]) by {
                    assert(d[i] == x[i]);
                }
            }
        } else {
            assert(!is_unicode_whitespace(x[x.len() - 1]));
        }
    }
}

proof fn lemma_trim_start_blank(s: Seq<char>)
    ensures
        all_whitespace(trim_start(s)) == all_whitespace(s),
    decreases s.len(),
{
    if s.len() > 0 && is_unicode_whitespace(s[0]) {
        let d = s.drop_first();
        lemma_trim_start_blank(d);
        assert(trim_start(s) == trim_start(d));
        if all_whitespace(d) {
            assert forall|i: int| 0 <= i < s.len() implies is_unicode_whitespace(#[trigger] s[i]) by {
                if i > 0 {
                    assert(d[i - 1] == s[i]);
                }
            }
        }
        if all_whitespace(s) {
            assert forall|i: int| 0 <= i < d.len() implies is_unicode_whitespace(#[trigger] d[i]) by {
                assert(d[i] == s[i + 1]);
            }
        }
    }
}

/// A label is refused as empty exactly when every character of it is whitespace.
pub proof fn law_blank_iff_all_whitespace(s: Seq<char>)
    ensures
        is_blank(s) <==> all_whitespace(s),
{
    lemma_trim_end_blank(trim_start(s));
    lemma_trim_start_blank(s);
}

proof fn lemma_trim_start_head(s: Seq<char>)
    ensures
        trim_start(s).len() > 0 ==> !is_unicode_whitespace(trim_start(s)[0]),
    decreases s.len(),
{
    if s.len() > 0 && is_unicode_whitespace(s[0]) {
        lemma_trim_start_head(s.drop_first());
    }
}

proof fn lemma_trim_end_shape(x: Seq<char>)
    ensures
        trim_end(x).len() <= x.len(),
        trim_end(x) == x.take(trim_end(x).len() as int),
        trim_end(x).len() > 0 ==> !is_unicode_whitespace(trim_end(x).last()),
    decreases x.len(),
{
    if x.len() > 0 && is_unicode_whitespace(x.last()) {
        lemma_trim_end_shape(x.drop_last());
        let t = trim_end(x.drop_last());
        assert(x.drop_last().take(t.len() as int) =~= x.take(t.len() as int));
    } else {
        assert(x.take(x.len() as int) =~= x);
    }
}

/// Trimming twice trims no more than once.
pub proof fn law_trim_idempotent(s: Seq<char>)
    ensures
        trim(trim(s)) == trim(s),
{
    let u = trim_start(s);
    let t = trim(s);
    lemma_trim_start_head(s);
    lemma_trim_end_shape(u);
    if t.len() > 0 {
        assert(t[0] == u[0]);
    }
    assert(trim_start(t) == t);
    assert(trim_end(t) == t);
}

/// Whitespace around a label changes neither its price nor any part of its quote
/// but the label itself.
pub proof fn law_quote_ignores_padding(c: ClientView, label: Seq<char>, years: u32, now: u64)
    ensures
        trimmed_len(trim(label)) == trimmed_len(label),
        quote_view(c, trim(label), years, now).fee_breakdown == quote_view(c, label, years, now).fee_breakdown,
        quote_view(c, trim(label), years, now).total_fee == quote_view(c, label, years, now).total_fee,
{
    law_trim_idempotent(label);
}

/// Longer labels never cost more per year.
pub proof fn law_price_non_increasing(a: nat, b: nat)
    requires
        a <= b,
    ensures
        label_price(b) <= label_price(a),
{
}

/// A quote expires no earlier than it was made, its grace period ends no
/// earlier than it expires, and its total is its base fee.
pub proof fn law_quote_timeline(c: ClientView, label: Seq<char>, years: u32, now: u64)
    ensures
        quote_view(c, label, years, now).quoted_at <= quote_view(c, label, years, now).expires_at,
        quote_view(c, label, years, now).expires_at <= quote_view(c, label, years, now).grace_period_ends_at,
        quote_view(c, label, years, now).total_fee == quote_view(c, label, years, now).fee_breakdown.base_fee,
{
}

/// Registering for more years never costs less.
pub proof fn law_fee_monotone_in_years(c: ClientView, label: Seq<char>, y1: u32, y2: u32, t1: u64, t2: u64)
    requires
        y1 <= y2,
    ensures
        quote_view(c, label, y1, t1).total_fee <= quote_view(c, label, y2, t2).total_fee,
{
    let p = label_price(trimmed_len(label));
    assert(p * (y1 as u64) <= p * (y2 as u64)) by (nonlinear_arith)
        requires
            y1 <= y2,
            0 <= p,
    ;
}

/// A renewal costs the yearly fee times the years plus the network fee,
/// with no saturation for any `u32` number of years.
pub proof fn law_renewal_fee_exact(years: u32)
    ensures
        renewal_fee(years) == 10 * years + 1,
{
    assert(sat_mul(10, years as u64) == 10 * years);
}

/// What an operation refuses before it contacts the network it refuses in
/// the same words once the ledger context is given; an operation given the
/// ledger context never asks for it again.
pub proof fn law_refusal_precedes_network<V>(
    pre: Result<(), SdkErrorView>,
    ctx: LedgerContext,
    without: Result<V, SdkErrorView>,
    with: Result<V, SdkErrorView>,
)
    ensures
        pre is Err ==> after_ledger(pre, None, without) == after_ledger(pre, Some(ctx), with),
        pre is Ok ==> after_ledger(pre, None, without) == StepView::<V>::FetchLedger,
        after_ledger(pre, Some(ctx), with) is Done,
{
}

/// A lookup given the ledger context and two network outcomes is over, and
/// outcomes appended after a lookup ended do not change how it ended.
pub proof fn law_resolve_settles(
    c: ClientView,
    name: Seq<char>,
    ctx: LedgerContext,
    network: Seq<Result<(), String>>,
    more: Seq<Result<(), String>>,
)
    ensures
        network.len() >= 2 ==> resolve_step(c, name, Some(ctx), network) is Done,
        resolve_step(c, name, Some(ctx), network) is Done ==>
            resolve_step(c, name, Some(ctx), network + more) == resolve_step(c, name, Some(ctx), network),
{
    let all = network + more;
    if network.len() >= 1 {
        assert(all[0] == network[0]);
    }
    if network.len() >= 2 {
        assert(all[1] == network[1]);
    }
}

/// A registration that goes through pays what a quote for the same label and
/// years, made at the same moment, asks, and expires when that quote says;
/// the quote itself goes through.
pub proof fn law_registration_pays_quote(
    c: ClientView,
    req: RegistrationRequest,
    ctx: LedgerContext,
    quoted_at: u64,
    submitted_at: u64,
)
    requires
        register_step(c, req, Some(ctx), quoted_at, submitted_at) is Done,
        register_step(c, req, Some(ctx), quoted_at, submitted_at)->Done_0 is Ok,
    ensures
        quote_result(c, req.label@, req.duration_years, quoted_at) is Ok,
        register_step(c, req, Some(ctx), quoted_at, submitted_at)->Done_0->Ok_0.fee_paid
            == quote_result(c, req.label@, req.duration_years, quoted_at)->Ok_0.total_fee,
        register_step(c, req, Some(ctx), quoted_at, submitted_at)->Done_0->Ok_0.expires_at
            == quote_result(c, req.label@, req.duration_years, quoted_at)->Ok_0.expires_at,
{
    assert(register_check(c, req) is Ok);
}

/// The builder and `new` configure a client alike.
pub proof fn law_builder_matches_new(
    rpc_url: Seq<char>,
    passphrase: Seq<char>,
    registry: Seq<char>,
    subdomain: Seq<char>,
    bridge: Seq<char>,
    auction: Seq<char>,
)
    ensures
        (ClientView {
            auction_contract_id: Some(auction),
            ..ClientView {
                bridge_contract_id: Some(bridge),
                ..ClientView {
                    subdomain_contract_id: Some(subdomain),
                    ..ClientView {
                        registry_contract_id: Some(registry),
                        ..ClientView { network_passphrase: Some(passphrase), ..bare_client(rpc_url) }
                    }
                }
            }
        }) == (ClientView {
            network_passphrase: Some(passphrase),
            registry_contract_id: Some(registry),
            subdomain_contract_id: Some(subdomain),
            bridge_contract_id: Some(bridge),
            auction_contract_id: Some(auction),
            ..bare_client(rpc_url)
        }),
{
}

/// The three price tiers: up to 3 bytes cost 1_000_000_000 a year, 4 to 6
/// bytes 250_000_000, and every label of 7 bytes or more 100_000_000.
pub proof fn law_label_price_tiers(n: nat)
    ensures
        n <= 3 ==> label_price(n) == 1_000_000_000,
        4 <= n <= 6 ==> label_price(n) == 250_000_000,
        n >= 7 ==> label_price(n) == 100_000_000,
        label_price(n) > 0,
{
}

/// A quote's base fee is the yearly price of the trimmed label times the
/// years, exactly (no `u32` number of years overflows it), and the total
/// equals it.
pub proof fn law_quote_fee_is_price_times_years(c: ClientView, label: Seq<char>, years: u32, now: u64)
    ensures
        trimmed_len(label) <= 3 ==> quote_view(c, label, years, now).fee_breakdown.base_fee
            == 1_000_000_000 * years,
        4 <= trimmed_len(label) <= 6 ==> quote_view(c, label, years, now).fee_breakdown.base_fee
            == 250_000_000 * years,
        trimmed_len(label) >= 7 ==> quote_view(c, label, years, now).fee_breakdown.base_fee
            == 100_000_000 * years,
        quote_view(c, label, years, now).total_fee == quote_view(c, label, years, now).fee_breakdown.base_fee,
{
    let p = label_price(trimmed_len(label));
    assert(p * (years as u64) <= 1_000_000_000 * 4_294_967_295) by (nonlinear_arith)
        requires
            p <= 1_000_000_000,
            years <= 4_294_967_295,
    ;
}

/// A registration made with the clock reading `now` expires `years` years of
/// `YEAR_SECONDS` after `now` (capped at `u64::MAX`), is stamped `now`, and pays
/// the yearly price of its trimmed label times the years.
pub proof fn law_registration_expiry_from_clock(
    c: ClientView,
    req: RegistrationRequest,
    ctx: LedgerContext,
    now: u64,
)
    requires
        register_check(c, req) is Ok,
    ensures
        register_step(c, req, Some(ctx), now, now) is Done,
        register_step(c, req, Some(ctx), now, now)->Done_0 is Ok,
        register_step(c, req, Some(ctx), now, now)->Done_0->Ok_0.submission.submitted_at == now,
        register_step(c, req, Some(ctx), now, now)->Done_0->Ok_0.expires_at == (if now
            + req.duration_years * YEAR_SECONDS > u64::MAX {
            u64::MAX
        } else {
            (now + req.duration_years * YEAR_SECONDS) as u64
        }),
        register_step(c, req, Some(ctx), now, now)->Done_0->Ok_0.fee_paid
            == label_price(trimmed_len(req.label@)) * req.duration_years,
{
    let y = req.duration_years as u64;
    assert(y * YEAR_SECONDS <= 4_294_967_295 * 31_536_000) by (nonlinear_arith)
        requires
            y <= 4_294_967_295,
            YEAR_SECONDS == 31_536_000,
    ;
    let p = label_price(trimmed_len(req.label@));
    assert(p * y <= 1_000_000_000 * 4_294_967_295) by (nonlinear_arith)
        requires
            p <= 1_000_000_000,
            y <= 4_294_967_295,
    ;
}

/// A forward lookup with a registry, the ledger context and two successful
/// network queries always asks the resolver: it answers with the resolver's
/// address for the name at that ledger, whatever resolver is configured; the
/// configured resolver (or the default one) only fills the resolver field.
pub proof fn law_resolve_answers_resolver_address(
    c: ClientView,
    name: Seq<char>,
    ctx: LedgerContext,
    network: Seq<Result<(), String>>,
)
    requires
        c.registry_contract_id is Some,
        network.len() >= 2,
        network[0] is Ok,
        network[1] is Ok,
    ensures
        resolve_step(c, name, Some(ctx), network) == StepView::Done(Ok::<_, SdkErrorView>(ResolutionResultView {
            name,
            address: Some("GDRA...RESOLVED_ADDR:"@ + name + ":"@ + decimal(ctx.ledger as nat)),
            resolver: Some(match c.resolver_contract_id {
                Some(r) => r,
                None => "CDAD...RESOLVER"@,
            }),
            expires_at: Some((MOCK_REFERENCE_TIMESTAMP + SECONDS_PER_YEAR) as u64),
        })),
{
}

/// Every chain that `register_chain` accepts has a route whose destination is
/// that chain, so a resolution message can be built for it; and every chain
/// with a route is accepted.
pub proof fn law_accepted_chains_have_routes(bridge: Seq<char>, chain: Seq<char>, name: Seq<char>)
    ensures
        chain_registration(Some(bridge), chain) is Ok ==> {
            &&& route_for(chain) is Some
            &&& route_for(chain)->0.destination_chain == chain
            &&& message_for(name, chain, route_for(chain)) is Ok
        },
        route_for(chain) is Some ==> chain_registration(Some(bridge), chain) is Ok,
{
}

/// The state of an auction exists exactly when the auction does, whether it
/// is still active or has ended, and carries its highest bid and end time.
pub proof fn law_auction_state_follows_auction(name: Seq<char>)
    ensures
        label_check(name, "name"@) is Ok && auction_for(name) is Some ==> auction_state_result(name)
            == Ok::<_, SdkErrorView>(AuctionState {
            highest_bid: auction_for(name)->0.highest_bid as i128,
            end_time: auction_for(name)->0.ends_at,
        }),
        label_check(name, "name"@) is Ok && auction_for(name) is None ==> auction_state_result(name)
            == Err::<AuctionState, _>(SdkErrorView::ContractError(ContractErrorCode::NameNotFound)),
{
}

} // verus!
