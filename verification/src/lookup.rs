//! Forward lookups against the registry and resolver contracts. A lookup
//! needs the ledger context and then one or two network queries; the
//! lookup functions take the outcomes fetched so far and say what to fetch
//! next, or how the lookup ended.

use vstd::prelude::*;
use crate::client::{ClientView, XlmNsClient, clone_opt};
use crate::constants::{GRACE_PERIOD_SECONDS, MOCK_REFERENCE_TIMESTAMP, SECONDS_PER_YEAR};
use crate::errors::{SdkError, contract_id_error, missing_contract, network_error, network_failure};
use crate::pricing::{sat_add, saturating_add};
use crate::records::TextRecords;
use crate::step::{Step, StepView};
use crate::text::{decimal, first_segment, first_segment_of, push_decimal, str_eq};
use crate::types::{
    LedgerContext, NameRecord, NameRecordView, RegistryEntry, RegistryEntryView, ResolutionRecord,
    ResolutionRecordView, ResolutionResult, ResolutionResultView,
};

verus! {

/// The registry entry that the mock registry returns for `name` at `ledger`.
pub open spec fn registry_entry_view(c: ClientView, name: Seq<char>, ledger: u32) -> RegistryEntryView {
    RegistryEntryView {
        name,
        owner: "GDRA...OWNER"@,
        resolver: match c.resolver_contract_id {
            Some(r) => Some(r),
            None => Some("CDAD...RESOLVER"@),
        },
        target_address: Some("GDRA...TARGET"@),
        metadata_uri: None,
        ttl_seconds: 3600,
        registered_at: sat_add(MOCK_REFERENCE_TIMESTAMP, ledger as u64),
        expires_at: (MOCK_REFERENCE_TIMESTAMP + SECONDS_PER_YEAR) as u64,
        grace_period_ends_at: (MOCK_REFERENCE_TIMESTAMP + SECONDS_PER_YEAR
            + GRACE_PERIOD_SECONDS) as u64,
        transfer_count: 0,
    }
}

/// The address that the mock resolver holds for `name` at `ledger`.
pub open spec fn resolved_address(name: Seq<char>, ledger: u32) -> Seq<char> {
    "GDRA...RESOLVED_ADDR:"@ + name + ":"@ + decimal(ledger as nat)
}

/// The text records of `name`: its URL and its handle (the first label of the name).
pub open spec fn text_records_for(name: Seq<char>) -> Map<Seq<char>, Seq<char>> {
    Map::empty().insert("url"@, "https://"@ + name).insert("twitter"@, "@"@ + first_segment(name))
}

/// The resolver record that the mock resolver returns for `name` at `ledger`.
pub open spec fn resolution_record_view(name: Seq<char>, ledger: u32) -> ResolutionRecordView {
    ResolutionRecordView {
        owner: "GDRA...OWNER"@,
        address: resolved_address(name, ledger),
        text_records: text_records_for(name),
        updated_at: MOCK_REFERENCE_TIMESTAMP,
    }
}

/// The ledger number of a context that is present.
pub open spec fn ctx_ledger(ctx: Option<LedgerContext>) -> u32 {
    match ctx {
        Some(c) => c.ledger,
        None => 0,
    }
}

/// The forward lookup of `name`, given the ledger context (if fetched) and
/// the outcomes of the network queries made so far, in order.
pub open spec fn resolve_step(
    c: ClientView,
    name: Seq<char>,
    ctx: Option<LedgerContext>,
    network: Seq<Result<(), String>>,
) -> StepView<ResolutionResultView> {
    match ctx {
        None => StepView::FetchLedger,
        Some(lc) => match c.registry_contract_id {
            None => StepView::Done(Err(missing_contract("registry"@))),
            Some(_) => if network.len() == 0 {
                StepView::FetchNetwork
            } else {
                match network[0] {
                    Err(e) => StepView::Done(Err(network_failure(e@))),
                    Ok(_) => {
                        let entry = registry_entry_view(c, name, lc.ledger);
                        let base = ResolutionResultView {
                            name,
                            address: entry.target_address,
                            resolver: entry.resolver,
                            expires_at: Some(entry.expires_at),
                        };
                        match entry.resolver {
                            None => StepView::Done(Ok(base)),
                            Some(_) => if network.len() < 2 {
                                StepView::FetchNetwork
                            } else {
                                match network[1] {
                                    Err(e) => StepView::Done(Err(network_failure(e@))),
                                    Ok(_) => StepView::Done(Ok(ResolutionResultView {
                                        address: Some(resolved_address(name, lc.ledger)),
                                        ..base
                                    })),
                                }
                            },
                        }
                    },
                }
            },
        },
    }
}

/// The registry metadata of `name`, given the ledger context (if fetched)
/// and the outcomes of the network queries made so far.
pub open spec fn metadata_step(
    c: ClientView,
    name: Seq<char>,
    ctx: Option<LedgerContext>,
    network: Seq<Result<(), String>>,
) -> StepView<NameRecordView> {
    match ctx {
        None => StepView::FetchLedger,
        Some(lc) => match c.registry_contract_id {
            None => StepView::Done(Err(missing_contract("registry"@))),
            Some(_) => if network.len() == 0 {
                StepView::FetchNetwork
            } else {
                match network[0] {
                    Err(e) => StepView::Done(Err(network_failure(e@))),
                    Ok(_) => {
                        let entry = registry_entry_view(c, name, lc.ledger);
                        StepView::Done(Ok(NameRecordView {
                            owner: entry.owner,
                            registered_at: entry.registered_at,
                            expires_at: entry.expires_at,
                            grace_period_ends_at: entry.grace_period_ends_at,
                            resolver: entry.resolver,
                        }))
                    },
                }
            },
        },
    }
}

/// A lookup step whose result is optional, taken by its view.
pub open spec fn optional_step_view(s: Step<Option<ResolutionResult>>) -> StepView<Option<ResolutionResultView>> {
    match s {
        Step::FetchLedger => StepView::FetchLedger,
        Step::FetchNetwork => StepView::FetchNetwork,
        Step::Done(Ok(Some(r))) => StepView::Done(Ok(Some(r@))),
        Step::Done(Ok(None)) => StepView::Done(Ok(None)),
        Step::Done(Err(e)) => StepView::Done(Err(e@)),
    }
}

/// `get_registration`: the name `notfound.xlm` is not registered; any other
/// name is looked up.
pub open spec fn registration_step(
    c: ClientView,
    name: Seq<char>,
    ctx: Option<LedgerContext>,
    network: Seq<Result<(), String>>,
) -> StepView<Option<ResolutionResultView>> {
    if name == "notfound.xlm"@ {
        StepView::Done(Ok(None))
    } else {
        match resolve_step(c, name, ctx, network) {
            StepView::FetchLedger => StepView::FetchLedger,
            StepView::FetchNetwork => StepView::FetchNetwork,
            StepView::Done(Ok(r)) => StepView::Done(Ok(Some(r))),
            StepView::Done(Err(e)) => StepView::Done(Err(e)),
        }
    }
}

/// The url and twitter text records of `name`.
pub fn make_text_records(name: &str) -> (r: TextRecords)
    ensures
        r@ == text_records_for(name@),
{
    let mut records = TextRecords::new();
    let mut url = "https://".to_owned();
    url.append(name);
    records.insert("url".to_owned(), url);
    let mut handle = "@".to_owned();
    handle.append(first_segment_of(name));
    records.insert("twitter".to_owned(), handle);
    records
}

impl XlmNsClient {
    /// The entry that the registry returns for `name` at `ledger`.
    pub fn registry_entry(&self, name: &str, ledger: u32) -> (e: RegistryEntry)
        ensures
            e@ == registry_entry_view(self@, name@, ledger),
    {
        let resolver = match &self.resolver_contract_id {
            Some(r) => Some(r.clone()),
            None => Some("CDAD...RESOLVER".to_owned()),
        };
        RegistryEntry {
            name: name.to_owned(),
            owner: "GDRA...OWNER".to_owned(),
            resolver,
            target_address: Some("GDRA...TARGET".to_owned()),
            metadata_uri: None,
            ttl_seconds: 3600,
            registered_at: saturating_add(MOCK_REFERENCE_TIMESTAMP, ledger as u64),
            expires_at: MOCK_REFERENCE_TIMESTAMP + SECONDS_PER_YEAR,
            grace_period_ends_at: MOCK_REFERENCE_TIMESTAMP + SECONDS_PER_YEAR + GRACE_PERIOD_SECONDS,
            transfer_count: 0,
        }
    }

    /// The registry query for `name`, after the network query that precedes it
    /// ended with `network`.
    pub fn query_registry(&self, name: &str, ledger: u32, network: &Result<(), String>) -> (r: Result<RegistryEntry, SdkError>)
        ensures
            match network {
                Err(d) => r matches Err(e) && e@ == network_failure(d@),
                Ok(_) => r matches Ok(e) && e@ == registry_entry_view(self@, name@, ledger),
            },
    {
        match network {
            Err(d) => Err(network_error(d.as_str())),
            Ok(()) => Ok(self.registry_entry(name, ledger)),
        }
    }

    /// The record that the resolver returns for `name` at `ledger`.
    pub fn resolution_record(&self, name: &str, ledger: u32) -> (r: ResolutionRecord)
        ensures
            r@ == resolution_record_view(name@, ledger),
    {
        let mut address = "GDRA...RESOLVED_ADDR:".to_owned();
        address.append(name);
        address.append(":");
        push_decimal(&mut address, ledger as u64);
        ResolutionRecord {
            owner: "GDRA...OWNER".to_owned(),
            address,
            text_records: make_text_records(name),
            updated_at: MOCK_REFERENCE_TIMESTAMP,
        }
    }

    /// The resolver query for `name`, after the network query that precedes it
    /// ended with `network`.
    pub fn query_resolver(&self, name: &str, ledger: u32, network: &Result<(), String>) -> (r: Result<Option<ResolutionRecord>, SdkError>)
        ensures
            match network {
                Err(d) => r matches Err(e) && e@ == network_failure(d@),
                Ok(_) => r matches Ok(Some(rec)) && rec@ == resolution_record_view(name@, ledger),
            },
    {
        match network {
            Err(d) => Err(network_error(d.as_str())),
            Ok(()) => Ok(Some(self.resolution_record(name, ledger))),
        }
    }

    /// Resolves `name` to its address, given the ledger context (once fetched)
    /// and the outcomes of the network queries made so far.
    pub fn resolve(&self, name: &str, ctx: Option<LedgerContext>, network: &Vec<Result<(), String>>) -> (s: Step<ResolutionResult>)
        ensures
            s@ == resolve_step(self@, name@, ctx, network@),
    {
        let lc = match ctx {
            None => return Step::FetchLedger,
            Some(lc) => lc,
        };
        if self.registry_contract_id.is_none() {
            return Step::Done(Err(contract_id_error("registry")));
        }
        if network.len() == 0 {
            return Step::FetchNetwork;
        }
        let entry = match self.query_registry(name, lc.ledger, &network[0]) {
            Err(e) => return Step::Done(Err(e)),
            Ok(entry) => entry,
        };
        let resolver = clone_opt(&entry.resolver);
        let mut result = ResolutionResult {
            name: name.to_owned(),
            address: entry.target_address,
            resolver,
            expires_at: Some(entry.expires_at),
        };
        if entry.resolver.is_some() {
            if network.len() < 2 {
                return Step::FetchNetwork;
            }
            match self.query_resolver(name, lc.ledger, &network[1]) {
                Err(e) => return Step::Done(Err(e)),
                Ok(Some(record)) => {
                    result.address = Some(record.address);
                },
                Ok(None) => {},
            }
        }
        Step::Done(Ok(result))
    }

    /// The registry metadata of `name`, given the ledger context (once fetched)
    /// and the outcomes of the network queries made so far.
    pub fn get_registry_metadata(&self, name: &str, ctx: Option<LedgerContext>, network: &Vec<Result<(), String>>) -> (s: Step<NameRecord>)
        ensures
            s@ == metadata_step(self@, name@, ctx, network@),
    {
        let lc = match ctx {
            None => return Step::FetchLedger,
            Some(lc) => lc,
        };
        if self.registry_contract_id.is_none() {
            return Step::Done(Err(contract_id_error("registry")));
        }
        if network.len() == 0 {
            return Step::FetchNetwork;
        }
        let entry = match self.query_registry(name, lc.ledger, &network[0]) {
            Err(e) => return Step::Done(Err(e)),
            Ok(entry) => entry,
        };
        Step::Done(Ok(NameRecord {
            owner: entry.owner,
            registered_at: entry.registered_at,
            expires_at: entry.expires_at,
            grace_period_ends_at: entry.grace_period_ends_at,
            resolver: entry.resolver,
        }))
    }

    /// The registration of `name`, if it has one, given the ledger context
    /// (once fetched) and the outcomes of the network queries made so far.
    pub fn get_registration(&self, name: &str, ctx: Option<LedgerContext>, network: &Vec<Result<(), String>>) -> (s: Step<Option<ResolutionResult>>)
        ensures
            optional_step_view(s) == registration_step(self@, name@, ctx, network@),
    {
        if str_eq(name, "notfound.xlm") {
            return Step::Done(Ok(None));
        }
        match self.resolve(name, ctx, network) {
            Step::FetchLedger => Step::FetchLedger,
            Step::FetchNetwork => Step::FetchNetwork,
            Step::Done(Ok(r)) => Step::Done(Ok(Some(r))),
            Step::Done(Err(e)) => Step::Done(Err(e)),
        }
    }
}

} // verus!
