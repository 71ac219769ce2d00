//! Read-only queries that the SDK answers without contacting the network.

use vstd::prelude::*;
use crate::checks::{require_labels, then_check};
use crate::client::{ClientView, XlmNsClient, clone_opt, label_check};
use crate::constants::{MOCK_REFERENCE_TIMESTAMP, SECONDS_PER_YEAR};
use crate::errors::{ContractErrorCode, SdkError, SdkErrorView, result_view};
use crate::lookup::{make_text_records, text_records_for};
use crate::records::TextRecords;
use crate::text::str_eq;
use crate::types::{
    AuctionInfo, AuctionInfoView, AuctionState, AuctionStatus, NameRecord, NameRecordView,
    NftRecord, NftRecordView, ResolutionResult, ResolutionResultView, ReverseResolution,
    ReverseResolutionView, TextRecord, TextRecordView,
};

verus! {

/// Succeeds with `v` when `check` passes.
pub open spec fn checked<V>(check: Result<(), SdkErrorView>, v: V) -> Result<V, SdkErrorView> {
    match check {
        Err(e) => Err(e),
        Ok(_) => Ok(v),
    }
}

/// The names that the mock registry lists for `owner`.
pub open spec fn portfolio(c: ClientView, owner: Seq<char>) -> Seq<NameRecordView> {
    seq![
        NameRecordView {
            owner,
            registered_at: (MOCK_REFERENCE_TIMESTAMP - 86_400) as u64,
            expires_at: (MOCK_REFERENCE_TIMESTAMP + SECONDS_PER_YEAR) as u64,
            grace_period_ends_at: (MOCK_REFERENCE_TIMESTAMP + SECONDS_PER_YEAR + 86_400) as u64,
            resolver: c.resolver_contract_id,
        },
        NameRecordView {
            owner,
            registered_at: (MOCK_REFERENCE_TIMESTAMP - 172_800) as u64,
            expires_at: (MOCK_REFERENCE_TIMESTAMP + 2 * SECONDS_PER_YEAR) as u64,
            grace_period_ends_at: (MOCK_REFERENCE_TIMESTAMP + 2 * SECONDS_PER_YEAR + 86_400) as u64,
            resolver: c.resolver_contract_id,
        },
    ]
}

/// The registrations that the mock registry lists for `owner`.
pub open spec fn owned_registrations(c: ClientView, owner: Seq<char>) -> Seq<ResolutionResultView> {
    seq![
        ResolutionResultView {
            name: "alice.xlm"@,
            address: Some(owner),
            resolver: c.resolver_contract_id,
            expires_at: Some((MOCK_REFERENCE_TIMESTAMP + SECONDS_PER_YEAR) as u64),
        },
        ResolutionResultView {
            name: "bob.xlm"@,
            address: Some(owner),
            resolver: c.resolver_contract_id,
            expires_at: Some((MOCK_REFERENCE_TIMESTAMP + 2 * SECONDS_PER_YEAR) as u64),
        },
    ]
}

/// The reverse resolution of `address`.
pub open spec fn reverse_view(c: ClientView, address: Seq<char>) -> ReverseResolutionView {
    ReverseResolutionView {
        address,
        primary_name: Some("primary.xlm"@),
        resolver: c.resolver_contract_id,
    }
}

/// The NFT record of `token_id`.
pub open spec fn nft_view(token_id: Seq<char>) -> NftRecordView {
    NftRecordView {
        token_id,
        owner: "GDRA...NFT_OWNER"@,
        metadata_uri: Some("ipfs://metadata/"@ + token_id),
    }
}

/// The auction of `name`, if the mock auction house runs one.
pub open spec fn auction_for(name: Seq<char>) -> Option<AuctionInfoView> {
    if name == "active.xlm"@ {
        Some(AuctionInfoView {
            name,
            owner: "GDRA...OWNER"@,
            reserve_price: 100,
            highest_bid: 150,
            highest_bidder: Some("GDRA...BIDDER"@),
            ends_at: (MOCK_REFERENCE_TIMESTAMP + 3600) as u64,
            status: AuctionStatus::Active,
        })
    } else if name == "ended.xlm"@ {
        Some(AuctionInfoView {
            name,
            owner: "GDRA...OWNER"@,
            reserve_price: 100,
            highest_bid: 200,
            highest_bidder: Some("GDRA...WINNER"@),
            ends_at: (MOCK_REFERENCE_TIMESTAMP - 3600) as u64,
            status: AuctionStatus::Ended,
        })
    } else {
        None
    }
}

/// The bid and deadline of an auction.
pub open spec fn auction_state_of(a: AuctionInfoView) -> AuctionState {
    AuctionState { highest_bid: a.highest_bid as i128, end_time: a.ends_at }
}

/// The outcome of `get_auction_state` for `name`.
pub open spec fn auction_state_result(name: Seq<char>) -> Result<AuctionState, SdkErrorView> {
    match label_check(name, "name"@) {
        Err(e) => Err(e),
        Ok(_) => match auction_for(name) {
            None => Err(SdkErrorView::ContractError(ContractErrorCode::NameNotFound)),
            Some(a) => Ok(auction_state_of(a)),
        },
    }
}

/// A vector result taken element-wise by views.
pub open spec fn vec_result_view<T: View>(r: Result<Vec<T>, SdkError>) -> Result<Seq<T::V>, SdkErrorView> {
    match r {
        Ok(v) => Ok(v@.map_values(|x: T| x@)),
        Err(e) => Err(e@),
    }
}

/// An optional string result taken by views.
pub open spec fn opt_string_result_view(r: Result<Option<String>, SdkError>) -> Result<Option<Seq<char>>, SdkErrorView> {
    match r {
        Ok(v) => Ok(v.deep_view()),
        Err(e) => Err(e@),
    }
}

/// An optional auction result taken by views.
pub open spec fn opt_auction_result_view(r: Result<Option<AuctionInfo>, SdkError>) -> Result<Option<AuctionInfoView>, SdkErrorView> {
    match r {
        Ok(Some(a)) => Ok(Some(a@)),
        Ok(None) => Ok(None),
        Err(e) => Err(e@),
    }
}

impl XlmNsClient {
    /// The names held by `owner`.
    pub fn get_owner_portfolio(&self, owner: &str) -> (r: Result<Vec<NameRecord>, SdkError>)
        ensures
            vec_result_view(r) == checked(label_check(owner@, "owner"@), portfolio(self@, owner@)),
    {
        if let Err(e) = XlmNsClient::require_label(owner, "owner") {
            return Err(e);
        }
        let mut v: Vec<NameRecord> = Vec::new();
        v.push(NameRecord {
            owner: owner.to_owned(),
            registered_at: MOCK_REFERENCE_TIMESTAMP - 86_400,
            expires_at: MOCK_REFERENCE_TIMESTAMP + SECONDS_PER_YEAR,
            grace_period_ends_at: MOCK_REFERENCE_TIMESTAMP + SECONDS_PER_YEAR + 86_400,
            resolver: clone_opt(&self.resolver_contract_id),
        });
        v.push(NameRecord {
            owner: owner.to_owned(),
            registered_at: MOCK_REFERENCE_TIMESTAMP - 172_800,
            expires_at: MOCK_REFERENCE_TIMESTAMP + (2 * SECONDS_PER_YEAR),
            grace_period_ends_at: MOCK_REFERENCE_TIMESTAMP + (2 * SECONDS_PER_YEAR) + 86_400,
            resolver: clone_opt(&self.resolver_contract_id),
        });
        assert(v@.map_values(|x: NameRecord| x@) =~= portfolio(self@, owner@));
        Ok(v)
    }

    /// The registrations that resolve to `owner`.
    pub fn list_registrations_by_owner(&self, owner: &str) -> (r: Result<Vec<ResolutionResult>, SdkError>)
        ensures
            vec_result_view(r) == checked(label_check(owner@, "owner"@), owned_registrations(self@, owner@)),
    {
        if let Err(e) = XlmNsClient::require_label(owner, "owner") {
            return Err(e);
        }
        let mut v: Vec<ResolutionResult> = Vec::new();
        v.push(ResolutionResult {
            name: "alice.xlm".to_owned(),
            address: Some(owner.to_owned()),
            resolver: clone_opt(&self.resolver_contract_id),
            expires_at: Some(MOCK_REFERENCE_TIMESTAMP + SECONDS_PER_YEAR),
        });
        v.push(ResolutionResult {
            name: "bob.xlm".to_owned(),
            address: Some(owner.to_owned()),
            resolver: clone_opt(&self.resolver_contract_id),
            expires_at: Some(MOCK_REFERENCE_TIMESTAMP + (2 * SECONDS_PER_YEAR)),
        });
        assert(v@.map_values(|x: ResolutionResult| x@) =~= owned_registrations(self@, owner@));
        Ok(v)
    }

    /// The name that `address` resolves back to.
    pub fn reverse_resolve(&self, address: &str) -> (r: Result<ReverseResolution, SdkError>)
        ensures
            result_view(r) == checked(label_check(address@, "address"@), reverse_view(self@, address@)),
    {
        if let Err(e) = XlmNsClient::require_label(address, "address") {
            return Err(e);
        }
        Ok(ReverseResolution {
            address: address.to_owned(),
            primary_name: Some("primary.xlm".to_owned()),
            resolver: clone_opt(&self.resolver_contract_id),
        })
    }

    /// The primary name of `address`, if it has one.
    pub fn reverse_lookup(&self, address: &str) -> (r: Result<Option<String>, SdkError>)
        ensures
            opt_string_result_view(r) == checked(label_check(address@, "address"@),
                reverse_view(self@, address@).primary_name),
    {
        match self.reverse_resolve(address) {
            Err(e) => Err(e),
            Ok(res) => Ok(res.primary_name),
        }
    }

    /// The primary name of `address`, if it has one.
    pub fn get_primary_name(&self, address: &str) -> (r: Result<Option<String>, SdkError>)
        ensures
            opt_string_result_view(r) == checked(label_check(address@, "address"@),
                reverse_view(self@, address@).primary_name),
    {
        self.reverse_lookup(address)
    }

    /// All text records of a name.
    pub fn get_text_records(&self, name: &str) -> (r: Result<TextRecords, SdkError>)
        ensures
            result_view(r) == checked(label_check(name@, "name"@), text_records_for(name@)),
    {
        if let Err(e) = XlmNsClient::require_label(name, "name") {
            return Err(e);
        }
        Ok(make_text_records(name))
    }

    /// One text record of a name.
    pub fn get_text_record(&self, name: &str, key: &str) -> (r: Result<TextRecord, SdkError>)
        ensures
            result_view(r) == checked(
                then_check(label_check(name@, "name"@), label_check(key@, "key"@)),
                TextRecordView {
                    name: name@,
                    key: key@,
                    value: if text_records_for(name@).contains_key(key@) {
                        Some(text_records_for(name@)[key@])
                    } else {
                        None
                    },
                }),
    {
        if let Err(e) = require_labels(name, "name", key, "key") {
            return Err(e);
        }
        let records = match self.get_text_records(name) {
            Err(e) => return Err(e),
            Ok(records) => records,
        };
        let value = match records.get(key) {
            Some(v) => Some(v.clone()),
            None => None,
        };
        Ok(TextRecord { name: name.to_owned(), key: key.to_owned(), value })
    }

    /// The NFT of a name.
    pub fn get_nft(&self, token_id: &str) -> (r: Result<NftRecord, SdkError>)
        ensures
            result_view(r) == checked(label_check(token_id@, "token_id"@), nft_view(token_id@)),
    {
        self.get_nft_record(token_id)
    }

    /// The owner of an NFT.
    pub fn get_nft_owner(&self, token_id: &str) -> (r: Result<String, SdkError>)
        ensures
            result_view(r) == checked(label_check(token_id@, "token_id"@), "GDRA...OWNER"@),
    {
        if let Err(e) = XlmNsClient::require_label(token_id, "token_id") {
            return Err(e);
        }
        Ok("GDRA...OWNER".to_owned())
    }

    /// The metadata URI of an NFT.
    pub fn get_nft_metadata(&self, token_id: &str) -> (r: Result<Option<String>, SdkError>)
        ensures
            opt_string_result_view(r) == checked(label_check(token_id@, "token_id"@),
                Some("ipfs://"@ + token_id@)),
    {
        if let Err(e) = XlmNsClient::require_label(token_id, "token_id") {
            return Err(e);
        }
        let mut uri = "ipfs://".to_owned();
        uri.append(token_id);
        Ok(Some(uri))
    }

    /// The NFT record of a token.
    pub fn get_nft_record(&self, token_id: &str) -> (r: Result<NftRecord, SdkError>)
        ensures
            result_view(r) == checked(label_check(token_id@, "token_id"@), nft_view(token_id@)),
    {
        if let Err(e) = XlmNsClient::require_label(token_id, "token_id") {
            return Err(e);
        }
        let mut uri = "ipfs://metadata/".to_owned();
        uri.append(token_id);
        Ok(NftRecord {
            token_id: token_id.to_owned(),
            owner: "GDRA...NFT_OWNER".to_owned(),
            metadata_uri: Some(uri),
        })
    }

    /// The auction of a name, if one runs.
    pub fn get_auction(&self, name: &str) -> (r: Result<Option<AuctionInfo>, SdkError>)
        ensures
            opt_auction_result_view(r) == checked(label_check(name@, "name"@), auction_for(name@)),
    {
        if let Err(e) = XlmNsClient::require_label(name, "name") {
            return Err(e);
        }
        if str_eq(name, "active.xlm") {
            Ok(Some(AuctionInfo {
                name: name.to_owned(),
                owner: "GDRA...OWNER".to_owned(),
                reserve_price: 100,
                highest_bid: 150,
                highest_bidder: Some("GDRA...BIDDER".to_owned()),
                ends_at: MOCK_REFERENCE_TIMESTAMP + 3600,
                status: AuctionStatus::Active,
            }))
        } else if str_eq(name, "ended.xlm") {
            Ok(Some(AuctionInfo {
                name: name.to_owned(),
                owner: "GDRA...OWNER".to_owned(),
                reserve_price: 100,
                highest_bid: 200,
                highest_bidder: Some("GDRA...WINNER".to_owned()),
                ends_at: MOCK_REFERENCE_TIMESTAMP - 3600,
                status: AuctionStatus::Ended,
            }))
        } else {
            Ok(None)
        }
    }

    /// The bid and deadline of a name's auction; `NameNotFound` when none runs.
    pub fn get_auction_state(&self, name: &str) -> (r: Result<AuctionState, SdkError>)
        ensures
            result_view(r) == auction_state_result(name@),
    {
        let info = match self.get_auction(name) {
            Err(e) => return Err(e),
            Ok(None) => return Err(SdkError::ContractError(ContractErrorCode::NameNotFound)),
            Ok(Some(info)) => info,
        };
        Ok(AuctionState { highest_bid: info.highest_bid as i128, end_time: info.ends_at })
    }
}

} // verus!
