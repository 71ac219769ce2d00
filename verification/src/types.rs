//! Requests, records and receipts that the SDK exchanges, each result type
//! with a view whose strings are character sequences.

use vstd::prelude::*;
use crate::records::TextRecords;

verus! {

/// Options that tune the client.
#[derive(Debug, Clone, Copy, PartialEq, Eq, Structural)]
pub struct ClientConfig {}

impl Default for ClientConfig {
    fn default() -> (c: Self)
        ensures
            c == (ClientConfig {}),
    {
        ClientConfig {}
    }
}

/// The ledger facts that an RPC round trip returns.
#[derive(Debug, Clone)]
pub struct LedgerContext {
    pub ledger: u32,
    pub network_passphrase: String,
}

/// State of a submitted transaction.
#[derive(Debug, Clone, Copy, PartialEq, Eq, Structural)]
pub enum SubmissionStatus {
    Submitted,
}

/// A transaction handed to the network.
#[derive(Debug, Clone)]
pub struct TransactionSubmission {
    pub tx_hash: String,
    pub status: SubmissionStatus,
    pub ledger: Option<u32>,
    pub submitted_at: u64,
    pub contract_id: Option<String>,
    pub network_passphrase: Option<String>,
    pub signer: Option<String>,
}

pub struct TransactionSubmissionView {
    pub tx_hash: Seq<char>,
    pub status: SubmissionStatus,
    pub ledger: Option<u32>,
    pub submitted_at: u64,
    pub contract_id: Option<Seq<char>>,
    pub network_passphrase: Option<Seq<char>>,
    pub signer: Option<Seq<char>>,
}

impl View for TransactionSubmission {
    type V = TransactionSubmissionView;

    open spec fn view(&self) -> TransactionSubmissionView {
        TransactionSubmissionView {
            tx_hash: self.tx_hash@,
            status: self.status,
            ledger: self.ledger,
            submitted_at: self.submitted_at,
            contract_id: self.contract_id.deep_view(),
            network_passphrase: self.network_passphrase.deep_view(),
            signer: self.signer.deep_view(),
        }
    }
}

/// Ownership and lifetime of a registered name.
#[derive(Debug, Clone)]
pub struct NameRecord {
    pub owner: String,
    pub registered_at: u64,
    pub expires_at: u64,
    pub grace_period_ends_at: u64,
    pub resolver: Option<String>,
}

pub struct NameRecordView {
    pub owner: Seq<char>,
    pub registered_at: u64,
    pub expires_at: u64,
    pub grace_period_ends_at: u64,
    pub resolver: Option<Seq<char>>,
}

impl View for NameRecord {
    type V = NameRecordView;

    open spec fn view(&self) -> NameRecordView {
        NameRecordView {
            owner: self.owner@,
            registered_at: self.registered_at,
            expires_at: self.expires_at,
            grace_period_ends_at: self.grace_period_ends_at,
            resolver: self.resolver.deep_view(),
        }
    }
}

/// A name's entry in the registry contract.
#[derive(Debug, Clone)]
pub struct RegistryEntry {
    pub name: String,
    pub owner: String,
    pub resolver: Option<String>,
    pub target_address: Option<String>,
    pub metadata_uri: Option<String>,
    pub ttl_seconds: u64,
    pub registered_at: u64,
    pub expires_at: u64,
    pub grace_period_ends_at: u64,
    pub transfer_count: u32,
}

pub struct RegistryEntryView {
    pub name: Seq<char>,
    pub owner: Seq<char>,
    pub resolver: Option<Seq<char>>,
    pub target_address: Option<Seq<char>>,
    pub metadata_uri: Option<Seq<char>>,
    pub ttl_seconds: u64,
    pub registered_at: u64,
    pub expires_at: u64,
    pub grace_period_ends_at: u64,
    pub transfer_count: u32,
}

impl View for RegistryEntry {
    type V = RegistryEntryView;

    open spec fn view(&self) -> RegistryEntryView {
        RegistryEntryView {
            name: self.name@,
            owner: self.owner@,
            resolver: self.resolver.deep_view(),
            target_address: self.target_address.deep_view(),
            metadata_uri: self.metadata_uri.deep_view(),
            ttl_seconds: self.ttl_seconds,
            registered_at: self.registered_at,
            expires_at: self.expires_at,
            grace_period_ends_at: self.grace_period_ends_at,
            transfer_count: self.transfer_count,
        }
    }
}

/// What a resolver contract holds for a name.
#[derive(Debug, Clone)]
pub struct ResolutionRecord {
    pub owner: String,
    pub address: String,
    pub text_records: TextRecords,
    pub updated_at: u64,
}

pub struct ResolutionRecordView {
    pub owner: Seq<char>,
    pub address: Seq<char>,
    pub text_records: Map<Seq<char>, Seq<char>>,
    pub updated_at: u64,
}

impl View for ResolutionRecord {
    type V = ResolutionRecordView;

    open spec fn view(&self) -> ResolutionRecordView {
        ResolutionRecordView {
            owner: self.owner@,
            address: self.address@,
            text_records: self.text_records@,
            updated_at: self.updated_at,
        }
    }
}

/// The answer to a forward lookup of a name.
#[derive(Debug, Clone)]
pub struct ResolutionResult {
    pub name: String,
    pub address: Option<String>,
    pub resolver: Option<String>,
    pub expires_at: Option<u64>,
}

pub struct ResolutionResultView {
    pub name: Seq<char>,
    pub address: Option<Seq<char>>,
    pub resolver: Option<Seq<char>>,
    pub expires_at: Option<u64>,
}

impl View for ResolutionResult {
    type V = ResolutionResultView;

    open spec fn view(&self) -> ResolutionResultView {
        ResolutionResultView {
            name: self.name@,
            address: self.address.deep_view(),
            resolver: self.resolver.deep_view(),
            expires_at: self.expires_at,
        }
    }
}

/// The answer to a reverse lookup of an address.
#[derive(Debug, Clone)]
pub struct ReverseResolution {
    pub address: String,
    pub primary_name: Option<String>,
    pub resolver: Option<String>,
}

pub struct ReverseResolutionView {
    pub address: Seq<char>,
    pub primary_name: Option<Seq<char>>,
    pub resolver: Option<Seq<char>>,
}

impl View for ReverseResolution {
    type V = ReverseResolutionView;

    open spec fn view(&self) -> ReverseResolutionView {
        ReverseResolutionView {
            address: self.address@,
            primary_name: self.primary_name.deep_view(),
            resolver: self.resolver.deep_view(),
        }
    }
}

/// One text record of a name.
#[derive(Debug, Clone)]
pub struct TextRecord {
    pub name: String,
    pub key: String,
    pub value: Option<String>,
}

pub struct TextRecordView {
    pub name: Seq<char>,
    pub key: Seq<char>,
    pub value: Option<Seq<char>>,
}

impl View for TextRecord {
    type V = TextRecordView;

    open spec fn view(&self) -> TextRecordView {
        TextRecordView { name: self.name@, key: self.key@, value: self.value.deep_view() }
    }
}

/// A request to set one text record.
#[derive(Debug, Clone)]
pub struct TextRecordUpdate {
    pub name: String,
    pub key: String,
    pub value: String,
    pub signer: Option<String>,
}

/// A request to set several text records at once.
#[derive(Debug, Clone)]
pub struct TextRecordsUpdate {
    pub name: String,
    pub records: TextRecords,
    pub signer: Option<String>,
}

/// How a registration fee is made up.
#[derive(Debug, Clone, Copy, PartialEq, Eq, Structural)]
pub struct FeeBreakdown {
    pub base_fee: u64,
    pub premium_fee: u64,
    pub network_fee: u64,
}

/// The sum of the three fees, capped at `u64::MAX`.
pub open spec fn fee_total(f: FeeBreakdown) -> u64 {
    if f.base_fee + f.premium_fee + f.network_fee > u64::MAX {
        u64::MAX
    } else {
        (f.base_fee + f.premium_fee + f.network_fee) as u64
    }
}

impl FeeBreakdown {
    /// The total fee: the sum of the three parts, saturating at `u64::MAX`.
    pub fn total(&self) -> (t: u64)
        ensures
            t == fee_total(*self),
    {
        self.base_fee.saturating_add(self.premium_fee).saturating_add(self.network_fee)
    }
}

/// The price and lifetime that registering a label would have.
#[derive(Debug, Clone)]
pub struct RegistrationQuote {
    pub label: String,
    pub duration_years: u32,
    pub fee_breakdown: FeeBreakdown,
    pub total_fee: u64,
    pub fee_currency: String,
    pub expires_at: u64,
    pub grace_period_ends_at: u64,
    pub quoted_at: u64,
    pub contract_id: Option<String>,
}

pub struct RegistrationQuoteView {
    pub label: Seq<char>,
    pub duration_years: u32,
    pub fee_breakdown: FeeBreakdown,
    pub total_fee: u64,
    pub fee_currency: Seq<char>,
    pub expires_at: u64,
    pub grace_period_ends_at: u64,
    pub quoted_at: u64,
    pub contract_id: Option<Seq<char>>,
}

impl View for RegistrationQuote {
    type V = RegistrationQuoteView;

    open spec fn view(&self) -> RegistrationQuoteView {
        RegistrationQuoteView {
            label: self.label@,
            duration_years: self.duration_years,
            fee_breakdown: self.fee_breakdown,
            total_fee: self.total_fee,
            fee_currency: self.fee_currency@,
            expires_at: self.expires_at,
            grace_period_ends_at: self.grace_period_ends_at,
            quoted_at: self.quoted_at,
            contract_id: self.contract_id.deep_view(),
        }
    }
}

/// A request to register `label` for `owner`.
#[derive(Debug, Clone)]
pub struct RegistrationRequest {
    pub label: String,
    pub owner: String,
    pub duration_years: u32,
    pub signer: Option<String>,
}

/// The outcome of a registration.
#[derive(Debug, Clone)]
pub struct RegistrationReceipt {
    pub name: String,
    pub owner: String,
    pub duration_years: u32,
    pub expires_at: u64,
    pub fee_paid: u64,
    pub submission: TransactionSubmission,
}

pub struct RegistrationReceiptView {
    pub name: Seq<char>,
    pub owner: Seq<char>,
    pub duration_years: u32,
    pub expires_at: u64,
    pub fee_paid: u64,
    pub submission: TransactionSubmissionView,
}

impl View for RegistrationReceipt {
    type V = RegistrationReceiptView;

    open spec fn view(&self) -> RegistrationReceiptView {
        RegistrationReceiptView {
            name: self.name@,
            owner: self.owner@,
            duration_years: self.duration_years,
            expires_at: self.expires_at,
            fee_paid: self.fee_paid,
            submission: self.submission@,
        }
    }
}

/// A request to extend a name's registration.
#[derive(Debug, Clone)]
pub struct RenewalRequest {
    pub name: String,
    pub additional_years: u32,
    pub signer: Option<String>,
}

/// The outcome of a renewal.
#[derive(Debug, Clone)]
pub struct RenewalReceipt {
    pub name: String,
    pub additional_years: u32,
    pub new_expiry: u64,
    pub fee_paid: u64,
    pub submission: TransactionSubmission,
}

pub struct RenewalReceiptView {
    pub name: Seq<char>,
    pub additional_years: u32,
    pub new_expiry: u64,
    pub fee_paid: u64,
    pub submission: TransactionSubmissionView,
}

impl View for RenewalReceipt {
    type V = RenewalReceiptView;

    open spec fn view(&self) -> RenewalReceiptView {
        RenewalReceiptView {
            name: self.name@,
            additional_years: self.additional_years,
            new_expiry: self.new_expiry,
            fee_paid: self.fee_paid,
            submission: self.submission@,
        }
    }
}

/// A request to hand a name to a new owner.
#[derive(Debug, Clone)]
pub struct TransferRequest {
    pub name: String,
    pub new_owner: String,
    pub signer: Option<String>,
}

/// A request to enable subdomains under `parent`.
#[derive(Debug, Clone)]
pub struct RegisterParentRequest {
    pub parent: String,
    pub owner: String,
}

/// A request to let `controller` manage the subdomains of `parent`.
#[derive(Debug, Clone)]
pub struct AddControllerRequest {
    pub parent: String,
    pub controller: String,
}

/// A request to create `label.parent`.
#[derive(Debug, Clone)]
pub struct CreateSubdomainRequest {
    pub label: String,
    pub parent: String,
    pub owner: String,
}

/// A request to hand a subdomain to a new owner.
#[derive(Debug, Clone)]
pub struct TransferSubdomainRequest {
    pub fqdn: String,
    pub new_owner: String,
}

/// A subdomain and its owner.
#[derive(Debug, Clone)]
pub struct Subdomain {
    pub label: String,
    pub owner: String,
}

pub struct SubdomainView {
    pub label: Seq<char>,
    pub owner: Seq<char>,
}

impl View for Subdomain {
    type V = SubdomainView;

    open spec fn view(&self) -> SubdomainView {
        SubdomainView { label: self.label@, owner: self.owner@ }
    }
}

/// A request to enable bridging to `chain`.
#[derive(Debug, Clone)]
pub struct RegisterChainRequest {
    pub chain: String,
}

/// How resolutions reach another chain.
#[derive(Debug, Clone)]
pub struct BridgeRoute {
    pub destination_chain: String,
    pub destination_resolver: String,
    pub gateway: String,
}

pub struct BridgeRouteView {
    pub destination_chain: Seq<char>,
    pub destination_resolver: Seq<char>,
    pub gateway: Seq<char>,
}

impl View for BridgeRoute {
    type V = BridgeRouteView;

    open spec fn view(&self) -> BridgeRouteView {
        BridgeRouteView {
            destination_chain: self.destination_chain@,
            destination_resolver: self.destination_resolver@,
            gateway: self.gateway@,
        }
    }
}

/// A request for the cross-chain message that carries `name` to `chain`.
#[derive(Debug, Clone)]
pub struct BuildMessageRequest {
    pub name: String,
    pub chain: String,
}

/// A name's NFT.
#[derive(Debug, Clone)]
pub struct NftRecord {
    pub token_id: String,
    pub owner: String,
    pub metadata_uri: Option<String>,
}

pub struct NftRecordView {
    pub token_id: Seq<char>,
    pub owner: Seq<char>,
    pub metadata_uri: Option<Seq<char>>,
}

impl View for NftRecord {
    type V = NftRecordView;

    open spec fn view(&self) -> NftRecordView {
        NftRecordView {
            token_id: self.token_id@,
            owner: self.owner@,
            metadata_uri: self.metadata_uri.deep_view(),
        }
    }
}

/// Whether an auction still takes bids.
#[derive(Debug, Clone, Copy, PartialEq, Eq, Structural)]
pub enum AuctionStatus {
    Active,
    Ended,
}

/// An auction of a name.
#[derive(Debug, Clone)]
pub struct AuctionInfo {
    pub name: String,
    pub owner: String,
    pub reserve_price: u64,
    pub highest_bid: u64,
    pub highest_bidder: Option<String>,
    pub ends_at: u64,
    pub status: AuctionStatus,
}

pub struct AuctionInfoView {
    pub name: Seq<char>,
    pub owner: Seq<char>,
    pub reserve_price: u64,
    pub highest_bid: u64,
    pub highest_bidder: Option<Seq<char>>,
    pub ends_at: u64,
    pub status: AuctionStatus,
}

impl View for AuctionInfo {
    type V = AuctionInfoView;

    open spec fn view(&self) -> AuctionInfoView {
        AuctionInfoView {
            name: self.name@,
            owner: self.owner@,
            reserve_price: self.reserve_price,
            highest_bid: self.highest_bid,
            highest_bidder: self.highest_bidder.deep_view(),
            ends_at: self.ends_at,
            status: self.status,
        }
    }
}

/// The bid and deadline of an auction.
#[derive(Debug, Clone, Copy, PartialEq, Eq, Structural)]
pub struct AuctionState {
    pub highest_bid: i128,
    pub end_time: u64,
}

impl View for AuctionState {
    type V = AuctionState;

    open spec fn view(&self) -> AuctionState {
        *self
    }
}

/// A request to open an auction.
#[derive(Debug, Clone)]
pub struct AuctionCreateRequest {
    pub name: String,
    pub reserve_price: u64,
    pub duration_seconds: u64,
    pub signer: Option<String>,
}

/// A bid in an auction.
#[derive(Debug, Clone)]
pub struct BidRequest {
    pub name: String,
    pub amount: u64,
    pub signer: Option<String>,
}

/// Counters of the registrar contract.
#[derive(Debug, Clone, Copy, PartialEq, Eq, Structural)]
pub struct RegistrarMetrics {
    pub treasury_balance: u64,
    pub total_registrations: u64,
    pub total_renewals: u64,
}

impl View for RegistrarMetrics {
    type V = RegistrarMetrics;

    open spec fn view(&self) -> RegistrarMetrics {
        *self
    }
}

} // verus!
