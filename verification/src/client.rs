//! The client: its configuration, builder, request validation and the
//! submission records that state-changing operations produce.

use vstd::prelude::*;
use crate::errors::{SdkError, SdkErrorView, empty_field, empty_field_error};
use crate::text::{decimal, is_blank, is_blank_str, push_decimal};
use crate::types::{ClientConfig, SubmissionStatus, TransactionSubmission, TransactionSubmissionView};

verus! {

/// Endpoint, network and contract IDs of a client, with strings taken as
/// character sequences.
pub struct ClientView {
    pub rpc_url: Seq<char>,
    pub network_passphrase: Option<Seq<char>>,
    pub registry_contract_id: Option<Seq<char>>,
    pub registrar_contract_id: Option<Seq<char>>,
    pub resolver_contract_id: Option<Seq<char>>,
    pub auction_contract_id: Option<Seq<char>>,
    pub bridge_contract_id: Option<Seq<char>>,
    pub subdomain_contract_id: Option<Seq<char>>,
    pub nft_contract_id: Option<Seq<char>>,
    pub config: ClientConfig,
}

/// A client of the xlm-ns contracts.
#[derive(Debug, Clone)]
pub struct XlmNsClient {
    pub rpc_url: String,
    pub network_passphrase: Option<String>,
    pub registry_contract_id: Option<String>,
    pub registrar_contract_id: Option<String>,
    pub resolver_contract_id: Option<String>,
    pub auction_contract_id: Option<String>,
    pub bridge_contract_id: Option<String>,
    pub subdomain_contract_id: Option<String>,
    pub nft_contract_id: Option<String>,
    pub config: ClientConfig,
}

impl View for XlmNsClient {
    type V = ClientView;

    open spec fn view(&self) -> ClientView {
        ClientView {
            rpc_url: self.rpc_url@,
            network_passphrase: self.network_passphrase.deep_view(),
            registry_contract_id: self.registry_contract_id.deep_view(),
            registrar_contract_id: self.registrar_contract_id.deep_view(),
            resolver_contract_id: self.resolver_contract_id.deep_view(),
            auction_contract_id: self.auction_contract_id.deep_view(),
            bridge_contract_id: self.bridge_contract_id.deep_view(),
            subdomain_contract_id: self.subdomain_contract_id.deep_view(),
            nft_contract_id: self.nft_contract_id.deep_view(),
            config: self.config,
        }
    }
}

/// A fluent builder of `XlmNsClient`.
#[derive(Debug, Clone)]
pub struct XlmNsClientBuilder {
    rpc_url: String,
    network_passphrase: Option<String>,
    registry_contract_id: Option<String>,
    registrar_contract_id: Option<String>,
    resolver_contract_id: Option<String>,
    auction_contract_id: Option<String>,
    bridge_contract_id: Option<String>,
    subdomain_contract_id: Option<String>,
    nft_contract_id: Option<String>,
    config: ClientConfig,
}

impl View for XlmNsClientBuilder {
    type V = ClientView;

    closed spec fn view(&self) -> ClientView {
        ClientView {
            rpc_url: self.rpc_url@,
            network_passphrase: self.network_passphrase.deep_view(),
            registry_contract_id: self.registry_contract_id.deep_view(),
            registrar_contract_id: self.registrar_contract_id.deep_view(),
            resolver_contract_id: self.resolver_contract_id.deep_view(),
            auction_contract_id: self.auction_contract_id.deep_view(),
            bridge_contract_id: self.bridge_contract_id.deep_view(),
            subdomain_contract_id: self.subdomain_contract_id.deep_view(),
            nft_contract_id: self.nft_contract_id.deep_view(),
            config: self.config,
        }
    }
}

/// A client view with only the endpoint set.
pub open spec fn bare_client(rpc_url: Seq<char>) -> ClientView {
    ClientView {
        rpc_url,
        network_passphrase: None,
        registry_contract_id: None,
        registrar_contract_id: None,
        resolver_contract_id: None,
        auction_contract_id: None,
        bridge_contract_id: None,
        subdomain_contract_id: None,
        nft_contract_id: None,
        config: ClientConfig {},
    }
}

/// The outcome of `require_label`: an error naming `field` when `label` is blank.
pub open spec fn label_check(label: Seq<char>, field: Seq<char>) -> Result<(), SdkErrorView> {
    if is_blank(label) {
        Err(empty_field(field))
    } else {
        Ok(())
    }
}

/// A contract ID, or the word `unconfigured` when there is none.
pub open spec fn or_unconfigured(contract_id: Option<Seq<char>>) -> Seq<char> {
    match contract_id {
        Some(c) => c,
        None => "unconfigured"@,
    }
}

/// The transaction hash that the SDK assigns: operation, contract, subject
/// and ledger joined by colons.
pub open spec fn hash_text(
    operation: Seq<char>,
    contract_id: Option<Seq<char>>,
    subject: Seq<char>,
    ledger: u32,
) -> Seq<char> {
    operation + ":"@ + or_unconfigured(contract_id) + ":"@ + subject + ":"@ + decimal(ledger as nat)
}

/// The submission record of `operation` against `contract_id` at `ledger`,
/// made at `submitted_at`, by a client whose passphrase is `own_passphrase`.
pub open spec fn submission_record(
    own_passphrase: Option<Seq<char>>,
    operation: Seq<char>,
    contract_id: Option<Seq<char>>,
    ledger: u32,
    signer: Option<Seq<char>>,
    network_passphrase: Option<Seq<char>>,
    submitted_at: u64,
) -> TransactionSubmissionView {
    TransactionSubmissionView {
        tx_hash: hash_text(operation, contract_id, or_unconfigured(contract_id), ledger),
        status: SubmissionStatus::Submitted,
        ledger: Some(ledger),
        submitted_at,
        contract_id,
        network_passphrase: match own_passphrase {
            Some(p) => Some(p),
            None => network_passphrase,
        },
        signer,
    }
}

/// `SystemTime::now()` measured from `UNIX_EPOCH`, in whole seconds (0 when
/// the clock reads earlier than the epoch). Nothing is promised of the value.
#[verifier::external_body]
pub(crate) fn now_unix() -> u64 {
    std::time::SystemTime::now().duration_since(std::time::UNIX_EPOCH).unwrap_or_default().as_secs()
}

/// The transaction hash of a submission.
pub fn submission_hash(operation: &str, contract_id: Option<&str>, subject: &str, ledger: u32) -> (h: String)
    ensures
        h@ == hash_text(operation@, contract_id.deep_view(), subject@, ledger),
{
    let mut h = operation.to_owned();
    h.append(":");
    match contract_id {
        Some(c) => h.append(c),
        None => h.append("unconfigured"),
    }
    h.append(":");
    h.append(subject);
    h.append(":");
    push_decimal(&mut h, ledger as u64);
    h
}

/// A copy of an optional string.
pub fn clone_opt(s: &Option<String>) -> (r: Option<String>)
    ensures
        r.deep_view() == s.deep_view(),
{
    match s {
        Some(v) => Some(v.clone()),
        None => None,
    }
}

impl XlmNsClient {
    /// A client for `rpc_url` with the given passphrase and contract IDs; the
    /// registrar, resolver and NFT contracts are left unset.
    pub fn new(
        rpc_url: String,
        passphrase: Option<String>,
        registry_contract_id: Option<String>,
        subdomain_contract_id: Option<String>,
        bridge_contract_id: Option<String>,
        auction_contract_id: Option<String>,
    ) -> (c: Self)
        ensures
            c@ == (ClientView {
                network_passphrase: passphrase.deep_view(),
                registry_contract_id: registry_contract_id.deep_view(),
                subdomain_contract_id: subdomain_contract_id.deep_view(),
                bridge_contract_id: bridge_contract_id.deep_view(),
                auction_contract_id: auction_contract_id.deep_view(),
                ..bare_client(rpc_url@)
            }),
    {
        XlmNsClient {
            rpc_url,
            network_passphrase: passphrase,
            registry_contract_id,
            registrar_contract_id: None,
            resolver_contract_id: None,
            auction_contract_id,
            bridge_contract_id,
            subdomain_contract_id,
            nft_contract_id: None,
            config: ClientConfig::default(),
        }
    }

    /// A builder for a client of `rpc_url`, with nothing else set.
    pub fn builder(rpc_url: String) -> (b: XlmNsClientBuilder)
        ensures
            b@ == bare_client(rpc_url@),
    {
        XlmNsClientBuilder::new(rpc_url)
    }

    /// The client with its registrar contract set.
    pub fn with_registrar(self, registrar_contract_id: String) -> (c: Self)
        ensures
            c@ == (ClientView { registrar_contract_id: Some(registrar_contract_id@), ..self@ }),
    {
        let mut c = self;
        c.registrar_contract_id = Some(registrar_contract_id);
        c
    }

    /// The client with its resolver contract set.
    pub fn with_resolver(self, resolver_contract_id: String) -> (c: Self)
        ensures
            c@ == (ClientView { resolver_contract_id: Some(resolver_contract_id@), ..self@ }),
    {
        let mut c = self;
        c.resolver_contract_id = Some(resolver_contract_id);
        c
    }

    /// The client with its auction contract set.
    pub fn with_auction(self, auction_contract_id: String) -> (c: Self)
        ensures
            c@ == (ClientView { auction_contract_id: Some(auction_contract_id@), ..self@ }),
    {
        let mut c = self;
        c.auction_contract_id = Some(auction_contract_id);
        c
    }

    /// The client with its NFT contract set.
    pub fn with_nft(self, nft_contract_id: String) -> (c: Self)
        ensures
            c@ == (ClientView { nft_contract_id: Some(nft_contract_id@), ..self@ }),
    {
        let mut c = self;
        c.nft_contract_id = Some(nft_contract_id);
        c
    }

    /// The client with the given options.
    pub fn with_config(self, config: ClientConfig) -> (c: Self)
        ensures
            c@ == (ClientView { config, ..self@ }),
    {
        let mut c = self;
        c.config = config;
        c
    }

    /// Refuses a blank `label`, naming `field` in the error.
    pub fn require_label(label: &str, field: &str) -> (r: Result<(), SdkError>)
        ensures
            result_unit_view(r) == label_check(label@, field@),
    {
        if is_blank_str(label) {
            Err(empty_field_error(field))
        } else {
            Ok(())
        }
    }

    /// The submission record of `operation`, stamped `submitted_at`.
    pub fn make_submission_at(
        &self,
        operation: &str,
        contract_id: Option<String>,
        ledger: u32,
        signer: Option<String>,
        network_passphrase: Option<String>,
        submitted_at: u64,
    ) -> (s: TransactionSubmission)
        ensures
            s@ == submission_record(self@.network_passphrase, operation@,
                contract_id.deep_view(), ledger, signer.deep_view(),
                network_passphrase.deep_view(), submitted_at),
    {
        let subject: &str = match &contract_id {
            Some(c) => c.as_str(),
            None => "unconfigured",
        };
        let contract_ref: Option<&str> = match &contract_id {
            Some(c) => Some(c.as_str()),
            None => None,
        };
        let tx_hash = submission_hash(operation, contract_ref, subject, ledger);
        let passphrase = match &self.network_passphrase {
            Some(p) => Some(p.clone()),
            None => network_passphrase,
        };
        TransactionSubmission {
            tx_hash,
            status: SubmissionStatus::Submitted,
            ledger: Some(ledger),
            submitted_at,
            contract_id,
            network_passphrase: passphrase,
            signer,
        }
    }

    /// The submission record of `operation`, stamped with the current time.
    pub fn make_submission(
        &self,
        operation: &str,
        contract_id: Option<String>,
        ledger: u32,
        signer: Option<String>,
        network_passphrase: Option<String>,
    ) -> (s: TransactionSubmission)
        ensures
            s@ == submission_record(self@.network_passphrase, operation@,
                contract_id.deep_view(), ledger, signer.deep_view(),
                network_passphrase.deep_view(), s.submitted_at),
    {
        let now = now_unix();
        self.make_submission_at(operation, contract_id, ledger, signer, network_passphrase, now)
    }
}

/// A unit result with its error taken by its view.
pub open spec fn result_unit_view(r: Result<(), SdkError>) -> Result<(), SdkErrorView> {
    match r {
        Ok(_) => Ok(()),
        Err(e) => Err(e@),
    }
}

impl XlmNsClientBuilder {
    fn new(rpc_url: String) -> (b: Self)
        ensures
            b@ == bare_client(rpc_url@),
    {
        XlmNsClientBuilder {
            rpc_url,
            network_passphrase: None,
            registry_contract_id: None,
            registrar_contract_id: None,
            resolver_contract_id: None,
            auction_contract_id: None,
            bridge_contract_id: None,
            subdomain_contract_id: None,
            nft_contract_id: None,
            config: ClientConfig::default(),
        }
    }

    /// Sets the network passphrase.
    pub fn network_passphrase(self, passphrase: String) -> (b: Self)
        ensures
            b@ == (ClientView { network_passphrase: Some(passphrase@), ..self@ }),
    {
        let mut b = self;
        b.network_passphrase = Some(passphrase);
        b
    }

    /// Sets the registry contract.
    pub fn registry(self, contract_id: String) -> (b: Self)
        ensures
            b@ == (ClientView { registry_contract_id: Some(contract_id@), ..self@ }),
    {
        let mut b = self;
        b.registry_contract_id = Some(contract_id);
        b
    }

    /// Sets the registrar contract.
    pub fn registrar(self, contract_id: String) -> (b: Self)
        ensures
            b@ == (ClientView { registrar_contract_id: Some(contract_id@), ..self@ }),
    {
        let mut b = self;
        b.registrar_contract_id = Some(contract_id);
        b
    }

    /// Sets the resolver contract.
    pub fn resolver(self, contract_id: String) -> (b: Self)
        ensures
            b@ == (ClientView { resolver_contract_id: Some(contract_id@), ..self@ }),
    {
        let mut b = self;
        b.resolver_contract_id = Some(contract_id);
        b
    }

    /// Sets the auction contract.
    pub fn auction(self, contract_id: String) -> (b: Self)
        ensures
            b@ == (ClientView { auction_contract_id: Some(contract_id@), ..self@ }),
    {
        let mut b = self;
        b.auction_contract_id = Some(contract_id);
        b
    }

    /// Sets the bridge contract.
    pub fn bridge(self, contract_id: String) -> (b: Self)
        ensures
            b@ == (ClientView { bridge_contract_id: Some(contract_id@), ..self@ }),
    {
        let mut b = self;
        b.bridge_contract_id = Some(contract_id);
        b
    }

    /// Sets the subdomain contract.
    pub fn subdomain(self, contract_id: String) -> (b: Self)
        ensures
            b@ == (ClientView { subdomain_contract_id: Some(contract_id@), ..self@ }),
    {
        let mut b = self;
        b.subdomain_contract_id = Some(contract_id);
        b
    }

    /// Sets the NFT contract.
    pub fn nft(self, contract_id: String) -> (b: Self)
        ensures
            b@ == (ClientView { nft_contract_id: Some(contract_id@), ..self@ }),
    {
        let mut b = self;
        b.nft_contract_id = Some(contract_id);
        b
    }

    /// Sets the client options.
    pub fn config(self, config: ClientConfig) -> (b: Self)
        ensures
            b@ == (ClientView { config, ..self@ }),
    {
        let mut b = self;
        b.config = config;
        b
    }

    /// The client with everything set so far.
    pub fn build(self) -> (c: XlmNsClient)
        ensures
            c@ == self@,
    {
        XlmNsClient {
            rpc_url: self.rpc_url,
            network_passphrase: self.network_passphrase,
            registry_contract_id: self.registry_contract_id,
            registrar_contract_id: self.registrar_contract_id,
            resolver_contract_id: self.resolver_contract_id,
            auction_contract_id: self.auction_contract_id,
            bridge_contract_id: self.bridge_contract_id,
            subdomain_contract_id: self.subdomain_contract_id,
            nft_contract_id: self.nft_contract_id,
            config: self.config,
        }
    }
}

} // verus!
