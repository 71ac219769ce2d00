//! Subdomain management through the subdomain contract.

use vstd::prelude::*;
use crate::checks::{check_both, contract_check, require_contract, require_labels, then_check};
use crate::client::{XlmNsClient, label_check, result_unit_view};
use crate::errors::{SdkError, SdkErrorView};
use crate::step::{Step, after_ledger};
use crate::types::{
    AddControllerRequest, CreateSubdomainRequest, LedgerContext, RegisterParentRequest, Subdomain,
    SubdomainView, TransferSubdomainRequest,
};

verus! {

/// Succeeds with `v` when the client has a subdomain contract.
pub open spec fn with_subdomain_contract<V>(id: Option<Seq<char>>, v: V) -> Result<V, SdkErrorView> {
    match contract_check(id, "subdomain"@) {
        Err(e) => Err(e),
        Ok(_) => Ok(v),
    }
}

/// The checks of `create_subdomain`.
pub open spec fn create_subdomain_check(r: CreateSubdomainRequest) -> Result<(), SdkErrorView> {
    then_check(then_check(label_check(r.label@, "label"@), label_check(r.parent@, "parent"@)),
        label_check(r.owner@, "owner"@))
}

/// The subdomains that the mock contract lists under any parent.
pub open spec fn listed_subdomains() -> Seq<SubdomainView> {
    seq![
        SubdomainView { label: "blog"@, owner: "GDRA...OWNER"@ },
        SubdomainView { label: "shop"@, owner: "GDRA...OWNER"@ },
    ]
}

impl XlmNsClient {
    /// Passes `pre`, asks for the ledger context, then needs a subdomain contract.
    fn subdomain_unit(&self, pre: Result<(), SdkError>, ctx: Option<LedgerContext>) -> (s: Step<()>)
        ensures
            s@ == after_ledger(result_unit_view(pre), ctx,
                with_subdomain_contract(self@.subdomain_contract_id, ())),
    {
        if let Err(e) = pre {
            return Step::Done(Err(e));
        }
        if ctx.is_none() {
            return Step::FetchLedger;
        }
        Step::Done(require_contract(&self.subdomain_contract_id, "subdomain"))
    }

    /// Enables subdomains under a parent name.
    pub fn register_parent(&self, request: RegisterParentRequest, ctx: Option<LedgerContext>) -> (s: Step<()>)
        ensures
            s@ == after_ledger(then_check(label_check(request.parent@, "parent"@),
                label_check(request.owner@, "owner"@)), ctx,
                with_subdomain_contract(self@.subdomain_contract_id, ())),
    {
        let pre = require_labels(request.parent.as_str(), "parent", request.owner.as_str(), "owner");
        self.subdomain_unit(pre, ctx)
    }

    /// Lets a controller manage the subdomains of a parent name.
    pub fn add_controller(&self, request: AddControllerRequest, ctx: Option<LedgerContext>) -> (s: Step<()>)
        ensures
            s@ == after_ledger(then_check(label_check(request.parent@, "parent"@),
                label_check(request.controller@, "controller"@)), ctx,
                with_subdomain_contract(self@.subdomain_contract_id, ())),
    {
        let pre = require_labels(request.parent.as_str(), "parent", request.controller.as_str(), "controller");
        self.subdomain_unit(pre, ctx)
    }

    /// Hands a subdomain to a new owner.
    pub fn transfer_subdomain(&self, request: TransferSubdomainRequest, ctx: Option<LedgerContext>) -> (s: Step<()>)
        ensures
            s@ == after_ledger(then_check(label_check(request.fqdn@, "fqdn"@),
                label_check(request.new_owner@, "new_owner"@)), ctx,
                with_subdomain_contract(self@.subdomain_contract_id, ())),
    {
        let pre = require_labels(request.fqdn.as_str(), "fqdn", request.new_owner.as_str(), "new_owner");
        self.subdomain_unit(pre, ctx)
    }

    /// Creates `label.parent` and answers with its full name.
    pub fn create_subdomain(&self, request: CreateSubdomainRequest, ctx: Option<LedgerContext>) -> (s: Step<String>)
        ensures
            s@ == after_ledger(create_subdomain_check(request), ctx,
                with_subdomain_contract(self@.subdomain_contract_id,
                    request.label@ + "."@ + request.parent@)),
    {
        let pre = check_both(
            require_labels(request.label.as_str(), "label", request.parent.as_str(), "parent"),
            XlmNsClient::require_label(request.owner.as_str(), "owner"),
        );
        if let Err(e) = pre {
            return Step::Done(Err(e));
        }
        if ctx.is_none() {
            return Step::FetchLedger;
        }
        if let Err(e) = require_contract(&self.subdomain_contract_id, "subdomain") {
            return Step::Done(Err(e));
        }
        let mut fqdn = request.label.as_str().to_owned();
        fqdn.append(".");
        fqdn.append(request.parent.as_str());
        Step::Done(Ok(fqdn))
    }

    /// The subdomains under a parent name.
    pub fn get_subdomains(&self, parent: &str) -> (r: Result<Vec<Subdomain>, SdkError>)
        ensures
            match r {
                Ok(v) => label_check(parent@, "parent"@) is Ok
                    && v@.map_values(|s: Subdomain| s@) == listed_subdomains(),
                Err(e) => label_check(parent@, "parent"@) == Err::<(), SdkErrorView>(e@),
            },
    {
        if let Err(e) = XlmNsClient::require_label(parent, "parent") {
            return Err(e);
        }
        let mut v: Vec<Subdomain> = Vec::new();
        v.push(Subdomain { label: "blog".to_owned(), owner: "GDRA...OWNER".to_owned() });
        v.push(Subdomain { label: "shop".to_owned(), owner: "GDRA...OWNER".to_owned() });
        assert(v@.map_values(|s: Subdomain| s@) =~= listed_subdomains());
        Ok(v)
    }
}

} // verus!
