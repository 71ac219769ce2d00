//! Cross-chain routes and the messages that carry a resolution to another chain.

use vstd::prelude::*;
use crate::checks::{contract_check, require_contract, require_labels, then_check};
use crate::client::{XlmNsClient, label_check};
use crate::errors::{SdkError, SdkErrorView};
use crate::step::{Step, StepView, after_ledger};
use crate::text::str_eq;
use crate::types::{
    BridgeRoute, BridgeRouteView, BuildMessageRequest, LedgerContext, RegisterChainRequest,
};

verus! {

/// The route to `chain`, for the chains the bridge serves.
pub open spec fn route_for(chain: Seq<char>) -> Option<BridgeRouteView> {
    if chain == "base"@ {
        Some(BridgeRouteView {
            destination_chain: "base"@,
            destination_resolver: "0xbaseResolver"@,
            gateway: "0xbaseGateway"@,
        })
    } else if chain == "ethereum"@ {
        Some(BridgeRouteView {
            destination_chain: "ethereum"@,
            destination_resolver: "0xethResolver"@,
            gateway: "0xethGateway"@,
        })
    } else if chain == "arbitrum"@ {
        Some(BridgeRouteView {
            destination_chain: "arbitrum"@,
            destination_resolver: "0xarbResolver"@,
            gateway: "0xarbGateway"@,
        })
    } else {
        None
    }
}

/// The error for a chain the bridge does not serve.
pub open spec fn unsupported_chain(chain: Seq<char>) -> SdkErrorView {
    SdkErrorView::InvalidRequest("unsupported chain: "@ + chain)
}

/// Whether the bridge serves `chain`.
pub open spec fn is_supported_chain(chain: Seq<char>) -> bool {
    chain == "base"@ || chain == "ethereum"@ || chain == "arbitrum"@
}

/// The outcome of registering `chain` once the ledger context is at hand.
pub open spec fn chain_registration(bridge_id: Option<Seq<char>>, chain: Seq<char>) -> Result<(), SdkErrorView> {
    match contract_check(bridge_id, "bridge"@) {
        Err(e) => Err(e),
        Ok(_) => if is_supported_chain(chain) {
            Ok(())
        } else {
            Err(unsupported_chain(chain))
        },
    }
}

/// The resolution message for `name` along `route`, as JSON.
pub open spec fn message_text(name: Seq<char>, route: BridgeRouteView) -> Seq<char> {
    "{\"type\":\"xlm-ns-resolution\",\"name\":\""@ + name + "\",\"destination_chain\":\""@
        + route.destination_chain + "\",\"resolver\":\""@ + route.destination_resolver + "\"}"@
}

/// The outcome of building the message once the route lookup answered `route`.
pub open spec fn message_for(name: Seq<char>, chain: Seq<char>, route: Option<BridgeRouteView>) -> Result<Seq<char>, SdkErrorView> {
    match route {
        None => Err(unsupported_chain(chain)),
        Some(r) => Ok(message_text(name, r)),
    }
}

/// The checks of `build_message`: the name and chain, then the route lookup's own check.
pub open spec fn build_message_check(r: BuildMessageRequest) -> Result<(), SdkErrorView> {
    then_check(then_check(label_check(r.name@, "name"@), label_check(r.chain@, "chain"@)),
        label_check(r.chain@, "chain"@))
}

/// The routes that the mock bridge lists for any name.
pub open spec fn listed_routes() -> Seq<BridgeRouteView> {
    seq![
        BridgeRouteView {
            destination_chain: "ethereum"@,
            destination_resolver: "0xethResolver"@,
            gateway: "0xethGateway"@,
        },
        BridgeRouteView {
            destination_chain: "base"@,
            destination_resolver: "0xbaseResolver"@,
            gateway: "0xbaseGateway"@,
        },
    ]
}

/// A route step taken by its view.
pub open spec fn route_step_view(s: Step<Option<BridgeRoute>>) -> StepView<Option<BridgeRouteView>> {
    match s {
        Step::FetchLedger => StepView::FetchLedger,
        Step::FetchNetwork => StepView::FetchNetwork,
        Step::Done(Ok(Some(r))) => StepView::Done(Ok(Some(r@))),
        Step::Done(Ok(None)) => StepView::Done(Ok(None)),
        Step::Done(Err(e)) => StepView::Done(Err(e@)),
    }
}

/// The route to a chain, if the bridge serves it.
pub fn lookup_route(chain: &str) -> (r: Option<BridgeRoute>)
    ensures
        match r {
            Some(route) => route_for(chain@) == Some(route@),
            None => route_for(chain@) is None,
        },
{
    if str_eq(chain, "base") {
        Some(BridgeRoute {
            destination_chain: "base".to_owned(),
            destination_resolver: "0xbaseResolver".to_owned(),
            gateway: "0xbaseGateway".to_owned(),
        })
    } else if str_eq(chain, "ethereum") {
        Some(BridgeRoute {
            destination_chain: "ethereum".to_owned(),
            destination_resolver: "0xethResolver".to_owned(),
            gateway: "0xethGateway".to_owned(),
        })
    } else if str_eq(chain, "arbitrum") {
        Some(BridgeRoute {
            destination_chain: "arbitrum".to_owned(),
            destination_resolver: "0xarbResolver".to_owned(),
            gateway: "0xarbGateway".to_owned(),
        })
    } else {
        None
    }
}

impl XlmNsClient {
    /// Enables bridging to a chain.
    pub fn register_chain(&self, request: RegisterChainRequest, ctx: Option<LedgerContext>) -> (s: Step<()>)
        ensures
            s@ == after_ledger(label_check(request.chain@, "chain"@), ctx,
                chain_registration(self@.bridge_contract_id, request.chain@)),
    {
        if let Err(e) = XlmNsClient::require_label(request.chain.as_str(), "chain") {
            return Step::Done(Err(e));
        }
        if ctx.is_none() {
            return Step::FetchLedger;
        }
        if let Err(e) = require_contract(&self.bridge_contract_id, "bridge") {
            return Step::Done(Err(e));
        }
        let chain = request.chain.as_str();
        if str_eq(chain, "base") || str_eq(chain, "ethereum") || str_eq(chain, "arbitrum") {
            Step::Done(Ok(()))
        } else {
            let mut m = "unsupported chain: ".to_owned();
            m.append(chain);
            Step::Done(Err(SdkError::InvalidRequest(m)))
        }
    }

    /// The route to a chain, if the bridge serves it.
    pub fn get_route(&self, chain: &str, ctx: Option<LedgerContext>) -> (s: Step<Option<BridgeRoute>>)
        ensures
            route_step_view(s) == after_ledger(label_check(chain@, "chain"@), ctx,
                Ok::<_, SdkErrorView>(route_for(chain@))),
    {
        if let Err(e) = XlmNsClient::require_label(chain, "chain") {
            return Step::Done(Err(e));
        }
        if ctx.is_none() {
            return Step::FetchLedger;
        }
        Step::Done(Ok(lookup_route(chain)))
    }

    /// The routes along which a name resolves on other chains.
    pub fn get_bridge_routes(&self, name: &str) -> (r: Result<Vec<BridgeRoute>, SdkError>)
        ensures
            match r {
                Ok(v) => label_check(name@, "name"@) is Ok
                    && v@.map_values(|b: BridgeRoute| b@) == listed_routes(),
                Err(e) => label_check(name@, "name"@) == Err::<(), SdkErrorView>(e@),
            },
    {
        if let Err(e) = XlmNsClient::require_label(name, "name") {
            return Err(e);
        }
        let mut v: Vec<BridgeRoute> = Vec::new();
        v.push(BridgeRoute {
            destination_chain: "ethereum".to_owned(),
            destination_resolver: "0xethResolver".to_owned(),
            gateway: "0xethGateway".to_owned(),
        });
        v.push(BridgeRoute {
            destination_chain: "base".to_owned(),
            destination_resolver: "0xbaseResolver".to_owned(),
            gateway: "0xbaseGateway".to_owned(),
        });
        assert(v@.map_values(|b: BridgeRoute| b@) =~= listed_routes());
        Ok(v)
    }

    /// The cross-chain message that carries a name's resolution to a chain.
    pub fn build_message(&self, request: BuildMessageRequest, ctx: Option<LedgerContext>) -> (s: Step<String>)
        ensures
            s@ == after_ledger(build_message_check(request), ctx,
                message_for(request.name@, request.chain@, route_for(request.chain@))),
    {
        if let Err(e) = require_labels(request.name.as_str(), "name", request.chain.as_str(), "chain") {
            return Step::Done(Err(e));
        }
        let route = match self.get_route(request.chain.as_str(), ctx) {
            Step::FetchLedger => return Step::FetchLedger,
            Step::FetchNetwork => return Step::FetchNetwork,
            Step::Done(Err(e)) => return Step::Done(Err(e)),
            Step::Done(Ok(None)) => {
                let mut m = "unsupported chain: ".to_owned();
                m.append(request.chain.as_str());
                return Step::Done(Err(SdkError::InvalidRequest(m)));
            },
            Step::Done(Ok(Some(route))) => route,
        };
        let mut m = "{\"type\":\"xlm-ns-resolution\",\"name\":\"".to_owned();
        m.append(request.name.as_str());
        m.append("\",\"destination_chain\":\"");
        m.append(route.destination_chain.as_str());
        m.append("\",\"resolver\":\"");
        m.append(route.destination_resolver.as_str());
        m.append("\"}");
        Step::Done(Ok(m))
    }
}

} // verus!
