# xlm_ns_sdk

Client-side logic of the xlm-ns name service SDK, verified with Verus.

`src/` is the library. Every operation of the SDK is a synchronous, verified
function whose contract states its result over views of the data:

- `client` — the client, its builder, label validation and submission records;
- `registration` — fee quotes, registration and renewal;
- `lookup` — forward lookups (`resolve`, registry metadata, registrations);
- `operations` — text records, transfers, NFTs, auctions, registrar counters;
- `subdomains`, `bridge`, `queries` — the remaining operations;
- `text`, `records`, `pricing`, `checks`, `errors`, `types`, `constants` — the
  pieces they are built from;
- `step` — how an operation that needs the network asks for it;
- `laws` — properties that relate several functions.

An operation that needs the ledger context (network passphrase and latest
ledger) is called first without it; it either refuses the request or answers
`Step::FetchLedger`. Called again with the context, it finishes. Lookups that
query the network further answer `Step::FetchNetwork` and take the outcomes
of those queries in order.

`app/` runs that protocol against a Soroban RPC endpoint with
`stellar-rpc-client`, and offers the asynchronous API.
