//! Client-side logic of the xlm-ns name service SDK: request validation,
//! fee quoting, submission records and the mock ledger lookups, each with
//! a verified contract.

pub mod text;
pub mod errors;
pub mod records;
pub mod constants;
pub mod types;
pub mod pricing;
pub mod step;
pub mod client;
pub mod checks;
pub mod lookup;
pub mod registration;
pub mod operations;
pub mod subdomains;
pub mod bridge;
pub mod queries;
pub mod laws;
