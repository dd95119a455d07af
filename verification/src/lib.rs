//! Building blocks for Solana agent tooling: deployment records, default
//! options, the table of well-known token mints, and the request and reply
//! handling of typed calls to the Birdeye market-data API.

pub mod birdeye;
pub mod call;
pub mod primitives;
pub mod tokens;
pub mod tools;
