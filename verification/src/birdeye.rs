//! Request and response records of the Birdeye API that hold no prices or
//! amounts.

use crate::call::{decimal, decimal_text, RequestParams};
use vstd::prelude::*;
use vstd::string::StringExecFns;

verus! {

/// Base URL of the Birdeye public API.
pub const BIRDEYE_URL: &'static str = "https://public-api.birdeye.so";

/// Links and descriptive text that accompany a token overview.
#[derive(Debug)]
pub struct Extensions {
    pub coingecko_id: String,
    pub serum_v3_usdc: String,
    pub serum_v3_usdt: String,
    pub website: String,
    pub telegram: Option<String>,
    pub twitter: String,
    pub description: String,
    pub discord: String,
    pub medium: String,
}

/// Parameters of the token-holder query.
#[derive(Debug, Clone)]
pub struct TokenHolderQueryParams {
    /// Address of a token.
    pub address: String,
    /// Offset into the holder list; the provider documents 0 to 10000 and
    /// takes 0 where it is absent.
    pub offset: Option<u32>,
    /// Number of holders to return; the provider documents 0 to 100 and
    /// takes 100 where it is absent.
    pub limit: Option<u32>,
}

impl Default for TokenHolderQueryParams {
    /// An empty address, no offset and no limit.
    fn default() -> (params: Self)
        ensures
            params.address@ == Seq::<char>::empty(),
            params.offset is None,
            params.limit is None,
    {
        TokenHolderQueryParams { address: String::new(), offset: None, limit: None }
    }
}

/// The pair that an optional integer parameter contributes: none where it is
/// absent, else its name with its decimal numeral.
pub open spec fn optional_pair(name: Seq<char>, value: Option<u32>) -> Seq<(Seq<char>, Seq<char>)> {
    match value {
        None => seq![],
        Some(n) => seq![(name, decimal(n as nat))],
    }
}

impl RequestParams for TokenHolderQueryParams {
    /// `address`, then `offset` and `limit` where they are present, each
    /// integer as its decimal numeral.
    open spec fn query_pairs(&self) -> Seq<(Seq<char>, Seq<char>)> {
        seq![("address"@, self.address@)] + optional_pair("offset"@, self.offset) + optional_pair(
            "limit"@,
            self.limit,
        )
    }

    fn query(&self) -> (pairs: Vec<(String, String)>) {
        let mut pairs: Vec<(String, String)> = Vec::new();
        pairs.push((String::from_str("address"), self.address.clone()));
        if let Some(offset) = self.offset {
            pairs.push((String::from_str("offset"), decimal_text(offset)));
        }
        if let Some(limit) = self.limit {
            pairs.push((String::from_str("limit"), decimal_text(limit)));
        }
        assert(pairs.deep_view() =~= self.query_pairs());
        pairs
    }
}

} // verus!
