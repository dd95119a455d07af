//! Plain records shared by the toolkit's operations.

use solana_sdk::pubkey::Pubkey;
use vstd::prelude::*;

verus! {

/// A Solana account address. Its bytes are not visible here: values are
/// carried through and compared, never taken apart.
#[verifier::external_type_specification]
#[verifier::external_body]
pub struct ExPubkey(solana_sdk::pubkey::Pubkey);

/// One creator of an NFT or collection, with the share of royalties owed to it.
#[derive(Clone, Copy, Debug, PartialEq, Eq)]
pub struct Creator {
    /// The creator's account.
    pub address: Pubkey,
    /// Whether the creator is marked as verified.
    pub verified: bool,
    /// Share of the royalties, in percent.
    pub share: u8,
}

/// The creator entry that stands for an `(address, share)` pair: the same
/// address and share, marked as verified.
pub open spec fn verified_creator(pair: (Pubkey, u8)) -> Creator {
    Creator { address: pair.0, verified: true, share: pair.1 }
}

/// The creator list that stands for a list of `(address, share)` pairs: one
/// verified entry per pair, in the same order.
pub open spec fn verified_creators(pairs: Seq<(Pubkey, u8)>) -> Seq<Creator> {
    Seq::new(pairs.len(), |i: int| verified_creator(pairs[i]))
}

/// Metadata for deploying an NFT or a collection.
pub struct NFTMetadata {
    /// The name of the NFT.
    pub name: String,
    /// The URI of the collection's metadata.
    pub uri: String,
    /// Royalty in basis points, if any.
    pub basis_points: Option<u16>,
    /// The creators associated with the NFT, if any.
    pub creators: Option<Vec<Creator>>,
}

impl NFTMetadata {
    /// Builds the metadata from a name, a URI, an optional royalty and an
    /// optional list of `(address, share)` pairs. Every pair becomes a
    /// creator that is marked as verified; order and length are kept, and an
    /// absent list stays absent.
    pub fn new(
        name: &str,
        uri: &str,
        basis_points: Option<u16>,
        creators: Option<Vec<(Pubkey, u8)>>,
    ) -> (metadata: Self)
        ensures
            metadata.name@ == name@,
            metadata.uri@ == uri@,
            metadata.basis_points == basis_points,
            creators is None ==> metadata.creators is None,
            creators matches Some(pairs) ==> metadata.creators matches Some(list) && list@
                == verified_creators(pairs@),
    {
        let creators = match creators {
            None => None,
            Some(pairs) => {
                let mut list: Vec<Creator> = Vec::new();
                let mut i: usize = 0;
                while i < pairs.len()
                    invariant
                        i <= pairs.len(),
                        list.len() == i,
                        forall|j: int| 0 <= j < i ==> list[j] == verified_creator(#[trigger] pairs[j]),
                    decreases pairs.len() - i,
                {
                    let (address, share) = pairs[i];
                    list.push(Creator { address, verified: true, share });
                    i += 1;
                }
                assert(list@ =~= verified_creators(pairs@));
                Some(list)
            },
        };
        NFTMetadata { name: name.to_owned(), uri: uri.to_owned(), basis_points, creators }
    }
}

/// What a deployment hands back: the mint address of the new token or
/// collection and the signature of the transaction that created it.
#[derive(Debug)]
pub struct DeployedData {
    /// Mint address.
    pub mint: String,
    /// Transaction signature.
    pub signature: String,
}

impl DeployedData {
    /// Packages a mint address and a transaction signature, both unchanged.
    pub fn new(mint: String, signature: String) -> (data: Self)
        ensures
            data.mint == mint,
            data.signature == signature,
    {
        DeployedData { mint, signature }
    }
}

/// Default slippage tolerance in basis points (300 = 3%).
pub const DEFAULT_SLIPPAGE_BPS: u32 = 300;

/// Default number of decimals for new tokens.
pub const DEFAULT_TOKEN_DECIMALS: u32 = 9;

/// Default referral fee in basis points.
pub const DEFAULT_REFERRAL_FEE: u32 = 200;

/// Numeric parameters that operations fall back on.
#[derive(Debug)]
pub struct Options {
    /// Slippage tolerance in basis points (300 = 3%).
    pub slippage_bps: u32,
    /// Number of decimals for new tokens.
    pub token_decimals: u32,
    /// Referral fee in basis points.
    pub referral_fee: u32,
}

impl Default for Options {
    /// The default configuration options.
    fn default() -> (options: Self)
        ensures
            options.slippage_bps == DEFAULT_SLIPPAGE_BPS,
            options.token_decimals == DEFAULT_TOKEN_DECIMALS,
            options.referral_fee == DEFAULT_REFERRAL_FEE,
    {
        Options {
            slippage_bps: DEFAULT_SLIPPAGE_BPS,
            token_decimals: DEFAULT_TOKEN_DECIMALS,
            referral_fee: DEFAULT_REFERRAL_FEE,
        }
    }
}

/// Pyth API URL.
pub const PYTH_API: &'static str = "https://hermes.pyth.network/v2";

} // verus!
