//! The table of well-known tokens: symbol, mint address in base58, and the
//! address as the 32 bytes that the text decodes to.

use solana_sdk::pubkey::Pubkey;
use std::str::FromStr;
use vstd::prelude::*;

verus! {

/// Mint address of USDC.
pub const USDC: &'static str = "EPjFWdd5AufqSSqeM2qN1xzybapC8G4wEGGkZwyTDt1v";

/// Mint address of USDT.
pub const USDT: &'static str = "Es9vMFrzaCERmJfrF4H2FYD4KCoNkY11McCe8BenwNYB";

/// Mint address of USDS.
pub const USDS: &'static str = "USDSwr9ApdHk5bvJKMjzff41FfuX8bSxdKcR81vTwcA";

/// Mint address of wrapped SOL.
pub const SOL: &'static str = "So11111111111111111111111111111111111111112";

/// Mint address of jitoSOL.
pub const JITO_SOL: &'static str = "J1toso1uCk3RLmjorhTtrVwY9HJ7X8V9yYac6Y7kGCPn";

/// Mint address of bSOL.
pub const B_SOL: &'static str = "bSo13r4TkiE4KumL71LsHTPpL2euBYLFx6h9HP3piy1";

/// Mint address of mSOL.
pub const M_SOL: &'static str = "mSoLzYCxHdYgdzU16g5QSh3i5K3z3KZK7ytfqcJm7So";

/// Mint address of BONK.
pub const BONK: &'static str = "DezXAZ8z7PnrnRJjz3wXBoRgixCa6xjnB7YaB1pPB263";

/// The table of well-known tokens: each symbol with its mint address in
/// base58. Symbols are case-sensitive.
pub open spec fn tokens() -> Map<Seq<char>, Seq<char>> {
    map![
        "USDC"@ => USDC@,
        "USDT"@ => USDT@,
        "USDS"@ => USDS@,
        "SOL"@ => SOL@,
        "jitoSOL"@ => JITO_SOL@,
        "bSOL"@ => B_SOL@,
        "mSOL"@ => M_SOL@,
        "BONK"@ => BONK@,
    ]
}

/// The mint address that the table lists for a symbol, if it lists one.
pub open spec fn mint_of(symbol: Seq<char>) -> Option<Seq<char>> {
    if tokens().contains_key(symbol) {
        Some(tokens()[symbol])
    } else {
        None
    }
}

/// What a base58 text decodes to as an account address: its 32 bytes, or
/// `None` where the text is no base58 numeral of exactly 32 bytes.
pub uninterp spec fn base58_address(text: Seq<char>) -> Option<Seq<u8>>;

/// The bytes of an optional address.
pub open spec fn address_bytes(address: Option<[u8; 32]>) -> Option<Seq<u8>> {
    match address {
        None => None,
        Some(bytes) => Some(bytes@),
    }
}

/// Calls `Pubkey::from_str` of `solana_sdk` and hands out the key's bytes.
/// Claimed and not proved: the result depends on the text alone, which
/// `base58_address` names; a text that does not decode gives `None`.
#[verifier::external_body]
fn decode_address(text: &str) -> (address: Option<[u8; 32]>)
    ensures
        address_bytes(address) == base58_address(text@),
{
    match Pubkey::from_str(text) {
        Ok(key) => Some(key.to_bytes()),
        Err(_) => None,
    }
}

/// Tells whether two texts are the same.
fn same_text(a: &str, b: &str) -> (same: bool)
    ensures
        same == (a@ == b@),
{
    a.to_owned() == b.to_owned()
}

/// The text of an optional text.
pub open spec fn text_of(text: Option<&'static str>) -> Option<Seq<char>> {
    match text {
        None => None,
        Some(t) => Some(t@),
    }
}

/// Looks up the base58 mint address of a token symbol.
pub fn token_mint(symbol: &str) -> (mint: Option<&'static str>)
    ensures
        text_of(mint) == mint_of(symbol@),
{
    if same_text(symbol, "BONK") {
        Some(BONK)
    } else if same_text(symbol, "mSOL") {
        Some(M_SOL)
    } else if same_text(symbol, "bSOL") {
        Some(B_SOL)
    } else if same_text(symbol, "jitoSOL") {
        Some(JITO_SOL)
    } else if same_text(symbol, "SOL") {
        Some(SOL)
    } else if same_text(symbol, "USDS") {
        Some(USDS)
    } else if same_text(symbol, "USDT") {
        Some(USDT)
    } else if same_text(symbol, "USDC") {
        Some(USDC)
    } else {
        None
    }
}

/// The table's symbols are eight different texts.
proof fn lemma_symbols_differ()
    ensures
        "USDC"@ != "USDT"@ && "USDC"@ != "USDS"@ && "USDC"@ != "SOL"@ && "USDC"@ != "jitoSOL"@
            && "USDC"@ != "bSOL"@ && "USDC"@ != "mSOL"@ && "USDC"@ != "BONK"@,
        "USDT"@ != "USDS"@ && "USDT"@ != "SOL"@ && "USDT"@ != "jitoSOL"@ && "USDT"@ != "bSOL"@
            && "USDT"@ != "mSOL"@ && "USDT"@ != "BONK"@,
        "USDS"@ != "SOL"@ && "USDS"@ != "jitoSOL"@ && "USDS"@ != "bSOL"@ && "USDS"@ != "mSOL"@
            && "USDS"@ != "BONK"@,
        "SOL"@ != "jitoSOL"@ && "SOL"@ != "bSOL"@ && "SOL"@ != "mSOL"@ && "SOL"@ != "BONK"@,
        "jitoSOL"@ != "bSOL"@ && "jitoSOL"@ != "mSOL"@ && "jitoSOL"@ != "BONK"@,
        "bSOL"@ != "mSOL"@ && "bSOL"@ != "BONK"@,
        "mSOL"@ != "BONK"@,
{
    reveal_strlit("USDC");
    reveal_strlit("USDT");
    reveal_strlit("USDS");
    reveal_strlit("SOL");
    reveal_strlit("jitoSOL");
    reveal_strlit("bSOL");
    reveal_strlit("mSOL");
    reveal_strlit("BONK");
    assert("USDC"@.len() == 4 && "USDC"@[0] == 'U' && "USDC"@[3] == 'C');
    assert("USDT"@.len() == 4 && "USDT"@[0] == 'U' && "USDT"@[3] == 'T');
    assert("USDS"@.len() == 4 && "USDS"@[0] == 'U' && "USDS"@[3] == 'S');
    assert("SOL"@.len() == 3);
    assert("jitoSOL"@.len() == 7);
    assert("bSOL"@.len() == 4 && "bSOL"@[0] == 'b');
    assert("mSOL"@.len() == 4 && "mSOL"@[0] == 'm');
    assert("BONK"@.len() == 4 && "BONK"@[0] == 'B');
}

/// Lists the table: every symbol once, paired with its mint address in
/// base58.
pub fn token_list() -> (list: Vec<(&'static str, &'static str)>)
    ensures
        list.len() == 8,
        forall|i: int|
            0 <= i < list.len() ==> mint_of(#[trigger] list[i].0@) == Some(list[i].1@),
        forall|symbol: Seq<char>|
            tokens().contains_key(symbol) ==> exists|i: int|
                0 <= i < list.len() && #[trigger] list[i].0@ == symbol,
        forall|i: int, j: int|
            0 <= i < j < list.len() ==> #[trigger] list[i].0@ != #[trigger] list[j].0@,
{
    let mut list: Vec<(&'static str, &'static str)> = Vec::new();
    list.push(("USDC", USDC));
    list.push(("USDT", USDT));
    list.push(("USDS", USDS));
    list.push(("SOL", SOL));
    list.push(("jitoSOL", JITO_SOL));
    list.push(("bSOL", B_SOL));
    list.push(("mSOL", M_SOL));
    list.push(("BONK", BONK));
    proof {
        lemma_symbols_differ();
        assert forall|symbol: Seq<char>| tokens().contains_key(symbol) implies exists|i: int|
            0 <= i < list.len() && #[trigger] list[i].0@ == symbol by {
            if symbol == "USDC"@ {
                assert(list[0].0@ == symbol);
            } else if symbol == "USDT"@ {
                assert(list[1].0@ == symbol);
            } else if symbol == "USDS"@ {
                assert(list[2].0@ == symbol);
            } else if symbol == "SOL"@ {
                assert(list[3].0@ == symbol);
            } else if symbol == "jitoSOL"@ {
                assert(list[4].0@ == symbol);
            } else if symbol == "bSOL"@ {
                assert(list[5].0@ == symbol);
            } else if symbol == "mSOL"@ {
                assert(list[6].0@ == symbol);
            } else {
                assert(list[7].0@ == symbol);
            }
        }
    }
    list
}

/// The address that the table holds for a token symbol: what the listed base58
/// text decodes to, and nothing for a symbol that is not listed.
pub open spec fn address_of(symbol: Seq<char>) -> Option<Seq<u8>> {
    match mint_of(symbol) {
        None => None,
        Some(text) => base58_address(text),
    }
}

/// Looks up the address of a token symbol, as bytes.
pub fn token_address(symbol: &str) -> (address: Option<[u8; 32]>)
    ensures
        address_bytes(address) == address_of(symbol@),
{
    match token_mint(symbol) {
        None => None,
        Some(text) => decode_address(text),
    }
}

} // verus!
