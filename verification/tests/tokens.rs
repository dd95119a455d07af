use solagent::tokens::{
    token_address, token_list, token_mint, BONK, B_SOL, JITO_SOL, M_SOL, SOL, USDC, USDS, USDT,
};
use solana_sdk::pubkey::Pubkey;

#[test]
fn mint_constants() {
    assert_eq!(USDC, "EPjFWdd5AufqSSqeM2qN1xzybapC8G4wEGGkZwyTDt1v");
    assert_eq!(USDT, "Es9vMFrzaCERmJfrF4H2FYD4KCoNkY11McCe8BenwNYB");
    assert_eq!(USDS, "USDSwr9ApdHk5bvJKMjzff41FfuX8bSxdKcR81vTwcA");
    assert_eq!(SOL, "So11111111111111111111111111111111111111112");
    assert_eq!(JITO_SOL, "J1toso1uCk3RLmjorhTtrVwY9HJ7X8V9yYac6Y7kGCPn");
    assert_eq!(B_SOL, "bSo13r4TkiE4KumL71LsHTPpL2euBYLFx6h9HP3piy1");
    assert_eq!(M_SOL, "mSoLzYCxHdYgdzU16g5QSh3i5K3z3KZK7ytfqcJm7So");
    assert_eq!(BONK, "DezXAZ8z7PnrnRJjz3wXBoRgixCa6xjnB7YaB1pPB263");
}

#[test]
fn token_mint_of_every_listed_symbol() {
    assert_eq!(token_mint("USDC"), Some("EPjFWdd5AufqSSqeM2qN1xzybapC8G4wEGGkZwyTDt1v"));
    assert_eq!(token_mint("USDT"), Some("Es9vMFrzaCERmJfrF4H2FYD4KCoNkY11McCe8BenwNYB"));
    assert_eq!(token_mint("USDS"), Some("USDSwr9ApdHk5bvJKMjzff41FfuX8bSxdKcR81vTwcA"));
    assert_eq!(token_mint("SOL"), Some("So11111111111111111111111111111111111111112"));
    assert_eq!(token_mint("jitoSOL"), Some("J1toso1uCk3RLmjorhTtrVwY9HJ7X8V9yYac6Y7kGCPn"));
    assert_eq!(token_mint("bSOL"), Some("bSo13r4TkiE4KumL71LsHTPpL2euBYLFx6h9HP3piy1"));
    assert_eq!(token_mint("mSOL"), Some("mSoLzYCxHdYgdzU16g5QSh3i5K3z3KZK7ytfqcJm7So"));
    assert_eq!(token_mint("BONK"), Some("DezXAZ8z7PnrnRJjz3wXBoRgixCa6xjnB7YaB1pPB263"));
}

#[test]
fn token_mint_of_unlisted_symbols() {
    assert_eq!(token_mint(""), None);
    assert_eq!(token_mint("ETH"), None);
    assert_eq!(token_mint("USD"), None);
    assert_eq!(token_mint("USDCC"), None);
    assert_eq!(token_mint(" SOL"), None);
}

#[test]
fn token_symbols_are_case_sensitive() {
    assert_eq!(token_mint("sol"), None);
    assert_eq!(token_mint("usdc"), None);
    assert_eq!(token_mint("JITOSOL"), None);
    assert_eq!(token_mint("Bonk"), None);
    assert_eq!(token_mint("BSOL"), None);
}

#[test]
fn token_address_of_wrapped_sol_in_bytes() {
    assert_eq!(
        token_address("SOL"),
        Some([
            6, 155, 136, 87, 254, 171, 129, 132, 251, 104, 127, 99, 70, 24, 192, 53, 218, 196, 57,
            220, 26, 235, 59, 85, 152, 160, 240, 0, 0, 0, 0, 1
        ])
    );
}

#[test]
fn token_address_of_usdc_in_bytes() {
    assert_eq!(
        token_address("USDC"),
        Some([
            198, 250, 122, 243, 190, 219, 173, 58, 61, 101, 243, 106, 171, 201, 116, 49, 177, 187,
            228, 194, 210, 246, 224, 228, 124, 166, 2, 3, 69, 47, 93, 97
        ])
    );
}

#[test]
fn token_address_of_bonk_in_bytes() {
    assert_eq!(
        token_address("BONK"),
        Some([
            188, 7, 197, 110, 96, 173, 61, 63, 23, 115, 130, 234, 198, 84, 143, 186, 31, 211, 44,
            253, 144, 202, 2, 179, 231, 207, 161, 133, 253, 206, 115, 152
        ])
    );
}

#[test]
fn token_address_is_the_key_that_the_mint_text_names() {
    for symbol in ["USDC", "USDT", "USDS", "SOL", "jitoSOL", "bSOL", "mSOL", "BONK"] {
        let text = token_mint(symbol).expect("the symbol is listed");
        let bytes = token_address(symbol).expect("the listed text decodes");
        assert_eq!(Pubkey::new_from_array(bytes), Pubkey::from_str_const(text));
        assert_eq!(Pubkey::new_from_array(bytes).to_string(), text);
    }
}

#[test]
fn token_address_of_unlisted_symbols() {
    assert_eq!(token_address("ETH"), None);
    assert_eq!(token_address("sol"), None);
    assert_eq!(token_address(""), None);
}

#[test]
fn token_addresses_differ_from_one_another() {
    let symbols = ["USDC", "USDT", "USDS", "SOL", "jitoSOL", "bSOL", "mSOL", "BONK"];
    for (i, a) in symbols.iter().enumerate() {
        for b in symbols.iter().skip(i + 1) {
            assert_ne!(token_address(a), token_address(b));
        }
    }
}

#[test]
fn token_list_holds_the_eight_tokens() {
    assert_eq!(
        token_list(),
        vec![
            ("USDC", "EPjFWdd5AufqSSqeM2qN1xzybapC8G4wEGGkZwyTDt1v"),
            ("USDT", "Es9vMFrzaCERmJfrF4H2FYD4KCoNkY11McCe8BenwNYB"),
            ("USDS", "USDSwr9ApdHk5bvJKMjzff41FfuX8bSxdKcR81vTwcA"),
            ("SOL", "So11111111111111111111111111111111111111112"),
            ("jitoSOL", "J1toso1uCk3RLmjorhTtrVwY9HJ7X8V9yYac6Y7kGCPn"),
            ("bSOL", "bSo13r4TkiE4KumL71LsHTPpL2euBYLFx6h9HP3piy1"),
            ("mSOL", "mSoLzYCxHdYgdzU16g5QSh3i5K3z3KZK7ytfqcJm7So"),
            ("BONK", "DezXAZ8z7PnrnRJjz3wXBoRgixCa6xjnB7YaB1pPB263"),
        ]
    );
}

#[test]
fn token_list_agrees_with_the_lookup() {
    let list = token_list();
    assert_eq!(list.len(), 8);
    for (symbol, mint) in list {
        assert_eq!(token_mint(symbol), Some(mint));
    }
}
