use medici_orders::lyra::{
    filter_collections_for_lyra_mints, replace_text, text_contains, Data, LyraJson, Token,
    TokenContracts,
};

fn token(id: &str, uri: &str) -> Token {
    Token { other_fields: format!("{{\"id\":\"{}\"}}", id), token_uri: uri.to_string() }
}

fn contract(id: &str, tokens: Vec<Token>) -> TokenContracts {
    TokenContracts { id: id.to_string(), supports_eip721_metadata: true, tokens }
}

#[test]
fn contains_and_replace() {
    assert!(text_contains("abcabc", "cab"));
    assert!(text_contains("abc", ""));
    assert!(!text_contains("ab", "abc"));
    assert!(!text_contains("", "a"));
    assert_eq!(replace_text("aaaa", "aa", "b"), "bb");
    assert_eq!(replace_text("aaa", "aa", "b"), "ba");
    assert_eq!(replace_text("x\u{e9}y\u{e9}", "\u{e9}", "e"), "xeye");
    assert_eq!(replace_text("nothing here", "zz", "y"), "nothing here");
    for (s, f, t) in [("abababa", "aba", "X"), ("hello", "l", "LL"), ("", "a", "b")] {
        assert_eq!(replace_text(s, f, t), s.replace(f, t));
    }
}

#[test]
fn lyra_selection_keeps_pinata_mints() {
    let input = LyraJson {
        data: Data {
            token_contracts: vec![
                contract("a", vec![token("1", "https://gateway.pinata.cloud/ipfs/Qm1"), token("2", "x")]),
                contract("b", vec![token("3", "ipfs://Qm2")]),
                contract("c", vec![token("4", "https://gateway.pinata.cloud/ipfs/Qm3?https://gateway.pinata.cloud/")]),
            ],
        },
    };
    let out = filter_collections_for_lyra_mints(input);
    let cs = out.data.token_contracts;
    assert_eq!(cs.len(), 2);
    assert_eq!(cs[0].id, "a");
    assert_eq!(cs[0].tokens.len(), 1);
    assert_eq!(cs[0].tokens[0].other_fields, "{\"id\":\"1\"}");
    assert_eq!(cs[0].tokens[0].token_uri, "https://medici-test.mypinata.cloud/ipfs/Qm1");
    assert_eq!(cs[1].id, "c");
    assert_eq!(
        cs[1].tokens[0].token_uri,
        "https://medici-test.mypinata.cloud/ipfs/Qm3?https://medici-test.mypinata.cloud/"
    );
    assert!(cs[1].supports_eip721_metadata);
}

#[test]
fn lyra_selection_of_nothing() {
    let out = filter_collections_for_lyra_mints(LyraJson { data: Data { token_contracts: vec![] } });
    assert!(out.data.token_contracts.is_empty());
    let out = filter_collections_for_lyra_mints(LyraJson {
        data: Data { token_contracts: vec![contract("z", vec![token("9", "https://gateway.pinata.cloud/x")])] },
    });
    assert!(out.data.token_contracts.is_empty());
}

#[test]
fn lyra_selection_twice_keeps_nothing() {
    let input = LyraJson {
        data: Data {
            token_contracts: vec![
                contract("a", vec![token("1", "https://gateway.pinata.cloud/ipfs/Qm1")]),
                contract("b", vec![token("2", "https://gateway.pinata.cloud/https://gateway.pinata.cloud/ipfs/x")]),
            ],
        },
    };
    let once = filter_collections_for_lyra_mints(input);
    assert_eq!(once.data.token_contracts.len(), 2);
    for c in &once.data.token_contracts {
        assert_eq!(c.tokens.len(), 1);
        assert!(!text_contains(&c.tokens[0].token_uri, "https://gateway.pinata.cloud/"));
    }
    let twice = filter_collections_for_lyra_mints(once);
    assert!(twice.data.token_contracts.is_empty());
}
