use zap_dispatcher::account::AccountId;

#[test]
fn parse_accepts_valid_ids() {
    for id in [
        "ab",
        "wrap.testnet",
        "exchange.ref-dev.testnet",
        "a-b_c.d0",
        "0123456789",
        "sub.sub.sub.near",
    ] {
        let parsed = AccountId::parse(id);
        assert!(parsed.is_some(), "{id} should parse");
        assert_eq!(parsed.unwrap().as_str(), id);
    }
}

#[test]
fn parse_rejects_invalid_ids() {
    for id in [
        "",
        "a",
        "A.near",
        "a..b",
        "-ab",
        "ab-",
        "a b",
        "a_.b",
        "über.near",
    ] {
        assert!(AccountId::parse(id).is_none(), "{id} should not parse");
    }
}

#[test]
fn parse_respects_length_bounds() {
    let longest_valid = "a".repeat(64);
    assert!(AccountId::parse(&longest_valid).is_some());

    let too_long = "a".repeat(65);
    assert!(AccountId::parse(&too_long).is_none());
}

#[test]
fn clone_keeps_the_identifier() {
    let id = AccountId::parse("wrap.testnet").unwrap();
    let copy = id.clone();
    assert_eq!(copy.as_str(), id.as_str());
}
