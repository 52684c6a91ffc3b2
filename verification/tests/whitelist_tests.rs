use juno_vaults::{
    is_balance_whitelisted, is_genericbalance_whitelisted, is_nft_whitelisted, Balance, Config,
    ContractError, Cw20Coin, GenericBalance, NativeCoin, Nft,
};

fn pairs(entries: &[(&str, &str)]) -> Vec<(String, String)> {
    entries.iter().map(|(label, id)| (label.to_string(), id.to_string())).collect()
}

fn config(
    native: &[(&str, &str)],
    cw20: &[(&str, &str)],
    nft: &[(&str, &str)],
) -> Config {
    Config {
        whitelist_native: pairs(native),
        whitelist_cw20: pairs(cw20),
        whitelist_nft: pairs(nft),
    }
}

fn native_coin(denom: &str, amount: u128) -> NativeCoin {
    NativeCoin { denom: denom.to_string(), amount }
}

fn cw20_coin(address: &str, amount: u128) -> Cw20Coin {
    Cw20Coin { address: address.to_string(), amount }
}

fn nft(contract: &str, token_id: &str) -> Nft {
    Nft { contract_address: contract.to_string(), token_id: token_id.to_string() }
}

fn expect_violation(r: Result<(), ContractError>, expected: &str) {
    match r {
        Err(ContractError::NotWhitelist { which }) => assert_eq!(which, expected),
        Err(_) => panic!("wrong error kind"),
        Ok(()) => panic!("expected a whitelist violation for {expected}"),
    }
}

#[test]
fn whitelisted_native_balance_passes() {
    let balance = GenericBalance {
        native: vec![native_coin("ujuno", 100)],
        cw20: vec![],
        nfts: vec![],
    };
    let cfg = config(&[("main", "ujuno")], &[], &[]);
    assert!(is_genericbalance_whitelisted(&balance, &cfg).is_ok());
}

#[test]
fn missing_denom_reports_exact_identifier() {
    let balance = GenericBalance {
        native: vec![native_coin("ujuno", 100)],
        cw20: vec![],
        nfts: vec![],
    };
    let cfg = config(&[("main", "uatom")], &[], &[]);
    expect_violation(is_genericbalance_whitelisted(&balance, &cfg), "ujuno");
}

#[test]
fn empty_balance_passes_even_with_empty_whitelist() {
    let balance = GenericBalance { native: vec![], cw20: vec![], nfts: vec![] };
    let cfg = config(&[], &[], &[]);
    assert!(is_genericbalance_whitelisted(&balance, &cfg).is_ok());
}

#[test]
fn first_offending_native_wins_over_later_classes() {
    let balance = GenericBalance {
        native: vec![native_coin("ujuno", 5), native_coin("uatom", 7)],
        cw20: vec![cw20_coin("juno1badtoken", 3)],
        nfts: vec![nft("juno1badnft", "42")],
    };
    let cfg = config(&[("main", "ujuno")], &[], &[]);
    expect_violation(is_genericbalance_whitelisted(&balance, &cfg), "uatom");
}

#[test]
fn cw20_offender_reported_when_native_clean() {
    let balance = GenericBalance {
        native: vec![native_coin("ujuno", 5)],
        cw20: vec![cw20_coin("juno1goodtoken", 3), cw20_coin("juno1badtoken", 4)],
        nfts: vec![nft("juno1badnft", "42")],
    };
    let cfg = config(&[("main", "ujuno")], &[("tok", "juno1goodtoken")], &[]);
    expect_violation(is_genericbalance_whitelisted(&balance, &cfg), "juno1badtoken");
}

#[test]
fn nft_offender_reported_last() {
    let balance = GenericBalance {
        native: vec![],
        cw20: vec![],
        nfts: vec![nft("juno1collection", "7"), nft("juno1rogue", "8")],
    };
    let cfg = config(&[], &[], &[("col", "juno1collection")]);
    expect_violation(is_genericbalance_whitelisted(&balance, &cfg), "juno1rogue");
}

#[test]
fn single_class_native_all_present_passes() {
    let balance = Balance::Native(vec![native_coin("ujuno", 1), native_coin("uatom", 2)]);
    let cfg = config(&[("a", "ujuno"), ("b", "uatom")], &[], &[]);
    assert!(is_balance_whitelisted(&balance, &cfg).is_ok());
}

#[test]
fn single_class_native_failure_carries_class_tag() {
    let balance = Balance::Native(vec![native_coin("ujuno", 1), native_coin("uosmo", 2)]);
    let cfg = config(&[("a", "ujuno")], &[], &[]);
    expect_violation(is_balance_whitelisted(&balance, &cfg), "fail 1 Native");
}

#[test]
fn single_class_empty_native_is_no_op() {
    let balance = Balance::Native(vec![]);
    let cfg = config(&[], &[], &[]);
    assert!(is_balance_whitelisted(&balance, &cfg).is_ok());
}

#[test]
fn single_class_cw20_passes_and_fails_with_tag() {
    let cfg = config(&[], &[("tok", "juno1token")], &[]);
    assert!(is_balance_whitelisted(&Balance::Cw20(cw20_coin("juno1token", 9)), &cfg).is_ok());
    expect_violation(
        is_balance_whitelisted(&Balance::Cw20(cw20_coin("juno1other", 9)), &cfg),
        "fail 2 Cw20",
    );
}

#[test]
fn nft_address_check_passes_and_reports_address() {
    let cfg = config(&[], &[], &[("col", "juno1collection")]);
    assert!(is_nft_whitelisted(&"juno1collection".to_string(), &cfg).is_ok());
    expect_violation(is_nft_whitelisted(&"juno1rogue".to_string(), &cfg), "juno1rogue");
}

#[test]
fn empty_class_is_never_checked_against_its_table() {
    let balance = GenericBalance {
        native: vec![],
        cw20: vec![cw20_coin("juno1token", 4)],
        nfts: vec![],
    };
    let cfg = config(&[], &[("tok", "juno1token")], &[]);
    assert!(is_genericbalance_whitelisted(&balance, &cfg).is_ok());
}

#[test]
fn labels_never_match_identifiers() {
    let cfg = config(&[("ujuno", "uatom")], &[], &[]);
    let balance = GenericBalance {
        native: vec![native_coin("ujuno", 1)],
        cw20: vec![],
        nfts: vec![],
    };
    expect_violation(is_genericbalance_whitelisted(&balance, &cfg), "ujuno");
}
