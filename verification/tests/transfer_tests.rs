use cosmwasm_std::{from_json, BankMsg, CosmosMsg, Uint128, WasmMsg};
use cw20::Cw20ExecuteMsg;
use cw721::Cw721ExecuteMsg;
use juno_vaults::{send_tokens_cosmos, Cw20Coin, GenericBalance, NativeCoin, Nft};

fn native_coin(denom: &str, amount: u128) -> NativeCoin {
    NativeCoin { denom: denom.to_string(), amount }
}

#[test]
fn native_only_emits_one_batched_bank_send() {
    let balance = GenericBalance {
        native: vec![native_coin("ujuno", 100)],
        cw20: vec![],
        nfts: vec![],
    };
    let msgs = send_tokens_cosmos(&"juno1abcdef".to_string(), &balance).unwrap();
    assert_eq!(msgs.len(), 1);
    match &msgs[0] {
        CosmosMsg::Bank(BankMsg::Send { to_address, amount }) => {
            assert_eq!(to_address, "juno1abcdef");
            assert_eq!(amount.len(), 1);
            assert_eq!(amount[0].denom, "ujuno");
            assert_eq!(amount[0].amount, Uint128::new(100));
        }
        _ => panic!("expected a bank send"),
    }
}

#[test]
fn empty_balance_emits_nothing() {
    let balance = GenericBalance { native: vec![], cw20: vec![], nfts: vec![] };
    let msgs = send_tokens_cosmos(&"juno1abcdef".to_string(), &balance).unwrap();
    assert!(msgs.is_empty());
}

#[test]
fn instruction_count_and_order_for_full_balance() {
    let balance = GenericBalance {
        native: vec![native_coin("ujuno", 1), native_coin("uatom", 2)],
        cw20: vec![
            Cw20Coin { address: "juno1tokena".to_string(), amount: 11 },
            Cw20Coin { address: "juno1tokenb".to_string(), amount: 22 },
        ],
        nfts: vec![Nft {
            contract_address: "juno1collection".to_string(),
            token_id: "77".to_string(),
        }],
    };
    let msgs = send_tokens_cosmos(&"juno1recipient".to_string(), &balance).unwrap();
    assert_eq!(msgs.len(), 4);

    match &msgs[0] {
        CosmosMsg::Bank(BankMsg::Send { to_address, amount }) => {
            assert_eq!(to_address, "juno1recipient");
            assert_eq!(amount.len(), 2);
            assert_eq!(amount[0].denom, "ujuno");
            assert_eq!(amount[0].amount, Uint128::new(1));
            assert_eq!(amount[1].denom, "uatom");
            assert_eq!(amount[1].amount, Uint128::new(2));
        }
        _ => panic!("expected the native block first"),
    }

    let expected_cw20 = [("juno1tokena", 11u128), ("juno1tokenb", 22u128)];
    for (msg, (contract, amount)) in msgs[1..3].iter().zip(expected_cw20) {
        match msg {
            CosmosMsg::Wasm(WasmMsg::Execute { contract_addr, msg, funds }) => {
                assert_eq!(contract_addr, contract);
                assert!(funds.is_empty());
                match from_json(msg).unwrap() {
                    Cw20ExecuteMsg::Transfer { recipient, amount: a } => {
                        assert_eq!(recipient, "juno1recipient");
                        assert_eq!(a, Uint128::new(amount));
                    }
                    _ => panic!("expected a cw20 transfer payload"),
                }
            }
            _ => panic!("expected a contract invocation"),
        }
    }

    match &msgs[3] {
        CosmosMsg::Wasm(WasmMsg::Execute { contract_addr, msg, funds }) => {
            assert_eq!(contract_addr, "juno1collection");
            assert!(funds.is_empty());
            match from_json(msg).unwrap() {
                Cw721ExecuteMsg::TransferNft { recipient, token_id } => {
                    assert_eq!(recipient, "juno1recipient");
                    assert_eq!(token_id, "77");
                }
                _ => panic!("expected an nft transfer payload"),
            }
        }
        _ => panic!("expected a contract invocation"),
    }
}

#[test]
fn no_native_entries_means_no_bank_block() {
    let balance = GenericBalance {
        native: vec![],
        cw20: vec![Cw20Coin { address: "juno1token".to_string(), amount: 5 }],
        nfts: vec![],
    };
    let msgs = send_tokens_cosmos(&"juno1dest".to_string(), &balance).unwrap();
    assert_eq!(msgs.len(), 1);
    assert!(matches!(&msgs[0], CosmosMsg::Wasm(WasmMsg::Execute { .. })));
}
