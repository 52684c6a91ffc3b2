use vstd::prelude::*;

use crate::error::ContractError;
use crate::state::{NativeCoin, Cw20Coin, GenericBalance, Nft};
use cosmwasm_std::{CosmosMsg, Empty, StdError};

verus! {

#[verifier::external_type_specification]
#[verifier::external_body]
#[verifier::reject_recursive_types(T)]
pub struct ExCosmosMsg<T>(CosmosMsg<T>);

#[verifier::external_type_specification]
#[verifier::external_body]
pub struct ExEmpty(Empty);

#[verifier::external_type_specification]
#[verifier::external_body]
pub struct ExCosmosCoin(cosmwasm_std::Coin);

#[verifier::external_type_specification]
#[verifier::external_body]
pub struct ExStdError(StdError);

/// The chain-level coin that `cosmwasm_std::Coin::new` builds from a
/// denomination and an amount.
pub uninterp spec fn coin_of(denom: Seq<char>, amount: u128) -> cosmwasm_std::Coin;

/// The bank-transfer instruction that batches `coins` to the address `to`.
pub uninterp spec fn bank_send_of(to: Seq<char>, coins: Seq<cosmwasm_std::Coin>) -> CosmosMsg<
    Empty,
>;

/// The contract-invocation instruction telling the fungible-token contract
/// `contract` to move `amount` units to `recipient`.
pub uninterp spec fn cw20_transfer_of(
    contract: Seq<char>,
    recipient: Seq<char>,
    amount: u128,
) -> CosmosMsg<Empty>;

/// The contract-invocation instruction telling the non-fungible-token
/// contract `contract` to transfer `token_id` to `recipient`.
pub uninterp spec fn nft_transfer_of(
    contract: Seq<char>,
    recipient: Seq<char>,
    token_id: Seq<char>,
) -> CosmosMsg<Empty>;

/// Relies on `cosmwasm_std::Coin::new`: a coin value holding exactly the
/// given amount under the given denomination.
#[verifier::external_body]
fn new_cosmos_coin(denom: &String, amount: u128) -> (c: cosmwasm_std::Coin)
    ensures
        c == coin_of(denom@, amount),
{
    cosmwasm_std::Coin::new(amount, denom.clone())
}

/// Relies on `cosmwasm_std::BankMsg::Send` and `CosmosMsg::from`: a platform
/// bank-transfer instruction carrying the whole coin batch to `to`.
#[verifier::external_body]
fn bank_send_msg(to: &String, coins: Vec<cosmwasm_std::Coin>) -> (m: CosmosMsg<Empty>)
    ensures
        m == bank_send_of(to@, coins@),
{
    CosmosMsg::from(cosmwasm_std::BankMsg::Send { to_address: to.clone(), amount: coins })
}

/// Relies on `cw20::Cw20ExecuteMsg::Transfer`, `cosmwasm_std::to_json_binary`
/// (deterministic JSON encoding) and `cosmwasm_std::WasmMsg::Execute`: the
/// invocation instruction telling the token contract to move `amount` units
/// to `recipient`. The encoder writes the two string-shaped fields into a
/// growable buffer and so cannot fail on this payload; the fallible result
/// shape is the encoder's own.
#[verifier::external_body]
fn cw20_transfer_msg(contract: &String, recipient: &String, amount: u128) -> (r: Result<
    CosmosMsg<Empty>,
    StdError,
>)
    ensures
        r is Ok,
        r matches Ok(m) ==> m == cw20_transfer_of(contract@, recipient@, amount),
{
    let msg = cw20::Cw20ExecuteMsg::Transfer {
        recipient: recipient.clone(),
        amount: cosmwasm_std::Uint128::new(amount),
    };
    match cosmwasm_std::to_json_binary(&msg) {
        Ok(bin) => Ok(CosmosMsg::from(cosmwasm_std::WasmMsg::Execute {
            contract_addr: contract.clone(),
            msg: bin,
            funds: Vec::new(),
        })),
        Err(e) => Err(e),
    }
}

/// Relies on `cw721::Cw721ExecuteMsg::TransferNft`,
/// `cosmwasm_std::to_json_binary` (deterministic JSON encoding) and
/// `cosmwasm_std::WasmMsg::Execute`: the invocation instruction telling the
/// collection contract to transfer `token_id` to `recipient`. The encoder
/// writes the two string fields into a growable buffer and so cannot fail on
/// this payload; the fallible result shape is the encoder's own.
#[verifier::external_body]
fn nft_transfer_msg(contract: &String, recipient: &String, token_id: &String) -> (r: Result<
    CosmosMsg<Empty>,
    StdError,
>)
    ensures
        r is Ok,
        r matches Ok(m) ==> m == nft_transfer_of(contract@, recipient@, token_id@),
{
    let msg = cw721::Cw721ExecuteMsg::TransferNft {
        recipient: recipient.clone(),
        token_id: token_id.clone(),
    };
    match cosmwasm_std::to_json_binary(&msg) {
        Ok(bin) => Ok(CosmosMsg::from(cosmwasm_std::WasmMsg::Execute {
            contract_addr: contract.clone(),
            msg: bin,
            funds: Vec::new(),
        })),
        Err(e) => Err(e),
    }
}

/// Relies on `StdError`'s `Display` implementation for the text of an
/// encoding failure.
#[verifier::external_body]
fn std_error_text(e: &StdError) -> (s: String) {
    e.to_string()
}

/// The chain coins standing for a balance's native entries, in order.
pub open spec fn native_coins_of(b: GenericBalance) -> Seq<cosmwasm_std::Coin> {
    b.native@.map_values(|c: NativeCoin| coin_of(c.denom@, c.amount))
}

/// The leading native block of the instruction list: one batched
/// bank-transfer when any native entry exists, nothing otherwise.
pub open spec fn native_part(to: Seq<char>, b: GenericBalance) -> Seq<CosmosMsg<Empty>> {
    if b.native@.len() == 0 {
        Seq::empty()
    } else {
        seq![bank_send_of(to, native_coins_of(b))]
    }
}

/// The instruction list owed for a balance: the native block, then one
/// fungible-token transfer per holding in entry order, then one
/// non-fungible transfer per token in entry order.
pub open spec fn expected_msgs(to: Seq<char>, b: GenericBalance) -> Seq<CosmosMsg<Empty>> {
    native_part(to, b) + b.cw20@.map_values(|c: Cw20Coin| cw20_transfer_of(c.address@, to, c.amount))
        + b.nfts@.map_values(|n: Nft| nft_transfer_of(n.contract_address@, to, n.token_id@))
}

/// The number of leading entries the native block occupies: one when any
/// native entry exists, none otherwise.
pub open spec fn native_block_len(b: GenericBalance) -> int {
    if b.native@.len() == 0 {
        0int
    } else {
        1int
    }
}

/// Law: the instruction list has one entry for the native block when any
/// native entry exists, plus one per fungible holding, plus one per
/// non-fungible token.
pub proof fn lemma_instruction_count(to: Seq<char>, b: GenericBalance)
    ensures
        expected_msgs(to, b).len() == native_block_len(b) + b.cw20@.len() + b.nfts@.len(),
{
}

/// Law: instruction order is the native block first, then the fungible
/// transfers in holding order, then the non-fungible transfers in token
/// order, each addressed to its own entry's contract.
pub proof fn lemma_instruction_order(to: Seq<char>, b: GenericBalance)
    ensures
        b.native@.len() > 0 ==> expected_msgs(to, b)[0] == bank_send_of(to, native_coins_of(b)),
        forall|i: int|
            0 <= i < b.cw20@.len() ==> expected_msgs(to, b)[native_block_len(b) + i]
                == cw20_transfer_of(b.cw20@[i].address@, to, b.cw20@[i].amount),
        forall|i: int|
            0 <= i < b.nfts@.len() ==> expected_msgs(to, b)[native_block_len(b) + b.cw20@.len()
                + i] == nft_transfer_of(b.nfts@[i].contract_address@, to, b.nfts@[i].token_id@),
{
}

/// Builds the outbound transfer instructions moving an entire balance to
/// `to`: the batched native transfer first, then fungible-token transfers,
/// then non-fungible transfers, all in entry order. The encoder cannot fail
/// on these fixed payload shapes, so the call always succeeds; the error arm
/// stays only to surface a serialization failure unchanged should the
/// encoder's own result shape ever produce one.
///
/// The fungible and non-fungible instructions use the plain transfer
/// variant, which does not invoke a receive hook; a recipient that is
/// itself a contract must be compensated for by the caller. This open
/// question is inherited from the surrounding design and deliberately not
/// resolved here.
pub fn send_tokens_cosmos(to: &String, balance: &GenericBalance) -> (r: Result<
    Vec<CosmosMsg<Empty>>,
    ContractError,
>)
    ensures
        r is Ok,
        r matches Ok(msgs) ==> msgs@ == expected_msgs(to@, *balance),
        r matches Ok(msgs) ==> msgs@.len() == native_block_len(*balance) + balance.cw20@.len()
            + balance.nfts@.len(),
{
    let ghost b = *balance;
    let ghost dest = to@;
    let mut msgs: Vec<CosmosMsg<Empty>> = Vec::new();
    if balance.native.len() > 0 {
        let mut coins: Vec<cosmwasm_std::Coin> = Vec::new();
        let mut i: usize = 0;
        while i < balance.native.len()
            invariant
                i <= balance.native.len(),
                b == *balance,
                coins@ == b.native@.take(i as int).map_values(
                    |c: NativeCoin| coin_of(c.denom@, c.amount),
                ),
            decreases balance.native.len() - i,
        {
            coins.push(new_cosmos_coin(&balance.native[i].denom, balance.native[i].amount));
            proof {
                assert(b.native@.take(i + 1 as int) =~= b.native@.take(i as int).push(
                    b.native@[i as int],
                ));
                assert(coins@ =~= b.native@.take(i + 1 as int).map_values(
                    |c: NativeCoin| coin_of(c.denom@, c.amount),
                ));
            }
            i += 1;
        }
        proof {
            assert(b.native@.take(b.native@.len() as int) =~= b.native@);
            assert(coins@ =~= native_coins_of(b));
        }
        msgs.push(bank_send_msg(to, coins));
    }
    proof {
        assert(msgs@ =~= native_part(dest, b));
    }
    let mut i: usize = 0;
    while i < balance.cw20.len()
        invariant
            i <= balance.cw20.len(),
            b == *balance,
            dest == to@,
            msgs@ == native_part(dest, b) + b.cw20@.take(i as int).map_values(
                |c: Cw20Coin| cw20_transfer_of(c.address@, dest, c.amount),
            ),
        decreases balance.cw20.len() - i,
    {
        match cw20_transfer_msg(&balance.cw20[i].address, to, balance.cw20[i].amount) {
            Ok(m) => {
                msgs.push(m);
                proof {
                    assert(b.cw20@.take(i + 1 as int) =~= b.cw20@.take(i as int).push(
                        b.cw20@[i as int],
                    ));
                    assert(msgs@ =~= native_part(dest, b) + b.cw20@.take(i + 1 as int).map_values(
                        |c: Cw20Coin| cw20_transfer_of(c.address@, dest, c.amount),
                    ));
                }
            },
            Err(e) => {
                return Err(ContractError::EncodingOrCalendar { msg: std_error_text(&e) });
            },
        }
        i += 1;
    }
    proof {
        assert(b.cw20@.take(b.cw20@.len() as int) =~= b.cw20@);
    }
    let mut i: usize = 0;
    while i < balance.nfts.len()
        invariant
            i <= balance.nfts.len(),
            b == *balance,
            dest == to@,
            msgs@ == native_part(dest, b) + b.cw20@.map_values(
                |c: Cw20Coin| cw20_transfer_of(c.address@, dest, c.amount),
            ) + b.nfts@.take(i as int).map_values(
                |n: Nft| nft_transfer_of(n.contract_address@, dest, n.token_id@),
            ),
        decreases balance.nfts.len() - i,
    {
        match nft_transfer_msg(
            &balance.nfts[i].contract_address,
            to,
            &balance.nfts[i].token_id,
        ) {
            Ok(m) => {
                msgs.push(m);
                proof {
                    assert(b.nfts@.take(i + 1 as int) =~= b.nfts@.take(i as int).push(
                        b.nfts@[i as int],
                    ));
                    assert(msgs@ =~= native_part(dest, b) + b.cw20@.map_values(
                        |c: Cw20Coin| cw20_transfer_of(c.address@, dest, c.amount),
                    ) + b.nfts@.take(i + 1 as int).map_values(
                        |n: Nft| nft_transfer_of(n.contract_address@, dest, n.token_id@),
                    ));
                }
            },
            Err(e) => {
                return Err(ContractError::EncodingOrCalendar { msg: std_error_text(&e) });
            },
        }
        i += 1;
    }
    proof {
        assert(b.nfts@.take(b.nfts@.len() as int) =~= b.nfts@);
        assert(msgs@ =~= expected_msgs(dest, b));
        lemma_instruction_count(dest, b);
    }
    Ok(msgs)
}

} // verus!
