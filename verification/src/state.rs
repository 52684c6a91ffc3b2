use vstd::prelude::*;

verus! {

/// One native-denomination holding: a denomination string and an amount.
#[derive(Clone, Debug)]
pub struct NativeCoin {
    pub denom: String,
    pub amount: u128,
}

/// One fungible-token holding: the token contract's address and an amount.
#[derive(Clone, Debug)]
pub struct Cw20Coin {
    pub address: String,
    pub amount: u128,
}

/// One non-fungible token: the collection contract's address and the token id.
#[derive(Clone, Debug)]
pub struct Nft {
    pub contract_address: String,
    pub token_id: String,
}

/// The aggregate balance a vault holds on behalf of a depositor: three
/// independent ordered sequences, one per asset class. Insertion order is
/// preserved end-to-end; outbound instructions are generated in entry order.
#[derive(Clone, Debug)]
pub struct GenericBalance {
    pub native: Vec<NativeCoin>,
    pub cw20: Vec<Cw20Coin>,
    pub nfts: Vec<Nft>,
}

/// A single-asset-class balance: either a batch of native coins or one
/// fungible-token holding.
#[derive(Clone, Debug)]
pub enum Balance {
    Native(Vec<NativeCoin>),
    Cw20(Cw20Coin),
}

/// The vault's allow-list configuration: three ordered lists of
/// (label, identifier) pairs. The label is metadata only; matching is
/// performed solely on the identifier half.
#[derive(Clone, Debug)]
pub struct Config {
    pub whitelist_native: Vec<(String, String)>,
    pub whitelist_cw20: Vec<(String, String)>,
    pub whitelist_nft: Vec<(String, String)>,
}

} // verus!
