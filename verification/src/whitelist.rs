use vstd::prelude::*;
use vstd::string::StringExecFns;

use crate::error::ContractError;
use crate::state::{Balance, NativeCoin, Config, Cw20Coin, GenericBalance, Nft};

verus! {

/// An identifier is whitelisted when it equals the identifier half of some
/// (label, identifier) pair of the list; labels never take part in matching,
/// and position does not matter.
pub open spec fn wl_contains(wl: Seq<(String, String)>, id: Seq<char>) -> bool {
    exists|i: int| 0 <= i < wl.len() && wl[i].1@ == id
}

/// The first identifier of `ids`, in order, that is absent from `wl`;
/// `None` when every identifier is present.
pub open spec fn first_violation(ids: Seq<Seq<char>>, wl: Seq<(String, String)>) -> Option<
    Seq<char>,
>
    decreases ids.len(),
{
    if ids.len() == 0 {
        None
    } else if !wl_contains(wl, ids[0]) {
        Some(ids[0])
    } else {
        first_violation(ids.drop_first(), wl)
    }
}

/// The denominations of a balance's native entries, in order.
pub open spec fn native_ids(b: GenericBalance) -> Seq<Seq<char>> {
    b.native@.map_values(|c: NativeCoin| c.denom@)
}

/// The contract addresses of a balance's fungible-token entries, in order.
pub open spec fn cw20_ids(b: GenericBalance) -> Seq<Seq<char>> {
    b.cw20@.map_values(|c: Cw20Coin| c.address@)
}

/// The contract addresses of a balance's non-fungible entries, in order.
pub open spec fn nft_ids(b: GenericBalance) -> Seq<Seq<char>> {
    b.nfts@.map_values(|n: Nft| n.contract_address@)
}

/// The identifier reported by the combined whitelist check: the first
/// offending native denomination, else the first offending fungible-token
/// address, else the first offending non-fungible address, else `None`.
pub open spec fn generic_violation(b: GenericBalance, c: Config) -> Option<Seq<char>> {
    match first_violation(native_ids(b), c.whitelist_native@) {
        Some(w) => Some(w),
        None => match first_violation(cw20_ids(b), c.whitelist_cw20@) {
            Some(w) => Some(w),
            None => first_violation(nft_ids(b), c.whitelist_nft@),
        },
    }
}

/// Linear scan deciding whitelist membership of one identifier.
fn wl_has(wl: &Vec<(String, String)>, id: &String) -> (r: bool)
    ensures
        r == wl_contains(wl@, id@),
{
    let mut i: usize = 0;
    while i < wl.len()
        invariant
            i <= wl.len(),
            forall|j: int| 0 <= j < i ==> wl@[j].1@ != id@,
        decreases wl.len() - i,
    {
        if wl[i].1 == *id {
            return true;
        }
        i += 1;
    }
    false
}

proof fn lemma_first_violation_skip(ids: Seq<Seq<char>>, wl: Seq<(String, String)>, k: int)
    requires
        0 <= k <= ids.len(),
        forall|j: int| 0 <= j < k ==> wl_contains(wl, ids[j]),
    ensures
        first_violation(ids, wl) == first_violation(ids.skip(k), wl),
    decreases k,
{
    if k == 0 {
        assert(ids.skip(0) =~= ids);
    } else {
        assert(wl_contains(wl, ids[0]));
        assert(ids.drop_first() =~= ids.skip(1));
        assert(forall|j: int|
            0 <= j < k - 1 ==> ids.skip(1)[j] == ids[j + 1] && wl_contains(wl, ids[j + 1]));
        lemma_first_violation_skip(ids.skip(1), wl, k - 1);
        assert(ids.skip(1).skip(k - 1) =~= ids.skip(k));
    }
}

proof fn lemma_first_violation_at(ids: Seq<Seq<char>>, wl: Seq<(String, String)>, i: int)
    requires
        0 <= i < ids.len(),
        !wl_contains(wl, ids[i]),
        forall|j: int| 0 <= j < i ==> wl_contains(wl, ids[j]),
    ensures
        first_violation(ids, wl) == Some(ids[i]),
{
    lemma_first_violation_skip(ids, wl, i);
    assert(ids.skip(i)[0] == ids[i]);
}

proof fn lemma_first_violation_none(ids: Seq<Seq<char>>, wl: Seq<(String, String)>)
    requires
        forall|j: int| 0 <= j < ids.len() ==> wl_contains(wl, ids[j]),
    ensures
        first_violation(ids, wl) is None,
{
    lemma_first_violation_skip(ids, wl, ids.len() as int);
    assert(ids.skip(ids.len() as int).len() == 0);
}

/// Law: a class check passes exactly when every identifier of the class is
/// whitelisted, and a failing check reports the first absent identifier.
pub proof fn lemma_class_violation(ids: Seq<Seq<char>>, wl: Seq<(String, String)>)
    ensures
        first_violation(ids, wl) is None <==> (forall|i: int|
            0 <= i < ids.len() ==> wl_contains(wl, ids[i])),
        first_violation(ids, wl) matches Some(w) ==> (exists|i: int|
            0 <= i < ids.len() && ids[i] == w && !wl_contains(wl, ids[i]) && (forall|j: int|
                0 <= j < i ==> wl_contains(wl, ids[j]))),
    decreases ids.len(),
{
    if ids.len() == 0 {
    } else if !wl_contains(wl, ids[0]) {
        assert(ids[0] == ids[0] && !wl_contains(wl, ids[0]) && (forall|j: int|
            0 <= j < 0 ==> wl_contains(wl, ids[j])));
    } else {
        lemma_class_violation(ids.drop_first(), wl);
        assert(forall|i: int| 0 <= i < ids.drop_first().len() ==> ids.drop_first()[i] == ids[i + 1]);
        assert((forall|i: int| 0 <= i < ids.len() ==> wl_contains(wl, ids[i])) <==> (forall|i: int|
            0 <= i < ids.drop_first().len() ==> wl_contains(wl, ids.drop_first()[i]))) by {
            if forall|i: int| 0 <= i < ids.len() ==> wl_contains(wl, ids[i]) {
                assert forall|i: int|
                    0 <= i < ids.drop_first().len() implies wl_contains(
                    wl,
                    ids.drop_first()[i],
                ) by {
                    assert(ids.drop_first()[i] == ids[i + 1]);
                    assert(wl_contains(wl, ids[i + 1]));
                }
            }
            if forall|i: int| 0 <= i < ids.drop_first().len() ==> wl_contains(
                wl,
                ids.drop_first()[i],
            ) {
                assert forall|i: int| 0 <= i < ids.len() implies wl_contains(wl, ids[i]) by {
                    if i == 0 {
                        assert(wl_contains(wl, ids[0]));
                    } else {
                        assert(ids.drop_first()[i - 1] == ids[i]);
                        assert(wl_contains(wl, ids.drop_first()[i - 1]));
                    }
                }
            }
        }
        match first_violation(ids.drop_first(), wl) {
            Some(w) => {
                let i = choose|i: int|
                    0 <= i < ids.drop_first().len() && ids.drop_first()[i] == w && !wl_contains(
                        wl,
                        ids.drop_first()[i],
                    ) && (forall|j: int| 0 <= j < i ==> wl_contains(wl, ids.drop_first()[j]));
                assert(ids[i + 1] == w && !wl_contains(wl, ids[i + 1]));
                assert forall|j: int| 0 <= j < i + 1 implies wl_contains(wl, ids[j]) by {
                    if j == 0 {
                        assert(wl_contains(wl, ids[0]));
                    } else {
                        assert(ids.drop_first()[j - 1] == ids[j]);
                        assert(wl_contains(wl, ids.drop_first()[j - 1]));
                    }
                }
                assert(0 <= i + 1 < ids.len() && ids[i + 1] == w && !wl_contains(wl, ids[i + 1])
                    && (forall|j: int| 0 <= j < i + 1 ==> wl_contains(wl, ids[j])));
            },
            None => {},
        }
    }
}

/// Law: an empty asset class never trips the corresponding whitelist check.
pub proof fn lemma_empty_class_no_op(b: GenericBalance, c: Config)
    ensures
        b.native@.len() == 0 ==> first_violation(native_ids(b), c.whitelist_native@) is None,
        b.cw20@.len() == 0 ==> first_violation(cw20_ids(b), c.whitelist_cw20@) is None,
        b.nfts@.len() == 0 ==> first_violation(nft_ids(b), c.whitelist_nft@) is None,
{
}

/// Law: when every native denomination of `b` is whitelisted, the native
/// class contributes no violation; when some denomination is absent, the
/// combined check fails and reports an absent native denomination.
pub proof fn lemma_native_whitelist_decides(b: GenericBalance, c: Config)
    ensures
        (forall|i: int|
            0 <= i < b.native@.len() ==> wl_contains(c.whitelist_native@, b.native@[i].denom@))
            ==> first_violation(native_ids(b), c.whitelist_native@) is None,
        (exists|i: int|
            0 <= i < b.native@.len() && !wl_contains(c.whitelist_native@, b.native@[i].denom@))
            ==> (generic_violation(b, c) matches Some(w) && exists|i: int|
            0 <= i < b.native@.len() && b.native@[i].denom@ == w && !wl_contains(
                c.whitelist_native@,
                w,
            )),
{
    lemma_class_violation(native_ids(b), c.whitelist_native@);
    assert(forall|i: int| 0 <= i < b.native@.len() ==> native_ids(b)[i] == b.native@[i].denom@);
    if exists|i: int|
        0 <= i < b.native@.len() && !wl_contains(c.whitelist_native@, b.native@[i].denom@) {
        let i0 = choose|i: int|
            0 <= i < b.native@.len() && !wl_contains(c.whitelist_native@, b.native@[i].denom@);
        assert(!wl_contains(c.whitelist_native@, native_ids(b)[i0]));
        match first_violation(native_ids(b), c.whitelist_native@) {
            Some(w) => {
                let i1 = choose|i: int|
                    0 <= i < native_ids(b).len() && native_ids(b)[i] == w && !wl_contains(
                        c.whitelist_native@,
                        native_ids(b)[i],
                    ) && (forall|j: int|
                        0 <= j < i ==> wl_contains(c.whitelist_native@, native_ids(b)[j]));
                assert(0 <= i1 < b.native@.len() && b.native@[i1].denom@ == w && !wl_contains(
                    c.whitelist_native@,
                    w,
                ));
            },
            None => {
                assert(false);
            },
        }
    }
}

/// Validates a single-asset-class balance against the whitelist. For a
/// native batch every denomination must be whitelisted; for a fungible-token
/// holding its contract address must be. The violation carries a fixed tag
/// naming the failing class.
pub fn is_balance_whitelisted(balance: &Balance, config: &Config) -> (r: Result<
    (),
    ContractError,
>)
    ensures
        match *balance {
            Balance::Native(coins) => {
                &&& ((forall|i: int|
                    0 <= i < coins@.len() ==> wl_contains(
                        config.whitelist_native@,
                        coins@[i].denom@,
                    )) ==> r is Ok)
                &&& (!(forall|i: int|
                    0 <= i < coins@.len() ==> wl_contains(
                        config.whitelist_native@,
                        coins@[i].denom@,
                    )) ==> (r matches Err(ContractError::NotWhitelist { which }) && which@
                    == "fail 1 Native"@))
            },
            Balance::Cw20(c) => {
                &&& (wl_contains(config.whitelist_cw20@, c.address@) ==> r is Ok)
                &&& (!wl_contains(config.whitelist_cw20@, c.address@) ==> (r matches Err(
                    ContractError::NotWhitelist { which },
                ) && which@ == "fail 2 Cw20"@))
            },
        },
{
    match balance {
        Balance::Native(coins) => {
            let mut i: usize = 0;
            while i < coins.len()
                invariant
                    i <= coins.len(),
                    *balance matches Balance::Native(cs) && cs@ == coins@,
                    forall|j: int|
                        0 <= j < i ==> wl_contains(config.whitelist_native@, coins@[j].denom@),
                decreases coins.len() - i,
            {
                if !wl_has(&config.whitelist_native, &coins[i].denom) {
                    proof {
                        assert(!(forall|n: int|
                            0 <= n < coins@.len() ==> wl_contains(
                                config.whitelist_native@,
                                coins@[n].denom@,
                            ))) by {
                            assert(!wl_contains(config.whitelist_native@, coins@[i as int].denom@));
                        }
                    }
                    return Err(ContractError::NotWhitelist {
                        which: String::from_str("fail 1 Native"),
                    });
                }
                i += 1;
            }
            Ok(())
        },
        Balance::Cw20(c) => {
            if !wl_has(&config.whitelist_cw20, &c.address) {
                return Err(ContractError::NotWhitelist { which: String::from_str("fail 2 Cw20") });
            }
            Ok(())
        },
    }
}

/// Validates all three asset classes of a `GenericBalance`, native entries
/// first, then fungible holdings, then non-fungible holdings, returning on
/// the first offending identifier encountered.
pub fn is_genericbalance_whitelisted(genericbalance: &GenericBalance, config: &Config) -> (r:
    Result<(), ContractError>)
    ensures
        match generic_violation(*genericbalance, *config) {
            None => r is Ok,
            Some(w) => r matches Err(ContractError::NotWhitelist { which }) && which@ == w,
        },
{
    let ghost b = *genericbalance;
    let ghost c = *config;
    let mut i: usize = 0;
    while i < genericbalance.native.len()
        invariant
            i <= genericbalance.native.len(),
            b == *genericbalance,
            c == *config,
            forall|j: int| 0 <= j < i ==> wl_contains(c.whitelist_native@, native_ids(b)[j]),
        decreases genericbalance.native.len() - i,
    {
        if !wl_has(&config.whitelist_native, &genericbalance.native[i].denom) {
            proof {
                lemma_first_violation_at(native_ids(b), c.whitelist_native@, i as int);
            }
            return Err(ContractError::NotWhitelist {
                which: genericbalance.native[i].denom.clone(),
            });
        }
        i += 1;
    }
    proof {
        lemma_first_violation_none(native_ids(b), c.whitelist_native@);
    }
    let mut i: usize = 0;
    while i < genericbalance.cw20.len()
        invariant
            i <= genericbalance.cw20.len(),
            b == *genericbalance,
            c == *config,
            first_violation(native_ids(b), c.whitelist_native@) is None,
            forall|j: int| 0 <= j < i ==> wl_contains(c.whitelist_cw20@, cw20_ids(b)[j]),
        decreases genericbalance.cw20.len() - i,
    {
        if !wl_has(&config.whitelist_cw20, &genericbalance.cw20[i].address) {
            proof {
                lemma_first_violation_at(cw20_ids(b), c.whitelist_cw20@, i as int);
            }
            return Err(ContractError::NotWhitelist {
                which: genericbalance.cw20[i].address.clone(),
            });
        }
        i += 1;
    }
    proof {
        lemma_first_violation_none(cw20_ids(b), c.whitelist_cw20@);
    }
    let mut i: usize = 0;
    while i < genericbalance.nfts.len()
        invariant
            i <= genericbalance.nfts.len(),
            b == *genericbalance,
            c == *config,
            first_violation(native_ids(b), c.whitelist_native@) is None,
            first_violation(cw20_ids(b), c.whitelist_cw20@) is None,
            forall|j: int| 0 <= j < i ==> wl_contains(c.whitelist_nft@, nft_ids(b)[j]),
        decreases genericbalance.nfts.len() - i,
    {
        if !wl_has(&config.whitelist_nft, &genericbalance.nfts[i].contract_address) {
            proof {
                lemma_first_violation_at(nft_ids(b), c.whitelist_nft@, i as int);
            }
            return Err(ContractError::NotWhitelist {
                which: genericbalance.nfts[i].contract_address.clone(),
            });
        }
        i += 1;
    }
    proof {
        lemma_first_violation_none(nft_ids(b), c.whitelist_nft@);
    }
    Ok(())
}

/// Validates one non-fungible-token contract address against the whitelist;
/// the violation carries the rejected address itself.
pub fn is_nft_whitelisted(nft_addr: &String, config: &Config) -> (r: Result<(), ContractError>)
    ensures
        r is Ok <==> wl_contains(config.whitelist_nft@, nft_addr@),
        !wl_contains(config.whitelist_nft@, nft_addr@) ==> (r matches Err(
            ContractError::NotWhitelist { which },
        ) && which@ == nft_addr@),
{
    if !wl_has(&config.whitelist_nft, nft_addr) {
        return Err(ContractError::NotWhitelist { which: nft_addr.clone() });
    }
    Ok(())
}

} // verus!
