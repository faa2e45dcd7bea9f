//! The collateral invariant: for every existing kitty, exactly one
//! account — its current owner — holds a reserved collateral of the
//! stake constant, so each account's reserved balance is exactly the
//! stake times the number of kitties it owns. The laws here prove that
//! every transition of the store preserves it.

use vstd::prelude::*;

use crate::ledger::AccountData;
use crate::ledger::reserved_of;
use crate::ledger::spec_reserve;
use crate::ledger::spec_unreserve;
use crate::pallet::StoreView;
use crate::pallet::buy_result;
use crate::pallet::mint_result;
use crate::pallet::spec_buy;
use crate::pallet::spec_mint;
use crate::pallet::spec_next_id;
use crate::pallet::spec_sell;
use crate::pallet::spec_transfer;
use crate::pallet::store_wf;
use crate::pallet::transfer_result;

verus! {

/// The ids of the kitties `a` currently owns.
pub open spec fn owned_kitties(v: StoreView, a: u64) -> Set<u32> {
    v.owners.dom().filter(|id: u32| v.owners[id] == a)
}

/// Every account's reserved balance is exactly the stake for each kitty
/// it owns; in particular an account owning nothing has nothing reserved.
pub open spec fn collateral_ok(v: StoreView) -> bool {
    &&& v.owners.dom().finite()
    &&& forall|a: u64| #[trigger] reserved_of(v.ledger, a) == v.stake * owned_kitties(v, a).len()
}

/// The set of owned kitties is finite, as a filtered finite domain.
proof fn lemma_owned_finite(v: StoreView, a: u64)
    requires
        v.owners.dom().finite(),
    ensures
        owned_kitties(v, a).finite(),
{
    v.owners.dom().lemma_len_filter(|id: u32| v.owners[id] == a);
}

/// Law: a store with no owners and an empty ledger satisfies the
/// collateral invariant.
pub proof fn law_collateral_initial(v: StoreView)
    requires
        v.owners == Map::<u32, u64>::empty(),
        v.ledger == Map::<u64, AccountData>::empty(),
    ensures
        collateral_ok(v),
{
    assert forall|a: u64| #[trigger] reserved_of(v.ledger, a) == v.stake * owned_kitties(v, a).len() by {
        assert(owned_kitties(v, a) =~= Set::<u32>::empty());
        assert(v.stake * 0 == 0) by (nonlinear_arith);
    }
}

/// Law: endowing an account that owns no kitty preserves the collateral
/// invariant.
pub proof fn law_collateral_set_balance(v: StoreView, v2: StoreView, who: u64, free: u128)
    requires
        collateral_ok(v),
        owned_kitties(v, who) == Set::<u32>::empty(),
        v2 == (StoreView { ledger: v.ledger.insert(who, (AccountData { free, reserved: 0 })), ..v }),
    ensures
        collateral_ok(v2),
{
    assert forall|a: u64| #[trigger] reserved_of(v2.ledger, a) == v2.stake * owned_kitties(v2, a).len() by {
        assert(owned_kitties(v2, a) =~= owned_kitties(v, a));
        if a == who {
            assert(owned_kitties(v, who).len() == 0);
            assert(v.stake * 0 == 0) by (nonlinear_arith);
        } else {
            assert(reserved_of(v2.ledger, a) == reserved_of(v.ledger, a));
        }
    }
}

/// Law: minting — by create or breed — preserves the collateral
/// invariant: the fresh kitty's owner reserves exactly one more stake.
pub proof fn law_collateral_mint(v: StoreView, who: u64, dna: [u8; 16])
    requires
        store_wf(v),
        collateral_ok(v),
        mint_result(v, who) is Ok,
    ensures
        collateral_ok(spec_mint(v, who, dna)),
{
    let id = spec_next_id(v);
    let v2 = spec_mint(v, who, dna);
    assert(!v.owners.dom().contains(id));
    lemma_owned_finite(v, who);
    assert forall|a: u64| #[trigger] reserved_of(v2.ledger, a) == v2.stake * owned_kitties(v2, a).len() by {
        if a == who {
            assert(owned_kitties(v2, who) =~= owned_kitties(v, who).insert(id));
            let n = owned_kitties(v, who).len();
            assert(!owned_kitties(v, who).contains(id));
            assert(owned_kitties(v, who).insert(id).len() == n + 1);
            assert(reserved_of(v.ledger, who) + v.stake <= u128::MAX);
            assert(reserved_of(v2.ledger, who) == reserved_of(v.ledger, who) + v.stake);
            assert(v.stake * (n + 1) == v.stake * n + v.stake) by (nonlinear_arith);
        } else {
            assert(owned_kitties(v2, a) =~= owned_kitties(v, a));
            assert(reserved_of(v2.ledger, a) == reserved_of(v.ledger, a));
        }
    }
}

/// Under the collateral invariant, the owner of an existing kitty holds
/// at least one stake in reserve.
pub proof fn lemma_owner_holds_stake(v: StoreView, id: u32)
    requires
        collateral_ok(v),
        v.owners.dom().contains(id),
    ensures
        reserved_of(v.ledger, v.owners[id]) >= v.stake,
{
    let who = v.owners[id];
    lemma_owned_finite(v, who);
    assert(owned_kitties(v, who).contains(id));
    let n = owned_kitties(v, who).len();
    assert(owned_kitties(v, who).remove(id).len() == n - 1);
    assert(n >= 1);
    assert(v.stake * n >= v.stake) by (nonlinear_arith)
        requires n >= 1
    ;
}

/// Law: a transfer preserves the collateral invariant: the stake moves
/// from the old owner's reserve to the new owner's along with the kitty.
pub proof fn law_collateral_transfer(v: StoreView, who: u64, new_owner: u64, id: u32)
    requires
        store_wf(v),
        collateral_ok(v),
        transfer_result(v, who, new_owner, id) is Ok,
    ensures
        collateral_ok(spec_transfer(v, who, new_owner, id)),
{
    let v2 = spec_transfer(v, who, new_owner, id);
    let l1 = spec_reserve(v.ledger, new_owner, v.stake);
    assert(v.owners.dom().contains(id) && v.owners[id] == who);
    lemma_owner_holds_stake(v, id);
    lemma_owned_finite(v, who);
    lemma_owned_finite(v, new_owner);
    assert forall|a: u64| #[trigger] reserved_of(v2.ledger, a) == v2.stake * owned_kitties(v2, a).len() by {
        if new_owner == who {
            assert(owned_kitties(v2, a) =~= owned_kitties(v, a));
            if a == who {
                assert(reserved_of(l1, who) == reserved_of(v.ledger, who) + v.stake);
                assert(reserved_of(v2.ledger, who) == reserved_of(v.ledger, who));
            } else {
                assert(reserved_of(v2.ledger, a) == reserved_of(v.ledger, a));
            }
        } else if a == who {
            assert(owned_kitties(v2, who) =~= owned_kitties(v, who).remove(id));
            assert(owned_kitties(v, who).contains(id));
            let n = owned_kitties(v, who).len();
            assert(owned_kitties(v, who).remove(id).len() == n - 1);
            assert(reserved_of(l1, who) == reserved_of(v.ledger, who));
            assert(reserved_of(v2.ledger, who) == reserved_of(v.ledger, who) - v.stake);
            assert(v.stake * (n - 1) == v.stake * n - v.stake) by (nonlinear_arith)
                requires n >= 1
            ;
        } else if a == new_owner {
            assert(owned_kitties(v2, new_owner) =~= owned_kitties(v, new_owner).insert(id));
            assert(!owned_kitties(v, new_owner).contains(id));
            let n = owned_kitties(v, new_owner).len();
            assert(owned_kitties(v, new_owner).insert(id).len() == n + 1);
            assert(reserved_of(v.ledger, new_owner) + v.stake <= u128::MAX);
            assert(reserved_of(v2.ledger, new_owner) == reserved_of(v.ledger, new_owner) + v.stake);
            assert(v.stake * (n + 1) == v.stake * n + v.stake) by (nonlinear_arith);
        } else {
            assert(owned_kitties(v2, a) =~= owned_kitties(v, a));
            assert(reserved_of(v2.ledger, a) == reserved_of(v.ledger, a));
        }
    }
}

/// Law: a sell touches only the listing table and the event log, so it
/// preserves the collateral invariant.
pub proof fn law_collateral_sell(v: StoreView, who: u64, id: u32, price: Option<u128>)
    requires
        collateral_ok(v),
    ensures
        collateral_ok(spec_sell(v, who, id, price)),
{
    let v2 = spec_sell(v, who, id, price);
    assert forall|a: u64| #[trigger] reserved_of(v2.ledger, a) == v2.stake * owned_kitties(v2, a).len() by {
        assert(owned_kitties(v2, a) =~= owned_kitties(v, a));
        assert(reserved_of(v2.ledger, a) == reserved_of(v.ledger, a));
    }
}

/// Law: a buy preserves the collateral invariant: the stake moves from
/// the seller's reserve to the buyer's along with the kitty, and the
/// price moves only between free balances.
pub proof fn law_collateral_buy(v: StoreView, who: u64, id: u32)
    requires
        store_wf(v),
        collateral_ok(v),
        buy_result(v, who, id) is Ok,
    ensures
        collateral_ok(spec_buy(v, who, id)),
{
    let v2 = spec_buy(v, who, id);
    let o = v.owners[id];
    let l1 = spec_reserve(v.ledger, who, v.stake);
    let l2 = spec_unreserve(l1, o, v.stake);
    assert(v.owners.dom().contains(id) && o != who);
    lemma_owner_holds_stake(v, id);
    lemma_owned_finite(v, who);
    lemma_owned_finite(v, o);
    assert forall|a: u64| #[trigger] reserved_of(v2.ledger, a) == v2.stake * owned_kitties(v2, a).len() by {
        if a == o {
            assert(owned_kitties(v2, o) =~= owned_kitties(v, o).remove(id));
            assert(owned_kitties(v, o).contains(id));
            let n = owned_kitties(v, o).len();
            assert(owned_kitties(v, o).remove(id).len() == n - 1);
            assert(reserved_of(l1, o) == reserved_of(v.ledger, o));
            assert(reserved_of(l2, o) == reserved_of(v.ledger, o) - v.stake);
            assert(reserved_of(v2.ledger, o) == reserved_of(l2, o));
            assert(v.stake * (n - 1) == v.stake * n - v.stake) by (nonlinear_arith)
                requires n >= 1
            ;
        } else if a == who {
            assert(owned_kitties(v2, who) =~= owned_kitties(v, who).insert(id));
            assert(!owned_kitties(v, who).contains(id));
            let n = owned_kitties(v, who).len();
            assert(owned_kitties(v, who).insert(id).len() == n + 1);
            assert(reserved_of(v.ledger, who) + v.stake <= u128::MAX);
            assert(reserved_of(l1, who) == reserved_of(v.ledger, who) + v.stake);
            assert(reserved_of(l2, who) == reserved_of(l1, who));
            assert(reserved_of(v2.ledger, who) == reserved_of(l2, who));
            assert(v.stake * (n + 1) == v.stake * n + v.stake) by (nonlinear_arith);
        } else {
            assert(owned_kitties(v2, a) =~= owned_kitties(v, a));
            assert(reserved_of(l1, a) == reserved_of(v.ledger, a));
            assert(reserved_of(l2, a) == reserved_of(l1, a));
            assert(reserved_of(v2.ledger, a) == reserved_of(l2, a));
        }
    }
}

} // verus!
