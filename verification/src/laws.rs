//! Laws relating several handlers, stated over the spec-level transitions
//! that the handlers' own postconditions establish.

use vstd::prelude::*;

use crate::ledger::free_of;
use crate::ledger::reserved_of;
use crate::pallet::Error;
use crate::pallet::StoreView;
use crate::pallet::buy_result;
use crate::pallet::mint_result;
use crate::pallet::spec_buy;
use crate::pallet::spec_listing_of;
use crate::pallet::spec_mint;
use crate::pallet::spec_next_id;
use crate::pallet::spec_owner_of;
use crate::pallet::spec_sell;
use crate::pallet::store_wf;

verus! {

/// The existing ids form exactly the prefix of the id space below the
/// counter: no id is ever skipped, removed or reused.
pub open spec fn dense(v: StoreView) -> bool {
    forall|id: u32| #[trigger] v.kitties.dom().contains(id) <==> id < spec_next_id(v)
}

/// Law: minting — by create or breed — keeps the existing ids a dense
/// prefix of the id space: the fresh kitty takes the counter's id and
/// the counter advances by exactly one.
pub proof fn law_mint_keeps_ids_dense(v: StoreView, who: u64, dna: [u8; 16])
    requires
        dense(v),
        mint_result(v, who) is Ok,
    ensures
        dense(spec_mint(v, who, dna)),
        spec_next_id(spec_mint(v, who, dna)) == spec_next_id(v) + 1,
{
}

/// Law: a sell followed immediately by a successful buy of the same kitty
/// releases the seller's stake, reserves the buyer's, moves the price
/// from buyer to seller, leaves the kitty unlisted, and makes the buyer
/// its owner.
///
/// `s1` is the store after the seller lists the kitty at `price`, and
/// `s2` the store after the buyer's purchase succeeds — the states the
/// handlers' postconditions establish. The seller is asked to hold at
/// least the stake in reserve, which the owner of a kitty always does.
pub proof fn law_sell_then_buy(
    s0: StoreView,
    s1: StoreView,
    s2: StoreView,
    seller: u64,
    buyer: u64,
    id: u32,
    price: u128,
)
    requires
        store_wf(s0),
        spec_owner_of(s0, id) == Some(seller),
        buyer != seller,
        reserved_of(s0.ledger, seller) >= s0.stake,
        s1 == spec_sell(s0, seller, id, Some(price)),
        buy_result(s1, buyer, id) == Ok::<(), Error>(()),
        s2 == spec_buy(s1, buyer, id),
    ensures
        spec_owner_of(s2, id) == Some(buyer),
        spec_listing_of(s2, id) == None::<u128>,
        reserved_of(s2.ledger, seller) == reserved_of(s0.ledger, seller) - s0.stake,
        reserved_of(s2.ledger, buyer) == reserved_of(s0.ledger, buyer) + s0.stake,
        free_of(s2.ledger, seller) == free_of(s0.ledger, seller) + s0.stake + price,
        free_of(s2.ledger, buyer) == free_of(s0.ledger, buyer) - s0.stake - price,
{
    assert(s1.listings[id] == price);
    assert(s1.ledger == s0.ledger);
    assert(free_of(s0.ledger, buyer) > price + s0.stake);
    assert(free_of(s0.ledger, seller) + reserved_of(s0.ledger, seller) + price <= u128::MAX);
}

} // verus!
