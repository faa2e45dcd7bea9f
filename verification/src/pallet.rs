//! The kitty pallet: an id-indexed registry of immutable genomes, an
//! ownership index, a marketplace listing table, and a collateral ledger,
//! mutated by five handlers — create, transfer, breed, sell, buy.
//!
//! Every handler validates its preconditions in a fixed order and either
//! commits all of its table writes or none of them: on any error the
//! store is left exactly as it was. Each successful handler appends
//! exactly one event. The host supplies the authenticated caller and the
//! per-call entropy (a genome for create, a selector mask for breed) as
//! plain values, so each transition is a deterministic function of the
//! store and the handler's arguments.

use std::collections::HashMap;
use vstd::prelude::*;

use crate::breeding::child_byte;
use crate::breeding::child_genome;
use crate::ledger::AccountData;
use crate::ledger::Ledger;
use crate::ledger::can_receive;
use crate::ledger::can_reserve;
use crate::ledger::free_of;
use crate::ledger::ledger_wf;
use crate::ledger::reserved_of;
use crate::ledger::spec_pay;
use crate::ledger::spec_reserve;
use crate::ledger::spec_unreserve;

verus! {

broadcast use vstd::std_specs::hash::group_hash_axioms;

/// An asset: a fixed-size 16-byte genome, immutable once assigned.
#[derive(Clone, Copy, Debug, PartialEq, Eq)]
pub struct Kitty(pub [u8; 16]);

/// Configuration the host fixes once: the collateral staked for each
/// kitty an account owns.
#[derive(Clone, Copy, Debug)]
pub struct Config {
    pub stake_for_each_kitty: u128,
}

/// One event per successful handler, in order of execution.
#[derive(Clone, Copy, Debug, PartialEq, Eq)]
pub enum Event {
    /// A kitty was created or bred: (owner, id).
    KittyCreated(u64, u32),
    /// A kitty changed owner: (from, to, id).
    KittyTransferred(u64, u64, u32),
    /// A kitty was listed or delisted: (owner, id, asked price).
    KittyListed(u64, u32, Option<u128>),
}

/// Why a handler rejected an operation.
#[derive(Clone, Copy, Debug, PartialEq, Eq)]
pub enum Error {
    /// The id counter is at the top of the id space.
    KittiesCountOverflow,
    /// The caller does not own the kitty.
    NotOwner,
    /// Both breeding parents are the same kitty.
    SameParentIndex,
    /// No kitty exists under the given id.
    InvalidKittyIndex,
    /// The buyer already owns the kitty.
    BuyerIsOwner,
    /// The kitty carries no listing.
    NotForSale,
    /// The account cannot cover the stake reservation.
    NotEnoughBalanceForSave,
    /// The buyer's free balance does not exceed price plus stake.
    NotEnoughBalanceForBuying,
    /// The ledger rejected the payment to the seller.
    PaymentFailed,
}

/// The mathematical state of the store: the four tables, the ledger, the
/// event log, and the stake constant.
#[verifier::ext_equal]
pub ghost struct StoreView {
    /// Next unused id; absent means no kitty was ever created.
    pub counter: Option<u32>,
    /// Registry: id to genome.
    pub kitties: Map<u32, Kitty>,
    /// Ownership index: id to account.
    pub owners: Map<u32, u64>,
    /// Marketplace: id to asked price; an absent entry is not for sale.
    pub listings: Map<u32, u128>,
    /// Collateral ledger: account to balances.
    pub ledger: Map<u64, AccountData>,
    /// Events emitted so far.
    pub events: Seq<Event>,
    /// Stake reserved for each owned kitty.
    pub stake: u128,
}

/// The next unused id: the counter's value, or 0 when it was never set.
pub open spec fn spec_next_id(v: StoreView) -> u32 {
    match v.counter {
        Some(c) => c,
        None => 0u32,
    }
}

/// The genome registered under `id`, if any.
pub open spec fn spec_kitty_of(v: StoreView, id: u32) -> Option<Kitty> {
    if v.kitties.dom().contains(id) {
        Some(v.kitties[id])
    } else {
        None
    }
}

/// The current owner of `id`, if the kitty exists.
pub open spec fn spec_owner_of(v: StoreView, id: u32) -> Option<u64> {
    if v.owners.dom().contains(id) {
        Some(v.owners[id])
    } else {
        None
    }
}

/// The asked price of `id`, if it is listed for sale.
pub open spec fn spec_listing_of(v: StoreView, id: u32) -> Option<u128> {
    if v.listings.dom().contains(id) {
        Some(v.listings[id])
    } else {
        None
    }
}

/// Well-formedness of the store: the ledger never overflows an account,
/// every kitty has exactly one owner and vice versa, every existing id
/// lies below the counter, and only existing kitties carry listings.
pub open spec fn store_wf(v: StoreView) -> bool {
    &&& ledger_wf(v.ledger)
    &&& v.owners.dom() == v.kitties.dom()
    &&& forall|id: u32| #[trigger] v.kitties.dom().contains(id) ==> id < spec_next_id(v)
    &&& forall|id: u32| #[trigger] v.listings.dom().contains(id) ==> v.kitties.dom().contains(id)
}

/// Outcome of minting a kitty for `who`: the fresh id, or the error when
/// the id space is exhausted or the stake cannot be reserved — checked
/// in that order.
pub open spec fn mint_result(v: StoreView, who: u64) -> Result<u32, Error> {
    if spec_next_id(v) == u32::MAX {
        Err(Error::KittiesCountOverflow)
    } else if !can_reserve(v.ledger, who, v.stake) {
        Err(Error::NotEnoughBalanceForSave)
    } else {
        Ok(spec_next_id(v))
    }
}

/// The store after successfully minting a kitty with genome `dna` for
/// `who`: the kitty is registered under the next id, `who` becomes its
/// owner and has the stake reserved, the counter advances by one, and a
/// creation event is appended.
pub open spec fn spec_mint(v: StoreView, who: u64, dna: [u8; 16]) -> StoreView {
    let id = spec_next_id(v);
    StoreView {
        counter: Some((id + 1) as u32),
        kitties: v.kitties.insert(id, Kitty(dna)),
        owners: v.owners.insert(id, who),
        ledger: spec_reserve(v.ledger, who, v.stake),
        events: v.events.push(Event::KittyCreated(who, id)),
        ..v
    }
}

/// Outcome of `who` handing `id` over to `new_owner`: the caller must own
/// the kitty, then the new owner must be able to cover the stake —
/// checked in that order.
pub open spec fn transfer_result(v: StoreView, who: u64, new_owner: u64, id: u32) -> Result<
    (),
    Error,
> {
    if spec_owner_of(v, id) != Some(who) {
        Err(Error::NotOwner)
    } else if !can_reserve(v.ledger, new_owner, v.stake) {
        Err(Error::NotEnoughBalanceForSave)
    } else {
        Ok(())
    }
}

/// The store after a successful transfer: the stake is reserved from the
/// new owner before it is released to the old one (so the kitty is never
/// uncollateralized), ownership moves, and a transfer event is appended.
pub open spec fn spec_transfer(v: StoreView, who: u64, new_owner: u64, id: u32) -> StoreView {
    StoreView {
        owners: v.owners.insert(id, new_owner),
        ledger: spec_unreserve(spec_reserve(v.ledger, new_owner, v.stake), who, v.stake),
        events: v.events.push(Event::KittyTransferred(who, new_owner, id)),
        ..v
    }
}

/// Outcome of `who` listing `id`: the caller must own the kitty.
pub open spec fn sell_result(v: StoreView, who: u64, id: u32) -> Result<(), Error> {
    if spec_owner_of(v, id) != Some(who) {
        Err(Error::NotOwner)
    } else {
        Ok(())
    }
}

/// The store after a successful sell: the listing is overwritten with the
/// asked price — `None` delists — and a listing event is appended even
/// for a delisting.
pub open spec fn spec_sell(v: StoreView, who: u64, id: u32, price: Option<u128>) -> StoreView {
    StoreView {
        listings: match price {
            Some(p) => v.listings.insert(id, p),
            None => v.listings.remove(id),
        },
        events: v.events.push(Event::KittyListed(who, id, price)),
        ..v
    }
}

/// Outcome of `who` breeding from parents `id1` and `id2`: the parents
/// must be two distinct existing kitties, then minting must succeed —
/// checked in that order, before any collateral is touched. No ownership
/// of the parents is required: breeding is permissionless, only the
/// caller pays the stake and owns the child.
pub open spec fn breed_result(v: StoreView, who: u64, id1: u32, id2: u32) -> Result<u32, Error> {
    if id1 == id2 {
        Err(Error::SameParentIndex)
    } else if !v.kitties.dom().contains(id1) || !v.kitties.dom().contains(id2) {
        Err(Error::InvalidKittyIndex)
    } else {
        mint_result(v, who)
    }
}

/// Outcome of `who` buying `id`: the kitty must exist, the buyer must not
/// already own it, it must carry a listing, the buyer's free balance must
/// strictly exceed price plus stake, and the seller must have room to
/// receive the price — checked in that order. Everything after the
/// strict balance check is thereby already covered, so the stake
/// reservation itself can no longer fail.
pub open spec fn buy_result(v: StoreView, who: u64, id: u32) -> Result<(), Error> {
    match spec_owner_of(v, id) {
        None => Err(Error::InvalidKittyIndex),
        Some(o) => {
            if o == who {
                Err(Error::BuyerIsOwner)
            } else {
                match spec_listing_of(v, id) {
                    None => Err(Error::NotForSale),
                    Some(p) => {
                        if !(free_of(v.ledger, who) > p + v.stake) {
                            Err(Error::NotEnoughBalanceForBuying)
                        } else if !can_receive(v.ledger, o, p) {
                            Err(Error::PaymentFailed)
                        } else {
                            Ok(())
                        }
                    },
                }
            }
        },
    }
}

/// The store after a successful buy: the buyer's stake is reserved before
/// the seller's is released, the price moves from buyer to seller, the
/// listing is cleared, ownership moves to the buyer, and a transfer event
/// is appended.
pub open spec fn spec_buy(v: StoreView, who: u64, id: u32) -> StoreView {
    let o = v.owners[id];
    let p = v.listings[id];
    StoreView {
        owners: v.owners.insert(id, who),
        listings: v.listings.remove(id),
        ledger: spec_pay(spec_unreserve(spec_reserve(v.ledger, who, v.stake), o, v.stake), who, o, p),
        events: v.events.push(Event::KittyTransferred(o, who, id)),
        ..v
    }
}

/// The store: the four tables, the collateral ledger, the event log, and
/// the configuration. All mutation goes through the five handlers and
/// the explicit setup functions.
pub struct Pallet {
    counter: Option<u32>,
    kitties: HashMap<u32, Kitty>,
    owners: HashMap<u32, u64>,
    listings: HashMap<u32, u128>,
    ledger: Ledger,
    events: Vec<Event>,
    config: Config,
}

impl View for Pallet {
    type V = StoreView;

    closed spec fn view(&self) -> StoreView {
        StoreView {
            counter: self.counter,
            kitties: self.kitties@,
            owners: self.owners@,
            listings: self.listings@,
            ledger: self.ledger@,
            events: self.events@,
            stake: self.config.stake_for_each_kitty,
        }
    }
}

impl Pallet {
    /// An empty store under the given configuration.
    pub fn new(config: Config) -> (p: Pallet)
        ensures
            store_wf(p@),
            p@.counter == None::<u32>,
            p@.kitties == Map::<u32, Kitty>::empty(),
            p@.owners == Map::<u32, u64>::empty(),
            p@.listings == Map::<u32, u128>::empty(),
            p@.ledger == Map::<u64, AccountData>::empty(),
            p@.events == Seq::<Event>::empty(),
            p@.stake == config.stake_for_each_kitty,
    {
        Pallet {
            counter: None,
            kitties: HashMap::new(),
            owners: HashMap::new(),
            listings: HashMap::new(),
            ledger: Ledger::new(),
            events: Vec::new(),
            config,
        }
    }

    /// Endow `who` with a free balance and nothing reserved; the tables
    /// are untouched.
    pub fn set_balance(&mut self, who: u64, free: u128)
        requires
            store_wf(old(self)@),
        ensures
            store_wf(final(self)@),
            final(self)@ == (StoreView {
                ledger: old(self)@.ledger.insert(who, (AccountData { free, reserved: 0 })),
                ..old(self)@
            }),
    {
        self.ledger.set_balance(who, free);
        proof {
            assert(self@ =~= (StoreView {
                ledger: old(self)@.ledger.insert(who, (AccountData { free, reserved: 0 })),
                ..old(self)@
            }));
        }
    }

    /// Force the id counter, as a host may when seeding storage. Every
    /// existing id must lie below the new value.
    pub fn put_kitties_count(&mut self, count: u32)
        requires
            store_wf(old(self)@),
            forall|id: u32| #[trigger] old(self)@.kitties.dom().contains(id) ==> id < count,
        ensures
            store_wf(final(self)@),
            final(self)@ == (StoreView { counter: Some(count), ..old(self)@ }),
    {
        self.counter = Some(count);
        proof {
            assert(self@ =~= (StoreView { counter: Some(count), ..old(self)@ }));
        }
    }

    /// The id counter: the number of kitties ever minted, absent when
    /// none ever was.
    pub fn kitties_count(&self) -> (r: Option<u32>)
        ensures
            r == self@.counter,
    {
        self.counter
    }

    /// The genome registered under `kitty_id`, if any.
    pub fn kitties(&self, kitty_id: u32) -> (r: Option<Kitty>)
        ensures
            r == spec_kitty_of(self@, kitty_id),
    {
        match self.kitties.get(&kitty_id) {
            Some(k) => Some(*k),
            None => None,
        }
    }

    /// The current owner of `kitty_id`, if the kitty exists.
    pub fn owner(&self, kitty_id: u32) -> (r: Option<u64>)
        ensures
            r == spec_owner_of(self@, kitty_id),
    {
        match self.owners.get(&kitty_id) {
            Some(o) => Some(*o),
            None => None,
        }
    }

    /// The asked price of `kitty_id`, if it is listed for sale.
    pub fn kitties_list_for_sales(&self, kitty_id: u32) -> (r: Option<u128>)
        ensures
            r == spec_listing_of(self@, kitty_id),
    {
        match self.listings.get(&kitty_id) {
            Some(p) => Some(*p),
            None => None,
        }
    }

    /// The free balance of `who` in the collateral ledger.
    pub fn free_balance(&self, who: u64) -> (r: u128)
        ensures
            r == free_of(self@.ledger, who),
    {
        self.ledger.free_balance(who)
    }

    /// The reserved balance of `who` in the collateral ledger.
    pub fn reserved_balance(&self, who: u64) -> (r: u128)
        ensures
            r == reserved_of(self@.ledger, who),
    {
        self.ledger.reserved_balance(who)
    }

    /// How many events were emitted so far.
    pub fn event_count(&self) -> (r: usize)
        ensures
            r == self@.events.len(),
    {
        self.events.len()
    }

    /// Mint a kitty with genome `dna` for `owner_acct`: fail when the id
    /// counter is at the top of the id space, reserve the stake (failing
    /// when the free balance cannot cover it), then register the kitty,
    /// record the ownership, advance the counter, and emit the creation
    /// event — all as one unit, or not at all.
    fn helper_kitty_with_save(&mut self, owner_acct: u64, dna: [u8; 16]) -> (r: Result<u32, Error>)
        requires
            store_wf(old(self)@),
        ensures
            store_wf(final(self)@),
            r == mint_result(old(self)@, owner_acct),
            (match r {
                Ok(id) => final(self)@ == spec_mint(old(self)@, owner_acct, dna),
                Err(_) => final(self)@ == old(self)@,
            }),
    {
        let id: u32 = match self.counter {
            Some(c) => {
                if c == u32::MAX {
                    return Err(Error::KittiesCountOverflow);
                }
                c
            },
            None => 0u32,
        };
        let stake = self.config.stake_for_each_kitty;
        if !self.ledger.reserve(owner_acct, stake) {
            return Err(Error::NotEnoughBalanceForSave);
        }
        self.kitties.insert(id, Kitty(dna));
        self.owners.insert(id, owner_acct);
        self.counter = Some(id + 1);
        self.events.push(Event::KittyCreated(owner_acct, id));
        proof {
            assert(self@ =~= spec_mint(old(self)@, owner_acct, dna));
        }
        Ok(id)
    }

    /// Create a kitty for `who` with the genome the host's randomness
    /// source derived for this call. Returns the fresh id; fails with
    /// `KittiesCountOverflow` when the id space is exhausted and with
    /// `NotEnoughBalanceForSave` when `who` cannot cover the stake, in
    /// that order, changing nothing on failure.
    pub fn create(&mut self, who: u64, dna: [u8; 16]) -> (r: Result<u32, Error>)
        requires
            store_wf(old(self)@),
        ensures
            store_wf(final(self)@),
            r == mint_result(old(self)@, who),
            (match r {
                Ok(id) => final(self)@ == spec_mint(old(self)@, who, dna),
                Err(_) => final(self)@ == old(self)@,
            }),
    {
        self.helper_kitty_with_save(who, dna)
    }

    /// Hand `kitty_id` over from `who` to `new_owner`: reserve the stake
    /// from the new owner, release the caller's, and reassign ownership.
    /// No price changes hands. Fails with `NotOwner` when `who` does not
    /// own the kitty and with `NotEnoughBalanceForSave` when the new
    /// owner cannot cover the stake, in that order, changing nothing on
    /// failure.
    pub fn transfer(&mut self, who: u64, new_owner: u64, kitty_id: u32) -> (r: Result<(), Error>)
        requires
            store_wf(old(self)@),
        ensures
            store_wf(final(self)@),
            r == transfer_result(old(self)@, who, new_owner, kitty_id),
            (match r {
                Ok(_) => final(self)@ == spec_transfer(old(self)@, who, new_owner, kitty_id),
                Err(_) => final(self)@ == old(self)@,
            }),
    {
        let is_owner = match self.owners.get(&kitty_id) {
            Some(o) => *o == who,
            None => false,
        };
        if !is_owner {
            return Err(Error::NotOwner);
        }
        let stake = self.config.stake_for_each_kitty;
        if !self.ledger.reserve(new_owner, stake) {
            return Err(Error::NotEnoughBalanceForSave);
        }
        self.ledger.unreserve(who, stake);
        self.owners.insert(kitty_id, new_owner);
        self.events.push(Event::KittyTransferred(who, new_owner, kitty_id));
        proof {
            assert(old(self)@.owners.dom().insert(kitty_id) =~= old(self)@.owners.dom());
            assert(self@ =~= spec_transfer(old(self)@, who, new_owner, kitty_id));
        }
        Ok(())
    }

    /// List `kitty_id` at the asked price, or delist it with `None`. The
    /// listing is overwritten unconditionally and a listing event is
    /// emitted even for a delisting. Fails with `NotOwner` when `who`
    /// does not own the kitty, changing nothing.
    pub fn sell(&mut self, who: u64, kitty_id: u32, price: Option<u128>) -> (r: Result<(), Error>)
        requires
            store_wf(old(self)@),
        ensures
            store_wf(final(self)@),
            r == sell_result(old(self)@, who, kitty_id),
            (match r {
                Ok(_) => final(self)@ == spec_sell(old(self)@, who, kitty_id, price),
                Err(_) => final(self)@ == old(self)@,
            }),
    {
        let is_owner = match self.owners.get(&kitty_id) {
            Some(o) => *o == who,
            None => false,
        };
        if !is_owner {
            return Err(Error::NotOwner);
        }
        match price {
            Some(p) => {
                self.listings.insert(kitty_id, p);
            },
            None => {
                self.listings.remove(&kitty_id);
            },
        }
        self.events.push(Event::KittyListed(who, kitty_id, price));
        proof {
            assert(self@ =~= spec_sell(old(self)@, who, kitty_id, price));
        }
        Ok(())
    }

    /// Breed a child for `who` from two distinct existing parents, under
    /// the selector mask the host's randomness source derived for this
    /// call: each bit of the child's genome comes from the first parent
    /// where the selector bit is 1, else from the second. The child is
    /// minted like a created kitty — fresh id, caller pays the stake and
    /// becomes owner — and the parents are unchanged. Fails with
    /// `SameParentIndex`, `InvalidKittyIndex`, `KittiesCountOverflow` or
    /// `NotEnoughBalanceForSave`, in that order, changing nothing.
    pub fn breed(&mut self, who: u64, kitty_id_1: u32, kitty_id_2: u32, selector: [u8; 16]) -> (r:
        Result<u32, Error>)
        requires
            store_wf(old(self)@),
        ensures
            store_wf(final(self)@),
            r == breed_result(old(self)@, who, kitty_id_1, kitty_id_2),
            (match r {
                Ok(id) => {
                    &&& final(self)@ == spec_mint(old(self)@, who, final(self)@.kitties[id].0)
                    &&& id != kitty_id_1 && id != kitty_id_2
                    &&& final(self)@.kitties[kitty_id_1] == old(self)@.kitties[kitty_id_1]
                    &&& final(self)@.kitties[kitty_id_2] == old(self)@.kitties[kitty_id_2]
                    &&& forall|i: int|
                        0 <= i < 16 ==> final(self)@.kitties[id].0@[i] == child_byte(
                            selector@[i],
                            old(self)@.kitties[kitty_id_1].0@[i],
                            old(self)@.kitties[kitty_id_2].0@[i],
                        )
                },
                Err(_) => final(self)@ == old(self)@,
            }),
    {
        if kitty_id_1 == kitty_id_2 {
            return Err(Error::SameParentIndex);
        }
        let kitty1 = match self.kitties.get(&kitty_id_1) {
            Some(k) => *k,
            None => {
                return Err(Error::InvalidKittyIndex);
            },
        };
        let kitty2 = match self.kitties.get(&kitty_id_2) {
            Some(k) => *k,
            None => {
                return Err(Error::InvalidKittyIndex);
            },
        };
        let new_dna = child_genome(&selector, &kitty1.0, &kitty2.0);
        let r = self.helper_kitty_with_save(who, new_dna);
        proof {
            if r is Ok {
                let id = spec_next_id(old(self)@);
                assert(self@.kitties[id].0 =~= new_dna);
            }
        }
        r
    }

    /// Buy `kitty_id` at its listed price: reserve the stake from the
    /// buyer, release the seller's, pay the price buyer to seller, clear
    /// the listing and reassign ownership — all as one unit, or not at
    /// all. Fails with `InvalidKittyIndex`, `BuyerIsOwner`, `NotForSale`,
    /// `NotEnoughBalanceForBuying` (the buyer's free balance must
    /// strictly exceed price plus stake) or `PaymentFailed` (the seller
    /// cannot receive the price), in that order, changing nothing on
    /// failure.
    pub fn buy(&mut self, who: u64, kitty_id: u32) -> (r: Result<(), Error>)
        requires
            store_wf(old(self)@),
        ensures
            store_wf(final(self)@),
            r == buy_result(old(self)@, who, kitty_id),
            (match r {
                Ok(_) => final(self)@ == spec_buy(old(self)@, who, kitty_id),
                Err(_) => final(self)@ == old(self)@,
            }),
    {
        let owner_acct = match self.owners.get(&kitty_id) {
            Some(o) => *o,
            None => {
                return Err(Error::InvalidKittyIndex);
            },
        };
        if who == owner_acct {
            return Err(Error::BuyerIsOwner);
        }
        let price = match self.listings.get(&kitty_id) {
            Some(p) => *p,
            None => {
                return Err(Error::NotForSale);
            },
        };
        let stake = self.config.stake_for_each_kitty;
        let buyer_free = self.ledger.free_balance(who);
        let affordable = match price.checked_add(stake) {
            Some(total) => buyer_free > total,
            None => false,
        };
        if !affordable {
            return Err(Error::NotEnoughBalanceForBuying);
        }
        let seller_free = self.ledger.free_balance(owner_acct);
        let seller_reserved = self.ledger.reserved_balance(owner_acct);
        proof {
            assert(seller_free + seller_reserved <= u128::MAX);
        }
        if price > u128::MAX - seller_free - seller_reserved {
            return Err(Error::PaymentFailed);
        }
        if !self.ledger.reserve(who, stake) {
            return Err(Error::NotEnoughBalanceForSave);
        }
        self.ledger.unreserve(owner_acct, stake);
        if !self.ledger.pay(who, owner_acct, price) {
            return Err(Error::PaymentFailed);
        }
        self.listings.remove(&kitty_id);
        self.owners.insert(kitty_id, who);
        self.events.push(Event::KittyTransferred(owner_acct, who, kitty_id));
        proof {
            assert(old(self)@.owners.dom().insert(kitty_id) =~= old(self)@.owners.dom());
            assert(self@ =~= spec_buy(old(self)@, who, kitty_id));
        }
        Ok(())
    }

    /// The most recently emitted event, if any.
    pub fn last_event(&self) -> (r: Option<Event>)
        ensures
            r == (if self@.events.len() == 0 {
                None::<Event>
            } else {
                Some(self@.events.last())
            }),
    {
        if self.events.len() == 0 {
            None
        } else {
            Some(self.events[self.events.len() - 1])
        }
    }
}

} // verus!
