//! The registry itself: the kitty counter, the id-to-genome map, the
//! ownership index, the marketplace listing map, the balance ledger, the
//! block context the host keeps current, and the event log. Each public
//! operation is one atomic check-then-mutate step; on any failure the whole
//! state is left untouched.

use vstd::prelude::*;
use std::collections::HashMap;
use crate::currency::Ledger;
use crate::entropy::{child_genome, random_bytes, random_value};
use crate::types::{AccountId, Balance, Error, Event, Kitty, KittyIndex};

verus! {

broadcast use vstd::std_specs::hash::group_hash_axioms;

/// The whole registry state. The host owns the block context fields
/// (`random_seed`, `extrinsic_index`) and may also write storage directly
/// at genesis, so the fields are public; no operation assumes more of them
/// than its own contract states.
pub struct Pallet {
    /// The next id to assign; `None` means no kitty was ever created and
    /// stands for zero.
    pub kitties_count: Option<KittyIndex>,
    /// Genome storage, keyed by kitty id.
    pub kitties: HashMap<KittyIndex, Kitty>,
    /// Ownership index, keyed by kitty id; a kitty with no entry does not
    /// exist for ownership purposes.
    pub owner: HashMap<KittyIndex, AccountId>,
    /// Marketplace index: a price under an id means "for sale at that
    /// price", absence means "not listed".
    pub kitty_prices: HashMap<KittyIndex, Balance>,
    /// The balance ledger the marketplace pays through.
    pub balances: Ledger,
    /// The block-wide random seed the host published for this block.
    pub random_seed: [u8; 32],
    /// The index of the call now executing within its block.
    pub extrinsic_index: Option<u32>,
    /// Every event deposited so far, oldest first.
    pub events: Vec<Event>,
}

impl Pallet {
    /// The id the next successful create or breed will assign.
    pub open spec fn spec_next_id(self) -> KittyIndex {
        match self.kitties_count {
            Option::None => 0,
            Option::Some(n) => n,
        }
    }

    /// The kitty stored under `kitty_id`, if any.
    pub open spec fn kitty_of(self, kitty_id: KittyIndex) -> Option<Kitty> {
        if self.kitties@.contains_key(kitty_id) {
            Option::Some(self.kitties@[kitty_id])
        } else {
            Option::None
        }
    }

    /// The current owner of `kitty_id`; a kitty with no entry has none.
    pub open spec fn owner_of(self, kitty_id: KittyIndex) -> Option<AccountId> {
        if self.owner@.contains_key(kitty_id) {
            Option::Some(self.owner@[kitty_id])
        } else {
            Option::None
        }
    }

    /// The listing price of `kitty_id`, if it is for sale.
    pub open spec fn price_of(self, kitty_id: KittyIndex) -> Option<Balance> {
        if self.kitty_prices@.contains_key(kitty_id) {
            Option::Some(self.kitty_prices@[kitty_id])
        } else {
            Option::None
        }
    }

    /// A fresh registry: no kitties, no owners, no listings, an empty
    /// ledger with the given existential deposit, an all-zero seed, no call
    /// index, and no events.
    pub fn new(existential_deposit: Balance) -> (r: Pallet)
        ensures
            r.kitties_count == Option::<KittyIndex>::None,
            r.kitties@ == Map::<KittyIndex, Kitty>::empty(),
            r.owner@ == Map::<KittyIndex, AccountId>::empty(),
            r.kitty_prices@ == Map::<KittyIndex, Balance>::empty(),
            forall|a: AccountId| #[trigger] r.balances.spec_balance(a) == 0,
            r.balances.spec_existential_deposit() == existential_deposit,
            forall|i: int| 0 <= i < 32 ==> r.random_seed@[i] == 0,
            r.extrinsic_index == Option::<u32>::None,
            r.events@ == Seq::<Event>::empty(),
    {
        Pallet {
            kitties_count: None,
            kitties: HashMap::new(),
            owner: HashMap::new(),
            kitty_prices: HashMap::new(),
            balances: Ledger::new(existential_deposit),
            random_seed: [0u8; 32],
            extrinsic_index: None,
            events: Vec::new(),
        }
    }

    /// Create a kitty for `who`: the new id is the counter's prior value,
    /// the genome is drawn from the block context, ownership goes to `who`,
    /// and the counter rises by exactly one. Fails with
    /// `KittiesCountOverflow`, changing nothing, exactly when the counter
    /// already holds the reserved maximum.
    pub fn create(&mut self, who: AccountId) -> (r: Result<KittyIndex, Error>)
        ensures
            match r {
                Ok(id) => {
                    &&& old(self).kitties_count != Option::Some(KittyIndex::MAX)
                    &&& id == old(self).spec_next_id()
                    &&& final(self).kitties_count == Option::Some((id + 1) as KittyIndex)
                    &&& final(self).kitties@ == old(self).kitties@.insert(id, final(self).kitties@[id])
                    &&& final(self).kitties@[id].0@ == random_bytes(old(self).random_seed@, who, old(self).extrinsic_index)
                    &&& final(self).owner@ == old(self).owner@.insert(id, who)
                    &&& final(self).kitty_prices@ == old(self).kitty_prices@
                    &&& final(self).balances == old(self).balances
                    &&& final(self).random_seed == old(self).random_seed
                    &&& final(self).extrinsic_index == old(self).extrinsic_index
                    &&& final(self).events@ == old(self).events@.push(Event::KittyCreate(who, id))
                },
                Err(e) => {
                    &&& e == Error::KittiesCountOverflow
                    &&& old(self).kitties_count == Option::Some(KittyIndex::MAX)
                    &&& *final(self) == *old(self)
                },
            },
    {
        let kitty_id = match self.kitties_count {
            Some(id) => {
                if id == KittyIndex::MAX {
                    return Err(Error::KittiesCountOverflow);
                }
                id
            },
            None => 0,
        };
        let dna = random_value(&self.random_seed, who, self.extrinsic_index);
        self.kitties.insert(kitty_id, Kitty(dna));
        self.owner.insert(kitty_id, who);
        self.kitties_count = Some(kitty_id + 1);
        self.events.push(Event::KittyCreate(who, kitty_id));
        Ok(kitty_id)
    }

    /// Hand the kitty under `kitty_id` from `who` to `new_owner`. Fails
    /// with `AlreadyOwned` whenever `who == new_owner`, regardless of
    /// ownership; otherwise fails with `NotOwner` whenever `who` is not the
    /// stored owner (in particular for a nonexistent id). Either failure
    /// changes nothing. A listing for the kitty, if any, is deliberately
    /// left in place.
    pub fn transfer(&mut self, who: AccountId, new_owner: AccountId, kitty_id: KittyIndex) -> (r: Result<(), Error>)
        ensures
            match r {
                Ok(()) => {
                    &&& who != new_owner
                    &&& old(self).owner_of(kitty_id) == Option::Some(who)
                    &&& final(self).owner@ == old(self).owner@.insert(kitty_id, new_owner)
                    &&& final(self).kitties_count == old(self).kitties_count
                    &&& final(self).kitties@ == old(self).kitties@
                    &&& final(self).kitty_prices@ == old(self).kitty_prices@
                    &&& final(self).balances == old(self).balances
                    &&& final(self).random_seed == old(self).random_seed
                    &&& final(self).extrinsic_index == old(self).extrinsic_index
                    &&& final(self).events@ == old(self).events@.push(Event::KittyTransfer(who, new_owner, kitty_id))
                },
                Err(e) => {
                    &&& *final(self) == *old(self)
                    &&& if who == new_owner {
                        e == Error::AlreadyOwned
                    } else {
                        &&& e == Error::NotOwner
                        &&& old(self).owner_of(kitty_id) != Option::Some(who)
                    }
                },
            },
    {
        if who == new_owner {
            return Err(Error::AlreadyOwned);
        }
        let owned = match self.owner.get(&kitty_id) {
            Some(o) => *o == who,
            None => false,
        };
        if !owned {
            return Err(Error::NotOwner);
        }
        self.owner.insert(kitty_id, new_owner);
        self.events.push(Event::KittyTransfer(who, new_owner, kitty_id));
        Ok(())
    }

    /// Breed a new kitty for `who` from two distinct existing parents. The
    /// child genome takes each bit from the first parent where the
    /// selector bit drawn from the block context is one, else from the
    /// second parent. The new id is allocated exactly as in [`Self::create`].
    /// Fails, changing nothing, with `SameParentIndex` when the parents are
    /// the same id, else with `InvalidKittyIndex` when either parent is
    /// missing, else with `KittiesCountOverflow` when the counter holds the
    /// reserved maximum.
    pub fn bread(&mut self, who: AccountId, kitty_id_1: KittyIndex, kitty_id_2: KittyIndex) -> (r: Result<KittyIndex, Error>)
        ensures
            match r {
                Ok(id) => {
                    &&& kitty_id_1 != kitty_id_2
                    &&& old(self).kitty_of(kitty_id_1) is Some
                    &&& old(self).kitty_of(kitty_id_2) is Some
                    &&& old(self).kitties_count != Option::Some(KittyIndex::MAX)
                    &&& id == old(self).spec_next_id()
                    &&& final(self).kitties_count == Option::Some((id + 1) as KittyIndex)
                    &&& final(self).kitties@ == old(self).kitties@.insert(id, final(self).kitties@[id])
                    &&& final(self).kitties@[id].0@ == child_genome(
                        random_bytes(old(self).random_seed@, who, old(self).extrinsic_index),
                        old(self).kitties@[kitty_id_1].0@,
                        old(self).kitties@[kitty_id_2].0@,
                    )
                    &&& final(self).owner@ == old(self).owner@.insert(id, who)
                    &&& final(self).kitty_prices@ == old(self).kitty_prices@
                    &&& final(self).balances == old(self).balances
                    &&& final(self).random_seed == old(self).random_seed
                    &&& final(self).extrinsic_index == old(self).extrinsic_index
                    &&& final(self).events@ == old(self).events@.push(Event::KittyCreate(who, id))
                },
                Err(e) => {
                    &&& *final(self) == *old(self)
                    &&& if kitty_id_1 == kitty_id_2 {
                        e == Error::SameParentIndex
                    } else if old(self).kitty_of(kitty_id_1) is None || old(self).kitty_of(kitty_id_2) is None {
                        e == Error::InvalidKittyIndex
                    } else {
                        &&& e == Error::KittiesCountOverflow
                        &&& old(self).kitties_count == Option::Some(KittyIndex::MAX)
                    }
                },
            },
    {
        if kitty_id_1 == kitty_id_2 {
            return Err(Error::SameParentIndex);
        }
        let kitty1 = match self.kitties.get(&kitty_id_1) {
            Some(k) => *k,
            None => {
                return Err(Error::InvalidKittyIndex);
            },
        };
        let kitty2 = match self.kitties.get(&kitty_id_2) {
            Some(k) => *k,
            None => {
                return Err(Error::InvalidKittyIndex);
            },
        };
        let kitty_id = match self.kitties_count {
            Some(id) => {
                if id == KittyIndex::MAX {
                    return Err(Error::KittiesCountOverflow);
                }
                id
            },
            None => 0,
        };
        let dna_1 = kitty1.0;
        let dna_2 = kitty2.0;
        let selector = random_value(&self.random_seed, who, self.extrinsic_index);
        let mut new_dna: [u8; 16] = [0u8; 16];
        for i in 0..16
            invariant
                dna_1@.len() == 16,
                dna_2@.len() == 16,
                selector@.len() == 16,
                new_dna@.len() == 16,
                forall|j: int| 0 <= j < i
                    ==> new_dna@[j] == ((selector@[j] & dna_1@[j]) | (!selector@[j] & dna_2@[j])) as u8,
        {
            new_dna[i] = (selector[i] & dna_1[i]) | (!selector[i] & dna_2[i]);
        }
        proof {
            assert(new_dna@ =~= child_genome(selector@, dna_1@, dna_2@));
        }
        self.kitties.insert(kitty_id, Kitty(new_dna));
        self.owner.insert(kitty_id, who);
        self.kitties_count = Some(kitty_id + 1);
        self.events.push(Event::KittyCreate(who, kitty_id));
        Ok(kitty_id)
    }

    /// Set or clear the listing of the kitty under `kitty_id`: a price
    /// lists it for sale at that price, `None` delists it. Fails with
    /// `NotOwner`, changing nothing, exactly when `who` is not the stored
    /// owner.
    pub fn sale(&mut self, who: AccountId, kitty_id: KittyIndex, sale_price: Option<Balance>) -> (r: Result<(), Error>)
        ensures
            match r {
                Ok(()) => {
                    &&& old(self).owner_of(kitty_id) == Option::Some(who)
                    &&& final(self).kitty_prices@ == (match sale_price {
                        Option::Some(p) => old(self).kitty_prices@.insert(kitty_id, p),
                        Option::None => old(self).kitty_prices@.remove(kitty_id),
                    })
                    &&& final(self).kitties_count == old(self).kitties_count
                    &&& final(self).kitties@ == old(self).kitties@
                    &&& final(self).owner@ == old(self).owner@
                    &&& final(self).balances == old(self).balances
                    &&& final(self).random_seed == old(self).random_seed
                    &&& final(self).extrinsic_index == old(self).extrinsic_index
                    &&& final(self).events@ == old(self).events@.push(Event::KittyForSale(who, kitty_id, sale_price))
                },
                Err(e) => {
                    &&& *final(self) == *old(self)
                    &&& e == Error::NotOwner
                    &&& old(self).owner_of(kitty_id) != Option::Some(who)
                },
            },
    {
        let owned = match self.owner.get(&kitty_id) {
            Some(o) => *o == who,
            None => false,
        };
        if !owned {
            return Err(Error::NotOwner);
        }
        match sale_price {
            Some(p) => {
                self.kitty_prices.insert(kitty_id, p);
            },
            None => {
                self.kitty_prices.remove(&kitty_id);
            },
        }
        self.events.push(Event::KittyForSale(who, kitty_id, sale_price));
        Ok(())
    }

    /// Buy the listed kitty under `kitty_id` for `who`: pay the listed
    /// price to the current owner through the ledger, keeping the buyer
    /// alive, then hand ownership to the buyer and clear the listing.
    /// Fails, changing nothing, with `NotOwner` when the kitty has no
    /// owner, else with `NotForSale` when it has no listing, else with
    /// `AlreadyOwned` when the buyer is the owner, else with the propagated
    /// ledger cause when the payment is refused.
    pub fn buy(&mut self, who: AccountId, kitty_id: KittyIndex) -> (r: Result<(), Error>)
        ensures
            match r {
                Ok(()) => {
                    &&& old(self).owner_of(kitty_id) is Some
                    &&& old(self).price_of(kitty_id) is Some
                    &&& {
                        let seller = old(self).owner_of(kitty_id)->0;
                        let price = old(self).price_of(kitty_id)->0;
                        &&& who != seller
                        &&& old(self).balances.can_transfer(who, seller, price)
                        &&& final(self).balances.spec_balance(who) == old(self).balances.spec_balance(who) - price
                        &&& final(self).balances.spec_balance(seller) == old(self).balances.spec_balance(seller) + price
                        &&& forall|a: AccountId| a != who && a != seller
                            ==> #[trigger] final(self).balances.spec_balance(a) == old(self).balances.spec_balance(a)
                        &&& final(self).balances.spec_existential_deposit() == old(self).balances.spec_existential_deposit()
                        &&& final(self).owner@ == old(self).owner@.insert(kitty_id, who)
                        &&& final(self).kitty_prices@ == old(self).kitty_prices@.remove(kitty_id)
                        &&& final(self).kitties_count == old(self).kitties_count
                        &&& final(self).kitties@ == old(self).kitties@
                        &&& final(self).random_seed == old(self).random_seed
                        &&& final(self).extrinsic_index == old(self).extrinsic_index
                        &&& final(self).events@ == old(self).events@.push(Event::KittySaleOut(who, kitty_id, Option::Some(price)))
                    }
                },
                Err(e) => {
                    &&& *final(self) == *old(self)
                    &&& match old(self).owner_of(kitty_id) {
                        Option::None => e == Error::NotOwner,
                        Option::Some(seller) => match old(self).price_of(kitty_id) {
                            Option::None => e == Error::NotForSale,
                            Option::Some(price) => {
                                if who == seller {
                                    e == Error::AlreadyOwned
                                } else {
                                    &&& !old(self).balances.can_transfer(who, seller, price)
                                    &&& e == Error::CurrencyTransferFailed(
                                        old(self).balances.transfer_fail_cause(who, seller, price),
                                    )
                                }
                            },
                        },
                    }
                },
            },
    {
        let seller = match self.owner.get(&kitty_id) {
            Some(o) => *o,
            None => {
                return Err(Error::NotOwner);
            },
        };
        let price = match self.kitty_prices.get(&kitty_id) {
            Some(p) => *p,
            None => {
                return Err(Error::NotForSale);
            },
        };
        if who == seller {
            return Err(Error::AlreadyOwned);
        }
        match self.balances.transfer_keep_alive(who, seller, price) {
            Ok(()) => {},
            Err(cause) => {
                return Err(Error::CurrencyTransferFailed(cause));
            },
        }
        self.owner.insert(kitty_id, who);
        self.kitty_prices.remove(&kitty_id);
        self.events.push(Event::KittySaleOut(who, kitty_id, Some(price)));
        Ok(())
    }

    /// The counter: the next id to assign, `None` before the first create.
    pub fn kitties_count(&self) -> (r: Option<KittyIndex>)
        ensures
            r == self.kitties_count,
    {
        self.kitties_count
    }

    /// The kitty stored under `kitty_id`, if any.
    pub fn kitties(&self, kitty_id: KittyIndex) -> (r: Option<Kitty>)
        ensures
            r == self.kitty_of(kitty_id),
    {
        match self.kitties.get(&kitty_id) {
            Some(k) => Some(*k),
            None => None,
        }
    }

    /// The current owner of `kitty_id`, if the kitty exists.
    pub fn owner(&self, kitty_id: KittyIndex) -> (r: Option<AccountId>)
        ensures
            r == self.owner_of(kitty_id),
    {
        match self.owner.get(&kitty_id) {
            Some(o) => Some(*o),
            None => None,
        }
    }

    /// The listing price of `kitty_id`, if it is for sale.
    pub fn kitty_prices(&self, kitty_id: KittyIndex) -> (r: Option<Balance>)
        ensures
            r == self.price_of(kitty_id),
    {
        match self.kitty_prices.get(&kitty_id) {
            Some(p) => Some(*p),
            None => None,
        }
    }

    /// The ledger balance of `who`.
    pub fn free_balance(&self, who: AccountId) -> (r: Balance)
        ensures
            r == self.balances.spec_balance(who),
    {
        self.balances.free_balance(who)
    }

    /// The most recently deposited event, if any operation succeeded yet.
    pub fn last_event(&self) -> (r: Option<Event>)
        ensures
            r == if self.events@.len() == 0 {
                Option::<Event>::None
            } else {
                Option::Some(self.events@.last())
            },
    {
        if self.events.len() == 0 {
            None
        } else {
            Some(self.events[self.events.len() - 1])
        }
    }
}

} // verus!
