use crate::dna::{mix_dna, mixed, Kitty};
use crate::entropy::{random_of, random_value, Entropy};
use crate::laws::law_buy_moves_stake;
use crate::ledger::{
    accounts_wf, free_of, reserve_spec, reserved_of, set_account, transfer_spec, unreserve_spec,
    AccountData, BalanceError, Balances,
};
use vstd::prelude::*;

verus! {

/// The settings the registry is run with.
#[derive(Clone, Copy, Debug, PartialEq, Eq)]
pub struct Config {
    /// The amount reserved from an owner for each kitty it holds.
    pub stake_for_each_kitty: u128,
    /// The least free balance that a buyer must keep after paying.
    pub existential_deposit: u128,
}

/// What a successful operation records.
#[derive(Clone, Copy, Debug, PartialEq, Eq)]
pub enum Event {
    /// A kitty was minted or bred: its owner and id.
    KittyCreated(u64, u32),
    /// A kitty changed hands: old owner, new owner, id.
    KittyTransferred(u64, u64, u32),
    /// A kitty's sale price was set or cleared: owner, id, price.
    KittyListed(u64, u32, Option<u128>),
}

/// Why an operation was refused. A refused operation changes nothing.
#[derive(Clone, Copy, Debug, PartialEq, Eq)]
pub enum Error {
    /// Every kitty id has been used.
    KittiesCountOverflow,
    /// The caller does not own the kitty.
    NotOwner,
    /// Both parents are the same kitty.
    SameParentIndex,
    /// No kitty has that id.
    InvalidKittyIndex,
    /// The buyer already owns the kitty.
    BuyerIsOwner,
    /// The kitty is not listed for sale.
    NotForSale,
    /// The free balance does not cover the stake.
    NotEnoughBalanceForStaking,
    /// The free balance does not exceed price plus stake.
    NotEnoughBalanceForBuying,
    /// Paying the price would leave the buyer under the minimum balance.
    TransferBelowMinimum,
    /// The seller's balance cannot hold the price.
    BalanceOverflow,
}

/// The registry and the ledger as mathematical values.
pub struct PalletState {
    /// Genome of each kitty, by id.
    pub kitties: Seq<Seq<u8>>,
    /// Owner of each kitty, by id.
    pub owners: Seq<u64>,
    /// Sale price of each kitty, by id, if listed.
    pub listings: Seq<Option<u128>>,
    /// Balances of every account.
    pub accounts: Map<u64, AccountData>,
    /// Events recorded so far, oldest first.
    pub events: Seq<Event>,
    pub stake: u128,
    pub min_balance: u128,
}

/// How many kitties of `owners` belong to `a`.
pub open spec fn owned_count(owners: Seq<u64>, a: u64) -> nat
    decreases owners.len(),
{
    if owners.len() == 0 {
        0
    } else {
        owned_count(owners.drop_last(), a) + if owners.last() == a {
            1nat
        } else {
            0nat
        }
    }
}

/// The registry's invariant: the three tables cover the same ids, ids fit
/// a `u32`, and every account has reserved exactly one stake per kitty held.
pub open spec fn state_wf(s: PalletState) -> bool {
    &&& s.kitties.len() == s.owners.len()
    &&& s.listings.len() == s.owners.len()
    &&& s.owners.len() <= u32::MAX
    &&& forall|a: u64| #[trigger] reserved_of(s.accounts, a) == s.stake * owned_count(s.owners, a)
}

/// The id that the next kitty gets.
pub open spec fn next_id(s: PalletState) -> int {
    s.kitties.len() as int
}

/// Why a new kitty for `who` would be refused, if it would.
pub open spec fn new_kitty_error(s: PalletState, who: u64) -> Option<Error> {
    if s.kitties.len() >= u32::MAX {
        Some(Error::KittiesCountOverflow)
    } else if free_of(s.accounts, who) < s.stake {
        Some(Error::NotEnoughBalanceForStaking)
    } else {
        None
    }
}

/// The state after `who` gets a new kitty with genome `dna`.
pub open spec fn after_new_kitty(s: PalletState, who: u64, dna: Seq<u8>) -> PalletState {
    PalletState {
        kitties: s.kitties.push(dna),
        owners: s.owners.push(who),
        listings: s.listings.push(None),
        accounts: reserve_spec(s.accounts, who, s.stake),
        events: s.events.push(Event::KittyCreated(who, s.kitties.len() as u32)),
        ..s
    }
}

/// Why `who` handing kitty `id` to `new_owner` would be refused, if it would.
pub open spec fn transfer_error_of(s: PalletState, who: u64, new_owner: u64, id: u32) -> Option<
    Error,
> {
    if !(id < s.owners.len() && s.owners[id as int] == who) {
        Some(Error::NotOwner)
    } else if free_of(s.accounts, new_owner) < s.stake {
        Some(Error::NotEnoughBalanceForStaking)
    } else {
        None
    }
}

/// The state after `who` hands kitty `id` to `new_owner`: the stake moves
/// with it, and a listing stays as it was.
pub open spec fn after_transfer(s: PalletState, who: u64, new_owner: u64, id: u32) -> PalletState {
    PalletState {
        owners: s.owners.update(id as int, new_owner),
        accounts: unreserve_spec(reserve_spec(s.accounts, new_owner, s.stake), who, s.stake),
        events: s.events.push(Event::KittyTransferred(who, new_owner, id)),
        ..s
    }
}

/// Why breeding `id1` with `id2` would be refused, if it would.
pub open spec fn breed_error(s: PalletState, who: u64, id1: u32, id2: u32) -> Option<Error> {
    if id1 == id2 {
        Some(Error::SameParentIndex)
    } else if id1 >= s.kitties.len() || id2 >= s.kitties.len() {
        Some(Error::InvalidKittyIndex)
    } else {
        new_kitty_error(s, who)
    }
}

/// The state after `who` breeds `id1` with `id2` under `selector`.
pub open spec fn after_breed(s: PalletState, who: u64, id1: u32, id2: u32, selector: Seq<u8>) -> PalletState {
    after_new_kitty(s, who, mixed(s.kitties[id1 as int], s.kitties[id2 as int], selector))
}

/// Why `who` setting the price of `id` would be refused, if it would.
pub open spec fn sell_error(s: PalletState, who: u64, id: u32) -> Option<Error> {
    if !(id < s.owners.len() && s.owners[id as int] == who) {
        Some(Error::NotOwner)
    } else {
        None
    }
}

/// The state after `who` sets the price of `id`.
pub open spec fn after_sell(s: PalletState, who: u64, id: u32, price: Option<u128>) -> PalletState {
    PalletState {
        listings: s.listings.update(id as int, price),
        events: s.events.push(Event::KittyListed(who, id, price)),
        ..s
    }
}

/// The accounts after `buyer` pays `price` for a kitty of `seller`.
pub open spec fn buy_accounts(s: PalletState, buyer: u64, seller: u64, price: u128) -> Map<
    u64,
    AccountData,
> {
    let m1 = reserve_spec(s.accounts, buyer, s.stake);
    let m2 = unreserve_spec(m1, seller, s.stake);
    transfer_spec(m2, buyer, seller, price)
}

/// Why `buyer` buying kitty `id` would be refused, if it would.
pub open spec fn buy_error(s: PalletState, buyer: u64, id: u32) -> Option<Error> {
    if id >= s.owners.len() {
        Some(Error::InvalidKittyIndex)
    } else if s.owners[id as int] == buyer {
        Some(Error::BuyerIsOwner)
    } else if s.listings[id as int] is None {
        Some(Error::NotForSale)
    } else {
        let seller = s.owners[id as int];
        let price = s.listings[id as int]->0;
        if free_of(s.accounts, buyer) <= price + s.stake {
            Some(Error::NotEnoughBalanceForBuying)
        } else if free_of(s.accounts, buyer) - s.stake - price < s.min_balance {
            Some(Error::TransferBelowMinimum)
        } else if free_of(s.accounts, seller) + reserved_of(s.accounts, seller) + price
            > u128::MAX {
            Some(Error::BalanceOverflow)
        } else {
            None
        }
    }
}

/// The state after `buyer` buys kitty `id` at its listed price.
pub open spec fn after_buy(s: PalletState, buyer: u64, id: u32) -> PalletState {
    let seller = s.owners[id as int];
    let price = s.listings[id as int]->0;
    PalletState {
        owners: s.owners.update(id as int, buyer),
        listings: s.listings.update(id as int, None),
        accounts: buy_accounts(s, buyer, seller, price),
        events: s.events.push(Event::KittyTransferred(seller, buyer, id)),
        ..s
    }
}

/// Appending an owner adds one kitty to that owner's count.
pub proof fn lemma_owned_count_push(owners: Seq<u64>, x: u64, a: u64)
    ensures
        owned_count(owners.push(x), a) == owned_count(owners, a) + if x == a {
            1nat
        } else {
            0nat
        },
{
    assert(owners.push(x).drop_last() =~= owners);
}

/// Replacing the owner at `i` moves one kitty from the old owner to the new.
pub proof fn lemma_owned_count_update(owners: Seq<u64>, i: int, x: u64, a: u64)
    requires
        0 <= i < owners.len(),
    ensures
        owned_count(owners.update(i, x), a) + (if owners[i] == a {
            1nat
        } else {
            0nat
        }) == owned_count(owners, a) + if x == a {
            1nat
        } else {
            0nat
        },
    decreases owners.len(),
{
    let u = owners.update(i, x);
    if i == owners.len() - 1 {
        assert(u.drop_last() =~= owners.drop_last());
    } else {
        assert(u.drop_last() =~= owners.drop_last().update(i, x));
        lemma_owned_count_update(owners.drop_last(), i, x, a);
    }
}

/// Multiplying by one more, or one fewer.
pub proof fn lemma_mul_succ(k: int, c: int)
    ensures
        k * (c + 1) == k * c + k,
        k * (c - 1) == k * c - k,
{
    assert(k * (c + 1) == k * c + k) by (nonlinear_arith);
    assert(k * (c - 1) == k * c - k) by (nonlinear_arith);
}

/// A non-negative number is at most its product with a positive count.
pub proof fn lemma_mul_nonneg(k: int, c: int)
    requires
        0 <= k,
        1 <= c,
    ensures
        k <= k * c,
{
    assert(k <= k * c) by (nonlinear_arith)
        requires
            0 <= k,
            1 <= c,
    ;
}


/// The kitty registry together with the ledger that holds its stakes.
pub struct Pallet {
    config: Config,
    kitties: Vec<Kitty>,
    owners: Vec<u64>,
    listings: Vec<Option<u128>>,
    balances: Balances,
    events: Vec<Event>,
}

impl View for Pallet {
    type V = PalletState;

    closed spec fn view(&self) -> PalletState {
        PalletState {
            kitties: self.kitties@.map_values(|k: Kitty| k.0@),
            owners: self.owners@,
            listings: self.listings@,
            accounts: self.balances@,
            events: self.events@,
            stake: self.config.stake_for_each_kitty,
            min_balance: self.config.existential_deposit,
        }
    }
}

impl Pallet {
    pub closed spec fn wf(&self) -> bool {
        &&& state_wf(self@)
        &&& self.balances.wf()
        &&& self.balances.spec_min_balance() == self.config.existential_deposit
    }

    /// A well-formed registry satisfies the registry's invariant, and its
    /// ledger holds every account's total in a `u128`.
    pub proof fn lemma_wf(&self)
        requires
            self.wf(),
        ensures
            state_wf(self@),
            accounts_wf(self@.accounts),
    {
    }

    /// An empty registry, over a ledger in which every account holds nothing.
    pub fn new(config: Config) -> (r: Pallet)
        ensures
            r.wf(),
            r@.kitties.len() == 0,
            r@.owners.len() == 0,
            r@.listings.len() == 0,
            r@.accounts == Map::<u64, AccountData>::empty(),
            r@.events.len() == 0,
            r@.stake == config.stake_for_each_kitty,
            r@.min_balance == config.existential_deposit,
    {
        let r = Pallet {
            config,
            kitties: Vec::new(),
            owners: Vec::new(),
            listings: Vec::new(),
            balances: Balances::new(config.existential_deposit),
            events: Vec::new(),
        };
        assert forall|a: u64| #[trigger]
            reserved_of(r@.accounts, a) == r@.stake * owned_count(r@.owners, a) by {
            assert(owned_count(r@.owners, a) == 0);
            assert(r@.stake * 0 == 0);
        }
        r
    }

    /// Creates a kitty with genome `dna` for `owner`, reserving one stake.
    pub fn new_kitty_with_stake(&mut self, owner: u64, dna: [u8; 16]) -> (r: Result<(), Error>)
        requires
            old(self).wf(),
        ensures
            final(self).wf(),
            match new_kitty_error(old(self)@, owner) {
                Some(e) => r == Err::<(), Error>(e) && final(self)@ == old(self)@,
                None => r is Ok && final(self)@ == after_new_kitty(old(self)@, owner, dna@),
            },
    {
        let ghost s0 = self@;
        let len = self.kitties.len();
        if len >= u32::MAX as usize {
            return Err(Error::KittiesCountOverflow);
        }
        let kitty_id = len as u32;
        let stake = self.config.stake_for_each_kitty;
        match self.balances.reserve(owner, stake) {
            Err(_) => {
                return Err(Error::NotEnoughBalanceForStaking);
            },
            Ok(()) => {},
        }
        self.kitties.push(Kitty(dna));
        self.owners.push(owner);
        self.listings.push(None);
        self.events.push(Event::KittyCreated(owner, kitty_id));
        proof {
            let s1 = after_new_kitty(s0, owner, dna@);
            assert(self@.kitties =~= s1.kitties);
            assert(self@ == s1);
            assert forall|a: u64| #[trigger]
                reserved_of(s1.accounts, a) == s1.stake * owned_count(s1.owners, a) by {
                lemma_owned_count_push(s0.owners, owner, a);
                let c = owned_count(s0.owners, a) as int;
                lemma_mul_succ(s0.stake as int, c);
                assert(reserved_of(s0.accounts, a) == s0.stake * owned_count(s0.owners, a));
                if a == owner {
                    assert(owned_count(s1.owners, a) == c + 1);
                    assert(reserved_of(s1.accounts, a) == reserved_of(s0.accounts, a) + s0.stake);
                } else {
                    assert(owned_count(s1.owners, a) == c);
                    assert(reserved_of(s1.accounts, a) == reserved_of(s0.accounts, a));
                }
            }
        }
        Ok(())
    }

    /// Mints a kitty for `who` with a genome drawn from the host's entropy.
    pub fn create(&mut self, who: u64, entropy: &Entropy) -> (r: Result<(), Error>)
        requires
            old(self).wf(),
        ensures
            final(self).wf(),
            match new_kitty_error(old(self)@, who) {
                Some(e) => r == Err::<(), Error>(e) && final(self)@ == old(self)@,
                None => r is Ok && final(self)@ == after_new_kitty(
                    old(self)@,
                    who,
                    random_of(*entropy, who),
                ),
            },
    {
        let dna = random_value(entropy, who);
        self.new_kitty_with_stake(who, dna)
    }

    /// Whether `who` owns kitty `id`.
    fn is_owner(&self, who: u64, id: u32) -> (r: bool)
        requires
            self.wf(),
        ensures
            r == (id < self@.owners.len() && self@.owners[id as int] == who),
    {
        (id as usize) < self.owners.len() && self.owners[id as usize] == who
    }

    /// Hands kitty `id` from its owner `who` to `new_owner`. The stake is
    /// reserved from the new owner before it is released to the old one.
    pub fn transfer(&mut self, who: u64, new_owner: u64, id: u32) -> (r: Result<(), Error>)
        requires
            old(self).wf(),
        ensures
            final(self).wf(),
            match transfer_error_of(old(self)@, who, new_owner, id) {
                Some(e) => r == Err::<(), Error>(e) && final(self)@ == old(self)@,
                None => r is Ok && final(self)@ == after_transfer(old(self)@, who, new_owner, id),
            },
    {
        let ghost s0 = self@;
        if !self.is_owner(who, id) {
            return Err(Error::NotOwner);
        }
        let stake = self.config.stake_for_each_kitty;
        proof {
            lemma_owned_count_update(s0.owners, id as int, new_owner, who);
            assert(reserved_of(s0.accounts, who) == s0.stake * owned_count(s0.owners, who));
            if new_owner != who {
                lemma_mul_nonneg(s0.stake as int, owned_count(s0.owners, who) as int);
            }
        }
        match self.balances.reserve(new_owner, stake) {
            Err(_) => {
                return Err(Error::NotEnoughBalanceForStaking);
            },
            Ok(()) => {},
        }
        self.balances.unreserve(who, stake);
        self.owners[id as usize] = new_owner;
        self.events.push(Event::KittyTransferred(who, new_owner, id));
        proof {
            let s1 = after_transfer(s0, who, new_owner, id);
            assert(self@.kitties =~= s1.kitties);
            assert(self@ == s1);
            assert forall|a: u64| #[trigger]
                reserved_of(s1.accounts, a) == s1.stake * owned_count(s1.owners, a) by {
                lemma_owned_count_update(s0.owners, id as int, new_owner, a);
                let c = owned_count(s0.owners, a) as int;
                lemma_mul_succ(s0.stake as int, c);
                assert(reserved_of(s0.accounts, a) == s0.stake * owned_count(s0.owners, a));
            }
        }
        Ok(())
    }

    /// Sets the sale price of kitty `id`, or takes it off sale with `None`.
    pub fn sell(&mut self, who: u64, id: u32, price: Option<u128>) -> (r: Result<(), Error>)
        requires
            old(self).wf(),
        ensures
            final(self).wf(),
            match sell_error(old(self)@, who, id) {
                Some(e) => r == Err::<(), Error>(e) && final(self)@ == old(self)@,
                None => r is Ok && final(self)@ == after_sell(old(self)@, who, id, price),
            },
    {
        let ghost s0 = self@;
        if !self.is_owner(who, id) {
            return Err(Error::NotOwner);
        }
        self.listings[id as usize] = price;
        self.events.push(Event::KittyListed(who, id, price));
        proof {
            let s1 = after_sell(s0, who, id, price);
            assert(self@.kitties =~= s1.kitties);
            assert(self@ == s1);
        }
        Ok(())
    }

    /// Breeds a kitty for `who` from parents `id1` and `id2`, taking each bit
    /// from the first parent where `selector` has it set and from the second
    /// where it is clear. The parents may belong to anyone.
    pub fn breed_with_selector(&mut self, who: u64, id1: u32, id2: u32, selector: [u8; 16]) -> (r:
        Result<(), Error>)
        requires
            old(self).wf(),
        ensures
            final(self).wf(),
            match breed_error(old(self)@, who, id1, id2) {
                Some(e) => r == Err::<(), Error>(e) && final(self)@ == old(self)@,
                None => r is Ok && final(self)@ == after_breed(old(self)@, who, id1, id2, selector@),
            },
    {
        if id1 == id2 {
            return Err(Error::SameParentIndex);
        }
        let len = self.kitties.len();
        if id1 as usize >= len || id2 as usize >= len {
            return Err(Error::InvalidKittyIndex);
        }
        let dna1 = self.kitties[id1 as usize].0;
        let dna2 = self.kitties[id2 as usize].0;
        let new_dna = mix_dna(&dna1, &dna2, &selector);
        self.new_kitty_with_stake(who, new_dna)
    }

    /// Breeds a kitty for `who` from `id1` and `id2` with a selector drawn
    /// from the host's entropy.
    pub fn breed(&mut self, who: u64, id1: u32, id2: u32, entropy: &Entropy) -> (r: Result<(), Error>)
        requires
            old(self).wf(),
        ensures
            final(self).wf(),
            match breed_error(old(self)@, who, id1, id2) {
                Some(e) => r == Err::<(), Error>(e) && final(self)@ == old(self)@,
                None => r is Ok && final(self)@ == after_breed(
                    old(self)@,
                    who,
                    id1,
                    id2,
                    random_of(*entropy, who),
                ),
            },
    {
        let selector = random_value(entropy, who);
        self.breed_with_selector(who, id1, id2, selector)
    }

    /// `buyer` buys kitty `id` at its listed price: the buyer's stake is
    /// reserved, the seller's released, the price paid, the listing cleared.
    pub fn buy(&mut self, buyer: u64, id: u32) -> (r: Result<(), Error>)
        requires
            old(self).wf(),
        ensures
            final(self).wf(),
            match buy_error(old(self)@, buyer, id) {
                Some(e) => r == Err::<(), Error>(e) && final(self)@ == old(self)@,
                None => r is Ok && final(self)@ == after_buy(old(self)@, buyer, id),
            },
    {
        let ghost s0 = self@;
        let idu = id as usize;
        if idu >= self.owners.len() {
            return Err(Error::InvalidKittyIndex);
        }
        let seller = self.owners[idu];
        if seller == buyer {
            return Err(Error::BuyerIsOwner);
        }
        let price = match self.listings[idu] {
            None => {
                return Err(Error::NotForSale);
            },
            Some(p) => p,
        };
        let buyer_balance = self.balances.free_balance(buyer);
        let stake = self.config.stake_for_each_kitty;
        match price.checked_add(stake) {
            None => {
                return Err(Error::NotEnoughBalanceForBuying);
            },
            Some(total) => {
                if buyer_balance <= total {
                    return Err(Error::NotEnoughBalanceForBuying);
                }
            },
        }
        if buyer_balance - stake - price < self.config.existential_deposit {
            return Err(Error::TransferBelowMinimum);
        }
        let seller_free = self.balances.free_balance(seller);
        let seller_reserved = self.balances.reserved_balance(seller);
        if price > u128::MAX - seller_free - seller_reserved {
            return Err(Error::BalanceOverflow);
        }
        match self.balances.reserve(buyer, stake) {
            Err(_) => {
                return Err(Error::NotEnoughBalanceForStaking);
            },
            Ok(()) => {},
        }
        self.balances.unreserve(seller, stake);
        match self.balances.transfer(buyer, seller, price) {
            Err(BalanceError::Overflow) => {
                return Err(Error::BalanceOverflow);
            },
            Err(_) => {
                return Err(Error::TransferBelowMinimum);
            },
            Ok(()) => {},
        }
        self.listings[idu] = None;
        self.owners[idu] = buyer;
        self.events.push(Event::KittyTransferred(seller, buyer, id));
        proof {
            let s1 = after_buy(s0, buyer, id);
            assert(self@.kitties =~= s1.kitties);
            assert(self@ == s1);
            law_buy_moves_stake(s0, buyer, id);
        }
        Ok(())
    }

    /// How many kitties exist; also the id the next one gets.
    pub fn kitties_count(&self) -> (r: u32)
        requires
            self.wf(),
        ensures
            r == self@.kitties.len(),
    {
        self.kitties.len() as u32
    }

    /// The kitty with id `id`, if it exists.
    pub fn kitties(&self, id: u32) -> (r: Option<Kitty>)
        requires
            self.wf(),
        ensures
            match r {
                Some(k) => id < self@.kitties.len() && k.0@ == self@.kitties[id as int],
                None => id >= self@.kitties.len(),
            },
    {
        if (id as usize) < self.kitties.len() {
            Some(self.kitties[id as usize])
        } else {
            None
        }
    }

    /// The owner of kitty `id`, if it exists.
    pub fn owner(&self, id: u32) -> (r: Option<u64>)
        requires
            self.wf(),
        ensures
            r == if id < self@.owners.len() {
                Some(self@.owners[id as int])
            } else {
                None::<u64>
            },
    {
        if (id as usize) < self.owners.len() {
            Some(self.owners[id as usize])
        } else {
            None
        }
    }

    /// The sale price of kitty `id`, if it exists and is listed.
    pub fn kitties_list_for_sales(&self, id: u32) -> (r: Option<u128>)
        requires
            self.wf(),
        ensures
            r == if id < self@.listings.len() {
                self@.listings[id as int]
            } else {
                None::<u128>
            },
    {
        if (id as usize) < self.listings.len() {
            self.listings[id as usize]
        } else {
            None
        }
    }

    /// The events recorded so far, oldest first.
    pub fn events(&self) -> (r: &Vec<Event>)
        ensures
            r@ == self@.events,
    {
        &self.events
    }

    /// The settings the registry runs with.
    pub fn config(&self) -> (r: Config)
        ensures
            r.stake_for_each_kitty == self@.stake,
            r.existential_deposit == self@.min_balance,
    {
        self.config
    }

    pub fn free_balance(&self, who: u64) -> (r: u128)
        ensures
            r == free_of(self@.accounts, who),
    {
        self.balances.free_balance(who)
    }

    pub fn reserved_balance(&self, who: u64) -> (r: u128)
        ensures
            r == reserved_of(self@.accounts, who),
    {
        self.balances.reserved_balance(who)
    }

    /// Sets the free balance of `who`, as the host does when it endows an
    /// account; what `who` has reserved stays as it is.
    pub fn set_free_balance(&mut self, who: u64, amount: u128)
        requires
            old(self).wf(),
            amount + reserved_of(old(self)@.accounts, who) <= u128::MAX,
        ensures
            final(self).wf(),
            final(self)@ == (PalletState {
                accounts: set_account(
                    old(self)@.accounts,
                    who,
                    amount as int,
                    reserved_of(old(self)@.accounts, who),
                ),
                ..old(self)@
            }),
    {
        let ghost s0 = self@;
        self.balances.set_free_balance(who, amount);
        proof {
            assert(self@.kitties =~= s0.kitties);
            assert forall|a: u64| #[trigger]
                reserved_of(self@.accounts, a) == self@.stake * owned_count(self@.owners, a) by {
                assert(reserved_of(s0.accounts, a) == s0.stake * owned_count(s0.owners, a));
            }
        }
    }
}

} // verus!
