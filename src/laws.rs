use crate::dna::mixed;
use crate::ledger::{accounts_wf, free_of, reserved_of};
use crate::pallet::{
    after_breed, after_buy, after_new_kitty, after_transfer, breed_error, buy_error,
    lemma_mul_nonneg, lemma_mul_succ, lemma_owned_count_update, new_kitty_error, next_id, owned_count, state_wf,
    transfer_error_of, Error, PalletState,
};
use vstd::prelude::*;

verus! {

/// Minting gives the new kitty the next id, which no kitty held before, and
/// advances the next id by exactly one.
pub proof fn law_mint_allocates_fresh_id(s: PalletState, who: u64, dna: Seq<u8>)
    requires
        state_wf(s),
        new_kitty_error(s, who) is None,
    ensures
        !(next_id(s) < s.kitties.len()) && !(next_id(s) < s.owners.len()),
        next_id(after_new_kitty(s, who, dna)) == next_id(s) + 1,
        after_new_kitty(s, who, dna).kitties[next_id(s)] == dna,
        after_new_kitty(s, who, dna).owners[next_id(s)] == who,
{
}

/// Breeding gives the child the next id, which no kitty held before, and
/// advances the next id by exactly one; the parents stay as they were.
pub proof fn law_breed_allocates_fresh_id(
    s: PalletState,
    who: u64,
    id1: u32,
    id2: u32,
    selector: Seq<u8>,
)
    requires
        state_wf(s),
        breed_error(s, who, id1, id2) is None,
    ensures
        !(next_id(s) < s.kitties.len()) && !(next_id(s) < s.owners.len()),
        next_id(after_breed(s, who, id1, id2, selector)) == next_id(s) + 1,
        after_breed(s, who, id1, id2, selector).kitties[next_id(s)] == mixed(
            s.kitties[id1 as int],
            s.kitties[id2 as int],
            selector,
        ),
        after_breed(s, who, id1, id2, selector).kitties.subrange(0, next_id(s)) == s.kitties,
        after_breed(s, who, id1, id2, selector).owners.subrange(0, next_id(s)) == s.owners,
{
    let t = after_breed(s, who, id1, id2, selector);
    assert(t.kitties.subrange(0, next_id(s)) =~= s.kitties);
    assert(t.owners.subrange(0, next_id(s)) =~= s.owners);
}

/// A transfer between two accounts moves exactly one stake from the old
/// owner's reserve to the new owner's, and every account still holds one
/// stake per kitty it owns.
pub proof fn law_transfer_moves_stake(s: PalletState, who: u64, new_owner: u64, id: u32)
    requires
        state_wf(s),
        accounts_wf(s.accounts),
        transfer_error_of(s, who, new_owner, id) is None,
        who != new_owner,
    ensures
        reserved_of(after_transfer(s, who, new_owner, id).accounts, who) == reserved_of(
            s.accounts,
            who,
        ) - s.stake,
        reserved_of(after_transfer(s, who, new_owner, id).accounts, new_owner) == reserved_of(
            s.accounts,
            new_owner,
        ) + s.stake,
        state_wf(after_transfer(s, who, new_owner, id)),
{
    let t = after_transfer(s, who, new_owner, id);
    lemma_owned_count_update(s.owners, id as int, new_owner, who);
    assert(reserved_of(s.accounts, who) == s.stake * owned_count(s.owners, who));
    lemma_mul_nonneg(s.stake as int, owned_count(s.owners, who) as int);
    assert forall|a: u64| #[trigger]
        reserved_of(t.accounts, a) == t.stake * owned_count(t.owners, a) by {
        lemma_owned_count_update(s.owners, id as int, new_owner, a);
        lemma_mul_succ(s.stake as int, owned_count(s.owners, a) as int);
        assert(reserved_of(s.accounts, a) == s.stake * owned_count(s.owners, a));
    }
}

/// A purchase moves exactly one stake from the seller's reserve to the
/// buyer's, and every account still holds one stake per kitty it owns.
pub proof fn law_buy_moves_stake(s: PalletState, buyer: u64, id: u32)
    requires
        state_wf(s),
        accounts_wf(s.accounts),
        buy_error(s, buyer, id) is None,
    ensures
        reserved_of(after_buy(s, buyer, id).accounts, s.owners[id as int]) == reserved_of(
            s.accounts,
            s.owners[id as int],
        ) - s.stake,
        reserved_of(after_buy(s, buyer, id).accounts, buyer) == reserved_of(s.accounts, buyer)
            + s.stake,
        state_wf(after_buy(s, buyer, id)),
{
    let t = after_buy(s, buyer, id);
    let seller = s.owners[id as int];
    lemma_owned_count_update(s.owners, id as int, buyer, seller);
    assert(reserved_of(s.accounts, seller) == s.stake * owned_count(s.owners, seller));
    lemma_mul_nonneg(s.stake as int, owned_count(s.owners, seller) as int);
    assert(t.listings =~= s.listings.update(id as int, None));
    assert forall|a: u64| #[trigger]
        reserved_of(t.accounts, a) == t.stake * owned_count(t.owners, a) by {
        lemma_owned_count_update(s.owners, id as int, buyer, a);
        lemma_mul_succ(s.stake as int, owned_count(s.owners, a) as int);
        assert(reserved_of(s.accounts, a) == s.stake * owned_count(s.owners, a));
    }
}

/// A purchase is refused for a kitty that is not listed, and a successful
/// one takes the kitty off sale.
pub proof fn law_buy_needs_listing(s: PalletState, buyer: u64, id: u32)
    requires
        state_wf(s),
    ensures
        id < s.listings.len() && s.listings[id as int] is None ==> buy_error(s, buyer, id) is Some,
        buy_error(s, buyer, id) is None ==> after_buy(s, buyer, id).listings[id as int] is None,
{
}

/// An owner can never buy its own kitty, but may transfer it to itself
/// whenever its free balance covers one stake; such a transfer leaves every
/// balance and every owner as they were.
pub proof fn law_self_dealing(s: PalletState, who: u64, id: u32)
    requires
        state_wf(s),
        accounts_wf(s.accounts),
        id < s.owners.len(),
        s.owners[id as int] == who,
    ensures
        buy_error(s, who, id) == Some(Error::BuyerIsOwner),
        free_of(s.accounts, who) >= s.stake ==> {
            let t = after_transfer(s, who, who, id);
            &&& transfer_error_of(s, who, who, id) is None
            &&& t.owners == s.owners
            &&& forall|a: u64|
                #![trigger free_of(t.accounts, a)]
                #![trigger reserved_of(t.accounts, a)]
                free_of(t.accounts, a) == free_of(s.accounts, a) && reserved_of(t.accounts, a)
                    == reserved_of(s.accounts, a)
        },
{
    assert(s.owners.update(id as int, who) =~= s.owners);
}

} // verus!
