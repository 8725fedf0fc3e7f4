//! The token ledger: balances of the settlement token.
use vstd::prelude::*;

use crate::table::Table;
use crate::{AccountId, Balance};

verus! {

#[derive(Clone, Copy, Debug, PartialEq, Eq, Structural)]
pub enum Event {
    TokensMinted { account: AccountId, amount: Balance },
    TokensTransferred { from: AccountId, to: AccountId, amount: Balance },
}

#[derive(Clone, Copy, Debug, PartialEq, Eq, Structural)]
pub enum Error {
    InsufficientBalance,
    OverflowError,
}

/// Sum of the values of a list of entries.
pub open spec fn sum_values(s: Seq<(AccountId, Balance)>) -> int
    decreases s.len(),
{
    if s.len() == 0 {
        0
    } else {
        sum_values(s.drop_last()) + s.last().1
    }
}

proof fn lemma_sum_update(s: Seq<(AccountId, Balance)>, i: int, e: (AccountId, Balance))
    requires
        0 <= i < s.len(),
    ensures
        sum_values(s.update(i, e)) == sum_values(s) - s[i].1 + e.1,
    decreases s.len(),
{
    let t = s.update(i, e);
    if i == s.len() - 1 {
        assert(t.drop_last() =~= s.drop_last());
    } else {
        assert(t.drop_last() =~= s.drop_last().update(i, e));
        lemma_sum_update(s.drop_last(), i, e);
    }
}

/// `after` is what `transfer(from, to, amount)` leaves of `before`: the same
/// ledger when the transfer is refused, the moved balances otherwise.
pub open spec fn transfer_step(before: Pallet, after: Pallet, from: AccountId, to: AccountId, amount: Balance) -> bool {
    match before.transfer_error(from, to, amount) {
        Some(_) => after == before,
        None => before.moved_to(&after, from, to, amount),
    }
}

/// Balance conservation: a sequence of transfers, each accepted or refused,
/// leaves the total of all balances as it was.
pub proof fn lemma_transfers_conserve_supply(states: Seq<Pallet>, moves: Seq<(AccountId, AccountId, Balance)>)
    requires
        states.len() == moves.len() + 1,
        forall|i: int|
            0 <= i < moves.len() ==> transfer_step(
                #[trigger] states[i],
                states[i + 1],
                moves[i].0,
                moves[i].1,
                moves[i].2,
            ),
    ensures
        states.last().total_supply() == states[0].total_supply(),
    decreases moves.len(),
{
    if moves.len() > 0 {
        let n = moves.len() - 1;
        lemma_transfers_conserve_supply(states.drop_last(), moves.drop_last());
        assert(transfer_step(states[n], states[n + 1], moves[n].0, moves[n].1, moves[n].2));
    }
}

/// Account balances. An account that was never credited holds zero.
pub struct Pallet {
    balances: Table<AccountId, Balance>,
}

impl Pallet {
    pub closed spec fn wf(&self) -> bool {
        self.balances.wf()
    }

    /// The balances that have been written.
    pub closed spec fn balances(&self) -> Map<AccountId, Balance> {
        self.balances@
    }

    pub open spec fn balance(&self, a: AccountId) -> nat {
        if self.balances().contains_key(a) {
            self.balances()[a] as nat
        } else {
            0
        }
    }

    /// The sum of all balances.
    pub closed spec fn total_supply(&self) -> int {
        sum_values(self.balances.entry_seq())
    }

    /// The effect on the total of writing `v` as the balance of `a`.
    proof fn lemma_write_total(before: Table<AccountId, Balance>, after: Table<AccountId, Balance>, a: AccountId, v: Balance)
        requires
            before.wf(),
            after.wf(),
            after@ == before@.insert(a, v),
            before@.contains_key(a) ==> exists|i: int|
                0 <= i < before.entry_seq().len() && (#[trigger] before.entry_seq()[i]).0@ == a
                    && after.entry_seq() == before.entry_seq().update(i, (a, v)),
            !before@.contains_key(a) ==> after.entry_seq() == before.entry_seq().push((a, v)),
        ensures
            sum_values(after.entry_seq()) == sum_values(before.entry_seq()) - (if before@.contains_key(a) {
                before@[a] as int
            } else {
                0
            }) + v,
    {
        before.lemma_entries();
        if before@.contains_key(a) {
            let i = choose|i: int|
                0 <= i < before.entry_seq().len() && (#[trigger] before.entry_seq()[i]).0@ == a
                    && after.entry_seq() == before.entry_seq().update(i, (a, v));
            lemma_sum_update(before.entry_seq(), i, (a, v));
        } else {
            assert(after.entry_seq().drop_last() =~= before.entry_seq());
        }
    }

    pub fn new() -> (r: Self)
        ensures
            r.wf(),
            r.balances() == Map::<AccountId, Balance>::empty(),
            r.total_supply() == 0,
    {
        Pallet { balances: Table::new() }
    }

    /// The balance of an account.
    pub fn token_balance(&self, a: AccountId) -> (r: Balance)
        requires
            self.wf(),
        ensures
            r == self.balance(a),
    {
        match self.balances.get(&a) {
            Some(b) => *b,
            None => 0,
        }
    }

    fn write(&mut self, a: AccountId, v: Balance)
        requires
            old(self).wf(),
        ensures
            final(self).wf(),
            final(self).balances() == old(self).balances().insert(a, v),
            final(self).total_supply() == old(self).total_supply() - old(self).balance(a) + v,
    {
        let ghost before = self.balances;
        self.balances.insert(a, v);
        proof {
            Self::lemma_write_total(before, self.balances, a, v);
        }
    }

    /// The error that `transfer(from, to, amount)` meets here, if any.
    pub open spec fn transfer_error(&self, from: AccountId, to: AccountId, amount: Balance) -> Option<Error> {
        if self.balance(from) < amount {
            Some(Error::InsufficientBalance)
        } else if from != to && self.balance(to) + amount > u128::MAX {
            Some(Error::OverflowError)
        } else {
            None
        }
    }

    /// `next` is this ledger after `amount` moved from `from` to `to`.
    pub open spec fn moved_to(&self, next: &Self, from: AccountId, to: AccountId, amount: Balance) -> bool {
        &&& next.wf()
        &&& next.total_supply() == self.total_supply()
        &&& forall|a: AccountId|
            #[trigger] next.balance(a) == if a == from && a == to {
                self.balance(a) as int
            } else if a == from {
                self.balance(a) - amount
            } else if a == to {
                self.balance(a) + amount
            } else {
                self.balance(a) as int
            }
    }

    /// Credits `amount` to `who`.
    pub fn mint_tokens(&mut self, who: AccountId, amount: Balance) -> (r: Result<Event, Error>)
        requires
            old(self).wf(),
        ensures
            final(self).wf(),
            r is Err <==> old(self).balance(who) + amount > u128::MAX,
            r is Err ==> r == Err::<Event, Error>(Error::OverflowError) && *final(self) == *old(self),
            r is Ok ==> {
                &&& r == Ok::<Event, Error>(Event::TokensMinted { account: who, amount })
                &&& final(self).balances() == old(self).balances().insert(
                    who,
                    (old(self).balance(who) + amount) as Balance,
                )
                &&& final(self).total_supply() == old(self).total_supply() + amount
            },
    {
        let b = self.token_balance(who);
        match b.checked_add(amount) {
            None => Err(Error::OverflowError),
            Some(nb) => {
                self.write(who, nb);
                Ok(Event::TokensMinted { account: who, amount })
            },
        }
    }

    /// Moves `amount` from `from` to `to`: both legs happen, or neither.
    pub fn transfer(&mut self, from: AccountId, to: AccountId, amount: Balance) -> (r: Result<Event, Error>)
        requires
            old(self).wf(),
        ensures
            final(self).wf(),
            final(self).total_supply() == old(self).total_supply(),
            transfer_step(*old(self), *final(self), from, to, amount),
            match old(self).transfer_error(from, to, amount) {
                Some(e) => r == Err::<Event, Error>(e) && *final(self) == *old(self),
                None => r == Ok::<Event, Error>(Event::TokensTransferred { from, to, amount })
                    && old(self).moved_to(&*final(self), from, to, amount),
            },
    {
        let fb = self.token_balance(from);
        if fb < amount {
            return Err(Error::InsufficientBalance);
        }
        let tb = if from == to {
            fb - amount
        } else {
            self.token_balance(to)
        };
        match tb.checked_add(amount) {
            None => Err(Error::OverflowError),
            Some(nt) => {
                self.write(from, fb - amount);
                self.write(to, nt);
                Ok(Event::TokensTransferred { from, to, amount })
            },
        }
    }
}

} // verus!
