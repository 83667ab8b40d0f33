//! Balance bookkeeping as the fee decorator needs it: the capability to move coins, and a
//! ledger in memory that has it.

use crate::error::Error;
use vstd::prelude::*;

verus! {

/// An amount of one denomination.
#[derive(Debug)]
pub struct Coin {
    pub denom: String,
    pub amount: u128,
}

/// The capability to move coins between accounts.
///
/// `after_send` gives the state after a transfer, or none where the keeper refuses it;
/// `send_coins` does just that, and leaves the state alone where it refuses.
pub trait BankKeeper: View + Sized {
    /// The state after `amount` of `denom` went from `from` to `to`, where that can be.
    spec fn after_send(
        state: Self::V,
        from: Seq<char>,
        to: Seq<char>,
        denom: Seq<char>,
        amount: u128,
    ) -> Option<Self::V>;

    fn send_coins(&mut self, from: &str, to: &str, coin: &Coin) -> (r: Result<(), Error>)
        ensures
            match r {
                Ok(()) => Self::after_send(old(self)@, from@, to@, coin.denom@, coin.amount)
                    == Some(final(self)@),
                Err(_) => Self::after_send(
                    old(self)@,
                    from@,
                    to@,
                    coin.denom@,
                    coin.amount,
                ).is_none() && final(self)@ == old(self)@,
            },
    ;
}

/// What one account holds of one denomination.
#[derive(Debug)]
pub struct Balance {
    pub account: String,
    pub denom: String,
    pub amount: u128,
}

/// The mathematical content of a [`Balance`].
pub struct BalanceView {
    pub account: Seq<char>,
    pub denom: Seq<char>,
    pub amount: u128,
}

impl View for Balance {
    type V = BalanceView;

    open spec fn view(&self) -> BalanceView {
        BalanceView { account: self.account@, denom: self.denom@, amount: self.amount }
    }
}

/// The contents of a list of balances.
pub open spec fn balance_views(balances: Seq<Balance>) -> Seq<BalanceView> {
    balances.map_values(|b: Balance| b@)
}

/// The account and denomination of each entry.
pub open spec fn holders(entries: Seq<BalanceView>) -> Seq<(Seq<char>, Seq<char>)> {
    entries.map_values(|b: BalanceView| (b.account, b.denom))
}

/// Where `account` keeps its `denom`: the first entry for the two.
pub open spec fn slot(entries: Seq<BalanceView>, account: Seq<char>, denom: Seq<char>) -> Option<
    int,
> {
    holders(entries).index_of_first((account, denom))
}

/// What `account` holds of `denom`.
pub open spec fn balance(entries: Seq<BalanceView>, account: Seq<char>, denom: Seq<char>) -> u128 {
    match slot(entries, account, denom) {
        Some(i) => entries[i].amount,
        None => 0,
    }
}

/// The entries after `account` got `amount` of `denom`, where its balance stays within
/// 128 bits. An account that held nothing of the denomination gets a new entry at the end.
pub open spec fn credited(
    entries: Seq<BalanceView>,
    account: Seq<char>,
    denom: Seq<char>,
    amount: u128,
) -> Option<Seq<BalanceView>> {
    match slot(entries, account, denom) {
        Some(i) => if entries[i].amount + amount <= u128::MAX {
            Some(
                entries.update(
                    i,
                    BalanceView { amount: (entries[i].amount + amount) as u128, ..entries[i] },
                ),
            )
        } else {
            None
        },
        None => Some(entries.push(BalanceView { account, denom, amount })),
    }
}

/// The entries after `account` gave `amount` of `denom`, where it holds that much.
pub open spec fn debited(
    entries: Seq<BalanceView>,
    account: Seq<char>,
    denom: Seq<char>,
    amount: u128,
) -> Option<Seq<BalanceView>> {
    match slot(entries, account, denom) {
        Some(i) => if entries[i].amount >= amount {
            Some(
                entries.update(
                    i,
                    BalanceView { amount: (entries[i].amount - amount) as u128, ..entries[i] },
                ),
            )
        } else {
            None
        },
        None => None,
    }
}

/// The entries after `amount` of `denom` went from `from` to `to`: `from` must hold that
/// much, and the balance of `to` must stay within 128 bits.
pub open spec fn moved(
    entries: Seq<BalanceView>,
    from: Seq<char>,
    to: Seq<char>,
    denom: Seq<char>,
    amount: u128,
) -> Option<Seq<BalanceView>> {
    match debited(entries, from, denom, amount) {
        Some(taken) => credited(taken, to, denom, amount),
        None => None,
    }
}

/// Balances kept in memory, one entry for each account and denomination.
#[derive(Debug)]
pub struct Ledger {
    pub balances: Vec<Balance>,
}

impl View for Ledger {
    type V = Seq<BalanceView>;

    open spec fn view(&self) -> Seq<BalanceView> {
        balance_views(self.balances@)
    }
}

impl Ledger {
    /// A ledger on which nobody holds anything.
    pub fn new() -> (ledger: Ledger)
        ensures
            ledger@ == Seq::<BalanceView>::empty(),
    {
        let ledger = Ledger { balances: Vec::new() };
        assert(ledger@ =~= Seq::<BalanceView>::empty());
        ledger
    }

    /// A copy of the ledger.
    pub fn snapshot(&self) -> (copy: Ledger)
        ensures
            copy@ == self@,
    {
        let mut balances: Vec<Balance> = Vec::new();
        let mut i: usize = 0;
        while i < self.balances.len()
            invariant
                i <= self.balances.len(),
                balance_views(balances@) == self@.subrange(0, i as int),
            decreases self.balances.len() - i,
        {
            let entry = &self.balances[i];
            let copy = Balance {
                account: entry.account.clone(),
                denom: entry.denom.clone(),
                amount: entry.amount,
            };
            assert(copy@ == self@[i as int]);
            let ghost before = balances@;
            balances.push(copy);
            assert(balance_views(balances@) =~= balance_views(before).push(copy@));
            assert(self@.subrange(0, i + 1) =~= self@.subrange(0, i as int).push(self@[i as int]));
            i += 1;
        }
        assert(self@.subrange(0, self.balances.len() as int) =~= self@);
        Ledger { balances }
    }

    /// Where `account` keeps its `denom`.
    pub fn find(&self, account: &str, denom: &str) -> (found: Option<usize>)
        ensures
            match found {
                Some(i) => slot(self@, account@, denom@) == Some(i as int) && i
                    < self.balances.len(),
                None => slot(self@, account@, denom@).is_none(),
            },
    {
        let ghost keys = holders(self@);
        let ghost key = (account@, denom@);
        proof {
            keys.index_of_first_ensures(key);
        }
        let wanted_account = account.to_owned();
        let wanted_denom = denom.to_owned();
        let mut i: usize = 0;
        while i < self.balances.len()
            invariant
                i <= self.balances.len(),
                keys == holders(self@),
                key == (account@, denom@),
                wanted_account@ == account@,
                wanted_denom@ == denom@,
                forall|j: int| 0 <= j < i ==> keys[j] != key,
            decreases self.balances.len() - i,
        {
            if self.balances[i].account == wanted_account && self.balances[i].denom == wanted_denom {
                assert(keys[i as int] == key);
                proof {
                    keys.index_of_first_ensures(key);
                }
                return Some(i);
            }
            assert(keys[i as int] != key);
            i += 1;
        }
        assert(!keys.contains(key));
        None
    }

    /// What `account` holds of `denom`.
    pub fn balance_of(&self, account: &str, denom: &str) -> (held: u128)
        ensures
            held == balance(self@, account@, denom@),
    {
        match self.find(account, denom) {
            Some(i) => self.balances[i].amount,
            None => 0,
        }
    }

    /// Sets the amount of the entry at `i`.
    fn set_amount(&mut self, i: usize, amount: u128)
        requires
            i < old(self).balances.len(),
        ensures
            final(self)@ == old(self)@.update(i as int, BalanceView { amount, ..old(self)@[i as int] }),
    {
        let mut entry = self.balances.remove(i);
        entry.amount = amount;
        self.balances.insert(i, entry);
        assert(self@ =~= old(self)@.update(i as int, BalanceView { amount, ..old(self)@[i as int] }));
    }

    /// Gives `account` `amount` of `denom` out of nothing. Says whether it did: it does
    /// not where the balance would leave 128 bits.
    pub fn mint(&mut self, account: &str, denom: &str, amount: u128) -> (done: bool)
        ensures
            match credited(old(self)@, account@, denom@, amount) {
                Some(after) => done && final(self)@ == after,
                None => !done && final(self)@ == old(self)@,
            },
    {
        match self.find(account, denom) {
            Some(i) => {
                let held = self.balances[i].amount;
                if amount > u128::MAX - held {
                    return false;
                }
                self.set_amount(i, held + amount);
                true
            },
            None => {
                self.balances.push(
                    Balance { account: account.to_owned(), denom: denom.to_owned(), amount },
                );
                assert(self@ =~= old(self)@.push(
                    BalanceView { account: account@, denom: denom@, amount },
                ));
                true
            },
        }
    }
}

impl BankKeeper for Ledger {
    open spec fn after_send(
        state: Seq<BalanceView>,
        from: Seq<char>,
        to: Seq<char>,
        denom: Seq<char>,
        amount: u128,
    ) -> Option<Seq<BalanceView>> {
        moved(state, from, to, denom, amount)
    }

    fn send_coins(&mut self, from: &str, to: &str, coin: &Coin) -> (r: Result<(), Error>) {
        let i = match self.find(from, coin.denom.as_str()) {
            Some(i) => i,
            None => {
                return Err(Error::ApplicationCallbackRejected);
            },
        };
        let held = self.balances[i].amount;
        if held < coin.amount {
            return Err(Error::ApplicationCallbackRejected);
        }
        self.set_amount(i, held - coin.amount);
        if !self.mint(to, coin.denom.as_str(), coin.amount) {
            self.set_amount(i, held);
            assert(self@ =~= old(self)@);
            return Err(Error::ApplicationCallbackRejected);
        }
        Ok(())
    }
}

} // verus!
