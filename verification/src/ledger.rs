use vstd::prelude::*;

use crate::accounts::{account_keyed_ok, Account, TokenAccount, Wallet};
use crate::errors::Error;
use crate::keys::{key_eq, Key};

verus! {

/// The accounts of a ledger, as a map from address bytes to contents.
pub open spec fn map_of(s: Seq<(Key, Account)>) -> Map<Seq<u8>, Account>
    decreases s.len(),
{
    if s.len() == 0 {
        Map::empty()
    } else {
        map_of(s.drop_last()).insert(s.last().0@, s.last().1)
    }
}

/// No two entries share an address.
pub open spec fn distinct_keys(s: Seq<(Key, Account)>) -> bool {
    forall|i: int, j: int| 0 <= i < j < s.len() ==> s[i].0@ != s[j].0@
}

proof fn lemma_distinct_drop_last(s: Seq<(Key, Account)>)
    requires
        distinct_keys(s),
        s.len() > 0,
    ensures
        distinct_keys(s.drop_last()),
{
    assert forall|i: int, j: int| 0 <= i < j < s.drop_last().len() implies s.drop_last()[i].0@
        != s.drop_last()[j].0@ by {
        assert(s[i].0@ != s[j].0@);
    }
}

proof fn lemma_map_of_contains(s: Seq<(Key, Account)>, k: Seq<u8>)
    ensures
        map_of(s).dom().contains(k) <==> (exists|i: int| 0 <= i < s.len() && s[i].0@ == k),
    decreases s.len(),
{
    if s.len() > 0 {
        lemma_map_of_contains(s.drop_last(), k);
        if s.last().0@ == k {
            assert(s[s.len() - 1].0@ == k);
        } else {
            if map_of(s).dom().contains(k) {
                let i = choose|i: int| 0 <= i < s.len() - 1 && s.drop_last()[i].0@ == k;
                assert(s[i].0@ == k);
            }
            if exists|i: int| 0 <= i < s.len() && s[i].0@ == k {
                let i = choose|i: int| 0 <= i < s.len() && s[i].0@ == k;
                assert(i < s.len() - 1);
                assert(s.drop_last()[i].0@ == k);
            }
        }
    }
}

proof fn lemma_map_of_index(s: Seq<(Key, Account)>, i: int)
    requires
        distinct_keys(s),
        0 <= i < s.len(),
    ensures
        map_of(s).dom().contains(s[i].0@),
        map_of(s)[s[i].0@] == s[i].1,
    decreases s.len(),
{
    if i < s.len() - 1 {
        lemma_distinct_drop_last(s);
        lemma_map_of_index(s.drop_last(), i);
        assert(s.drop_last()[i] == s[i]);
        assert(s[i].0@ != s.last().0@);
    }
}

proof fn lemma_map_of_update(s: Seq<(Key, Account)>, i: int, p: (Key, Account))
    requires
        distinct_keys(s),
        0 <= i < s.len(),
        p.0@ == s[i].0@,
    ensures
        map_of(s.update(i, p)) == map_of(s).insert(p.0@, p.1),
    decreases s.len(),
{
    let s2 = s.update(i, p);
    if i == s.len() - 1 {
        assert(s2.drop_last() =~= s.drop_last());
        assert(map_of(s.drop_last()).insert(s.last().0@, s.last().1).insert(p.0@, p.1)
            =~= map_of(s.drop_last()).insert(p.0@, p.1));
    } else {
        lemma_distinct_drop_last(s);
        assert(s2.drop_last() =~= s.drop_last().update(i, p));
        lemma_map_of_update(s.drop_last(), i, p);
        assert(s2.last() == s.last());
        assert(s[i].0@ != s.last().0@);
        assert(map_of(s.drop_last()).insert(p.0@, p.1).insert(s.last().0@, s.last().1)
            =~= map_of(s.drop_last()).insert(s.last().0@, s.last().1).insert(p.0@, p.1));
    }
}

/// The shared, account-based ledger: every account this program can
/// observe or change, keyed by address.
pub struct Ledger {
    pub accounts: Vec<(Key, Account)>,
}

impl View for Ledger {
    type V = Map<Seq<u8>, Account>;

    open spec fn view(&self) -> Map<Seq<u8>, Account> {
        map_of(self.accounts@)
    }
}

/// Every address-bound account of a ledger sits at its derived address.
pub open spec fn ledger_inv(l: Map<Seq<u8>, Account>) -> bool {
    forall|k: Seq<u8>| #[trigger] l.dom().contains(k) ==> account_keyed_ok(k, l[k])
}

impl Ledger {
    /// Addresses are distinct and each account satisfies the address
    /// discipline for its kind.
    pub open spec fn wf(&self) -> bool {
        &&& distinct_keys(self.accounts@)
        &&& forall|i: int|
            0 <= i < self.accounts@.len() ==> account_keyed_ok(
                (#[trigger] self.accounts@[i]).0@,
                self.accounts@[i].1,
            )
    }

    /// An empty ledger.
    pub fn new() -> (r: Ledger)
        ensures
            r.wf(),
            r@ == Map::<Seq<u8>, Account>::empty(),
    {
        Ledger { accounts: Vec::new() }
    }

    /// The position of the account at an address, if any.
    pub fn find(&self, k: &Key) -> (r: Option<usize>)
        requires
            self.wf(),
        ensures
            match r {
                Some(i) => i < self.accounts@.len() && self.accounts@[i as int].0@ == k@
                    && self@.dom().contains(k@) && self@[k@] == self.accounts@[i as int].1,
                None => !self@.dom().contains(k@),
            },
    {
        let n = self.accounts.len();
        let mut i: usize = 0;
        while i < n
            invariant
                self.wf(),
                n == self.accounts@.len(),
                i <= n,
                forall|j: int| 0 <= j < i ==> self.accounts@[j].0@ != k@,
            decreases n - i,
        {
            if key_eq(&self.accounts[i].0, k) {
                proof {
                    lemma_map_of_index(self.accounts@, i as int);
                }
                return Some(i);
            }
            i += 1;
        }
        proof {
            lemma_map_of_contains(self.accounts@, k@);
        }
        None
    }

    /// Add an account at a fresh address.
    pub fn insert_new(&mut self, k: Key, a: Account)
        requires
            old(self).wf(),
            !old(self)@.dom().contains(k@),
            account_keyed_ok(k@, a),
        ensures
            final(self).wf(),
            final(self)@ == old(self)@.insert(k@, a),
    {
        proof {
            lemma_map_of_contains(self.accounts@, k@);
        }
        self.accounts.push((k, a));
        proof {
            assert(self.accounts@.drop_last() =~= old(self).accounts@);
            assert forall|i: int, j: int| 0 <= i < j < self.accounts@.len() implies self.accounts@[i].0@
                != self.accounts@[j].0@ by {
                if j < self.accounts@.len() - 1 {
                    assert(old(self).accounts@[i].0@ != old(self).accounts@[j].0@);
                } else {
                    assert(self.accounts@[i] == old(self).accounts@[i]);
                }
            }
        }
    }

    /// Replace the account at an occupied position, keeping its address.
    pub fn set_at(&mut self, i: usize, a: Account)
        requires
            old(self).wf(),
            i < old(self).accounts@.len(),
            account_keyed_ok(old(self).accounts@[i as int].0@, a),
        ensures
            final(self).wf(),
            final(self)@ == old(self)@.insert(old(self).accounts@[i as int].0@, a),
            final(self).accounts@.len() == old(self).accounts@.len(),
            forall|j: int|
                0 <= j < old(self).accounts@.len() ==> (#[trigger] final(self).accounts@[j]).0
                    == old(self).accounts@[j].0,
            forall|j: int|
                0 <= j < old(self).accounts@.len() && j != i ==> (#[trigger] final(self).accounts@[j]) == old(self).accounts@[j],
    {
        let k = self.accounts[i].0;
        let _removed = self.accounts.remove(i);
        self.accounts.insert(i, (k, a));
        proof {
            assert(self.accounts@ =~= old(self).accounts@.update(i as int, (k, a)));
            lemma_map_of_update(old(self).accounts@, i as int, (k, a));
            assert forall|p: int, q: int| 0 <= p < q < self.accounts@.len() implies self.accounts@[p].0@
                != self.accounts@[q].0@ by {
                assert(self.accounts@[p].0 == old(self).accounts@[p].0);
                assert(self.accounts@[q].0 == old(self).accounts@[q].0);
                assert(old(self).accounts@[p].0@ != old(self).accounts@[q].0@);
            }
        }
    }
}

/// A well-formed ledger satisfies the address discipline at every
/// occupied address; in particular every metadata account sits exactly
/// at the address derived from its mint.
pub proof fn lemma_wf_implies_inv(l: &Ledger)
    requires
        l.wf(),
    ensures
        ledger_inv(l@),
{
    assert forall|k: Seq<u8>| #[trigger] l@.dom().contains(k) implies account_keyed_ok(k, l@[k]) by {
        lemma_map_of_contains(l.accounts@, k);
        let i = choose|i: int| 0 <= i < l.accounts@.len() && l.accounts@[i].0@ == k;
        lemma_map_of_index(l.accounts@, i);
    }
}

/// Whether funding a wallet with fresh native currency is rejected,
/// and why: the address may hold a non-wallet account, or the balance
/// would overflow.
pub open spec fn fund_wallet_check(l: Map<Seq<u8>, Account>, wallet: Key, lamports: u64) -> Option<
    Error,
> {
    if l.dom().contains(wallet@) {
        match l[wallet@] {
            Account::Wallet(w) => if w.lamports + lamports > u64::MAX {
                Some(Error::AccountCreationFailed)
            } else {
                None
            },
            _ => Some(Error::InvalidAccount),
        }
    } else {
        None
    }
}

/// The wallet balance at an address, zero when no wallet sits there.
pub open spec fn wallet_balance(l: Map<Seq<u8>, Account>, k: Seq<u8>) -> int {
    if l.dom().contains(k) {
        match l[k] {
            Account::Wallet(w) => w.lamports as int,
            _ => 0,
        }
    } else {
        0
    }
}

/// Credit a wallet with fresh native currency, creating it if absent.
///
/// This models the system ledger funding an account from outside the
/// program, which every flow needs before it can pay for allocations.
pub fn fund_wallet(ledger: &mut Ledger, wallet: Key, lamports: u64) -> (r: Result<(), Error>)
    requires
        old(ledger).wf(),
    ensures
        final(ledger).wf(),
        match r {
            Ok(_) => fund_wallet_check(old(ledger)@, wallet, lamports) is None && final(ledger)@
                == old(ledger)@.insert(
                wallet@,
                Account::Wallet(
                    Wallet { lamports: (wallet_balance(old(ledger)@, wallet@) + lamports) as u64 },
                ),
            ),
            Err(e) => fund_wallet_check(old(ledger)@, wallet, lamports) == Some(e) && final(ledger)@ == old(ledger)@,
        },
{
    match ledger.find(&wallet) {
        None => {
            ledger.insert_new(wallet, Account::Wallet(Wallet { lamports }));
            Ok(())
        },
        Some(i) => {
            let balance = match &ledger.accounts[i].1 {
                Account::Wallet(w) => w.lamports,
                _ => {
                    return Err(Error::InvalidAccount);
                },
            };
            if balance > u64::MAX - lamports {
                return Err(Error::AccountCreationFailed);
            }
            ledger.set_at(i, Account::Wallet(Wallet { lamports: balance + lamports }));
            Ok(())
        },
    }
}

/// Whether the token ledger service rejects a transfer, and why.
///
/// The non-transferable check comes before ownership and balance
/// checks: a mint initialized as non-transferable rejects every
/// transfer outright.
pub open spec fn transfer_check(
    l: Map<Seq<u8>, Account>,
    source: Key,
    destination: Key,
    authority: Key,
    amount: u64,
) -> Option<Error> {
    if !l.dom().contains(source@) {
        Some(Error::InvalidAccount)
    } else {
        match l[source@] {
            Account::Token(src) => {
                if !l.dom().contains(src.mint@) {
                    Some(Error::InvalidAccount)
                } else {
                    match l[src.mint@] {
                        Account::Mint(m) => {
                            if !m.transferable {
                                Some(Error::NonTransferable)
                            } else if src.owner@ != authority@ {
                                Some(Error::WrongOwner)
                            } else if src.amount < amount {
                                Some(Error::InsufficientFunds)
                            } else if !l.dom().contains(destination@) {
                                Some(Error::InvalidAccount)
                            } else {
                                match l[destination@] {
                                    Account::Token(dst) => {
                                        if dst.mint@ != src.mint@ {
                                            Some(Error::InvalidAccount)
                                        } else if destination@ != source@ && dst.amount + amount
                                            > u64::MAX {
                                            Some(Error::InvalidAccount)
                                        } else {
                                            None
                                        }
                                    },
                                    _ => Some(Error::InvalidAccount),
                                }
                            }
                        },
                        _ => Some(Error::InvalidAccount),
                    }
                }
            },
            _ => Some(Error::InvalidAccount),
        }
    }
}

/// The ledger after an accepted transfer: the source debited, then the
/// destination credited.
pub open spec fn transfer_commit(
    l: Map<Seq<u8>, Account>,
    source: Key,
    destination: Key,
    amount: u64,
) -> Map<Seq<u8>, Account>
    recommends
        l.dom().contains(source@),
        l[source@] is Token,
{
    let src = l[source@]->Token_0;
    let l1 = l.insert(
        source@,
        Account::Token(TokenAccount { amount: (src.amount - amount) as u64, ..src }),
    );
    let dst = l1[destination@]->Token_0;
    l1.insert(
        destination@,
        Account::Token(TokenAccount { amount: (dst.amount + amount) as u64, ..dst }),
    )
}

/// Move custody of token units between two holder accounts of one
/// mint, on the owner's authority. The token ledger service rejects
/// the movement outright when the mint is non-transferable.
pub fn transfer(
    ledger: &mut Ledger,
    source: Key,
    destination: Key,
    authority: Key,
    amount: u64,
) -> (r: Result<(), Error>)
    requires
        old(ledger).wf(),
    ensures
        final(ledger).wf(),
        match r {
            Ok(_) => transfer_check(old(ledger)@, source, destination, authority, amount) is None
                && final(ledger)@ == transfer_commit(old(ledger)@, source, destination, amount),
            Err(e) => transfer_check(old(ledger)@, source, destination, authority, amount) == Some(
                e,
            ) && final(ledger)@ == old(ledger)@,
        },
{
    let src_index = match ledger.find(&source) {
        Some(i) => i,
        None => {
            return Err(Error::InvalidAccount);
        },
    };
    let src = match &ledger.accounts[src_index].1 {
        Account::Token(t) => *t,
        _ => {
            return Err(Error::InvalidAccount);
        },
    };
    let mint_index = match ledger.find(&src.mint) {
        Some(i) => i,
        None => {
            return Err(Error::InvalidAccount);
        },
    };
    let transferable = match &ledger.accounts[mint_index].1 {
        Account::Mint(m) => m.transferable,
        _ => {
            return Err(Error::InvalidAccount);
        },
    };
    if !transferable {
        return Err(Error::NonTransferable);
    }
    if !key_eq(&src.owner, &authority) {
        return Err(Error::WrongOwner);
    }
    if src.amount < amount {
        return Err(Error::InsufficientFunds);
    }
    let dst_index = match ledger.find(&destination) {
        Some(i) => i,
        None => {
            return Err(Error::InvalidAccount);
        },
    };
    let dst = match &ledger.accounts[dst_index].1 {
        Account::Token(t) => *t,
        _ => {
            return Err(Error::InvalidAccount);
        },
    };
    if !key_eq(&dst.mint, &src.mint) {
        return Err(Error::InvalidAccount);
    }
    if key_eq(&destination, &source) {
        ledger.set_at(src_index, Account::Token(src));
        proof {
            assert(final(ledger)@ =~= transfer_commit(old(ledger)@, source, destination, amount));
        }
        Ok(())
    } else {
        if dst.amount > u64::MAX - amount {
            return Err(Error::InvalidAccount);
        }
        ledger.set_at(src_index, Account::Token(TokenAccount { amount: src.amount - amount, ..src }));
        ledger.set_at(dst_index, Account::Token(TokenAccount { amount: dst.amount + amount, ..dst }));
        Ok(())
    }
}

} // verus!
