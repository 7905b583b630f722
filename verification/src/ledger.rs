//! The ledger: who holds how much. Funds move between accounts in whole
//! transfers, each of which either happens or leaves every balance as it was.

use vstd::prelude::*;
use crate::deal::Deal;
use crate::error::DealError;
use crate::identity::{AccountId, DealId, Pubkey};

verus! {

/// The balances of a ledger: every account has one, and it is zero until
/// something is paid in.
pub type Balances = Map<AccountId, nat>;

/// Whether `amount` can move from `from` to `to`: the source holds that
/// much, and the destination stays within sixty-four bits.
pub open spec fn can_move(balances: Balances, from: AccountId, to: AccountId, amount: nat) -> bool {
    &&& balances[from] >= amount
    &&& from != to ==> balances[to] + amount <= u64::MAX
}

/// The balances after `amount` has moved from `from` to `to`. Only these
/// two accounts change, and what one loses the other gains.
pub open spec fn moved(balances: Balances, from: AccountId, to: AccountId, amount: nat) -> Balances {
    if from == to {
        balances
    } else {
        balances.insert(from, (balances[from] - amount) as nat).insert(to, balances[to] + amount)
    }
}

/// A transfer takes from one account exactly what it gives to the other,
/// and touches no third.
pub proof fn lemma_moved_conserves(balances: Balances, from: AccountId, to: AccountId, amount: nat)
    requires
        can_move(balances, from, to, amount),
        from != to,
    ensures
        moved(balances, from, to, amount)[from] == balances[from] - amount,
        moved(balances, from, to, amount)[to] == balances[to] + amount,
        forall|other: AccountId|
            other != from && other != to ==> #[trigger] moved(balances, from, to, amount)[other]
                == balances[other],
{
}

/// What a transfer reports.
pub open spec fn move_outcome(balances: Balances, from: AccountId, to: AccountId, amount: nat) -> Result<
    (),
    DealError,
> {
    if can_move(balances, from, to, amount) {
        Ok(())
    } else {
        Err(DealError::LedgerTransferFailed)
    }
}

/// The balances after `amount` has been paid into `account` from outside
/// the ledger.
pub open spec fn credited(balances: Balances, account: AccountId, amount: nat) -> Balances {
    balances.insert(account, balances[account] + amount)
}

/// Whether two payments out of `from` can be made one after the other.
pub open spec fn can_move_both(
    balances: Balances,
    from: AccountId,
    first_to: AccountId,
    first_amount: nat,
    second_to: AccountId,
    second_amount: nat,
) -> bool {
    &&& can_move(balances, from, first_to, first_amount)
    &&& can_move(moved(balances, from, first_to, first_amount), from, second_to, second_amount)
}

/// The balances after two payments out of `from`, made one after the other.
pub open spec fn moved_both(
    balances: Balances,
    from: AccountId,
    first_to: AccountId,
    first_amount: nat,
    second_to: AccountId,
    second_amount: nat,
) -> Balances {
    moved(moved(balances, from, first_to, first_amount), from, second_to, second_amount)
}

/// The balances that a list of accounts and amounts describes: every
/// account not listed holds nothing, and of two entries for one account the
/// later one counts.
pub open spec fn listed(entries: Seq<(AccountId, u64)>) -> Balances
    decreases entries.len(),
{
    if entries.len() == 0 {
        no_balances()
    } else {
        listed(entries.drop_last()).insert(entries.last().0, entries.last().1 as nat)
    }
}

/// The right to move funds out of one deal's vault. Only the operations on
/// deals can make one, and each is bound to the deal it was made for.
pub struct VaultHandle {
    deal: DealId,
}

impl VaultHandle {
    /// The deal whose vault this handle opens.
    pub closed spec fn deal(&self) -> DealId {
        self.deal
    }

    /// The vault that this handle opens.
    pub open spec fn vault(&self) -> AccountId {
        AccountId::Vault(self.deal())
    }

    /// The handle for the vault of `deal`.
    pub(crate) fn for_deal(deal: &Deal) -> (handle: VaultHandle)
        ensures
            handle.deal() == deal.spec_id(),
    {
        VaultHandle { deal: deal.id() }
    }
}

#[derive(Clone, Copy, Debug)]
struct Entry {
    account: AccountId,
    lamports: u64,
}

/// What `entries` records for `account`: the amount beside it, or nothing.
spec fn held(entries: Seq<Entry>, account: AccountId) -> nat {
    if exists|i: int| 0 <= i < entries.len() && entries[i].account == account {
        let i = choose|i: int| 0 <= i < entries.len() && entries[i].account == account;
        entries[i].lamports as nat
    } else {
        0
    }
}

/// No account is recorded twice.
spec fn distinct(entries: Seq<Entry>) -> bool {
    forall|i: int, j: int|
        0 <= i < entries.len() && 0 <= j < entries.len() && i != j ==> (#[trigger] entries[i]).account
            != (#[trigger] entries[j]).account
}

/// Where every account is recorded at most once, the record of an account
/// is what is held for it.
proof fn lemma_held_at(entries: Seq<Entry>, i: int)
    requires
        distinct(entries),
        0 <= i < entries.len(),
    ensures
        held(entries, entries[i].account) == entries[i].lamports,
{
    let account = entries[i].account;
    let j = choose|j: int| 0 <= j < entries.len() && entries[j].account == account;
    assert(entries[j].account == entries[i].account);
}

/// Rewriting the record of an account changes what is held for it and for
/// no other.
proof fn lemma_update(before: Seq<Entry>, i: int, entry: Entry)
    requires
        distinct(before),
        0 <= i < before.len(),
        before[i].account == entry.account,
    ensures
        distinct(before.update(i, entry)),
        forall|other: AccountId|
            #[trigger] held(before.update(i, entry), other) == (if other == entry.account {
                entry.lamports as nat
            } else {
                held(before, other)
            }),
{
    let after = before.update(i, entry);
    assert forall|k: int| 0 <= k < after.len() implies (#[trigger] after[k]).account
        == before[k].account by {}
    assert forall|other: AccountId|
        #[trigger] held(after, other) == (if other == entry.account {
            entry.lamports as nat
        } else {
            held(before, other)
        }) by {
        if other == entry.account {
            lemma_held_at(after, i);
        } else if exists|k: int| 0 <= k < before.len() && before[k].account == other {
            let k = choose|k: int| 0 <= k < before.len() && before[k].account == other;
            assert(after[k] == before[k]);
            lemma_held_at(before, k);
            lemma_held_at(after, k);
        } else {
            assert forall|k: int| 0 <= k < after.len() implies (#[trigger] after[k]).account
                != other by {
                assert(before[k].account != other);
            }
        }
    }
}

/// Recording an account that was not there yet changes what is held for it
/// and for no other.
proof fn lemma_push(before: Seq<Entry>, entry: Entry)
    requires
        distinct(before),
        forall|k: int| 0 <= k < before.len() ==> (#[trigger] before[k]).account != entry.account,
    ensures
        distinct(before.push(entry)),
        forall|other: AccountId|
            #[trigger] held(before.push(entry), other) == (if other == entry.account {
                entry.lamports as nat
            } else {
                held(before, other)
            }),
{
    let after = before.push(entry);
    let last = before.len() as int;
    assert(distinct(after)) by {
        assert forall|k: int, l: int|
            0 <= k < after.len() && 0 <= l < after.len() && k != l implies (#[trigger] after[k]).account
            != (#[trigger] after[l]).account by {
            if k < last && l < last {
                assert(before[k].account != before[l].account);
            }
        }
    }
    assert forall|other: AccountId|
        #[trigger] held(after, other) == (if other == entry.account {
            entry.lamports as nat
        } else {
            held(before, other)
        }) by {
        if other == entry.account {
            lemma_held_at(after, last);
        } else if exists|k: int| 0 <= k < before.len() && before[k].account == other {
            let k = choose|k: int| 0 <= k < before.len() && before[k].account == other;
            assert(after[k] == before[k]);
            lemma_held_at(before, k);
            lemma_held_at(after, k);
        } else {
            assert forall|k: int| 0 <= k < after.len() implies (#[trigger] after[k]).account
                != other by {
                if k < last {
                    assert(after[k] == before[k]);
                    assert(before[k].account != other);
                }
            }
        }
    }
}

/// Every balance is zero.
pub open spec fn no_balances() -> Balances {
    Map::total(|account: AccountId| 0nat)
}

/// An in-memory ledger of wallets and vaults.
#[derive(Debug)]
pub struct Ledger {
    entries: Vec<Entry>,
}

impl View for Ledger {
    type V = Balances;

    closed spec fn view(&self) -> Balances {
        Map::total(|account: AccountId| held(self.entries@, account))
    }
}

impl Ledger {
    #[verifier::type_invariant]
    spec fn well_formed(&self) -> bool {
        distinct(self.entries@)
    }

    /// Every account has a balance, and each balance fits in sixty-four bits.
    pub proof fn lemma_balances_bounded(&self, account: AccountId)
        ensures
            self@.dom().contains(account),
            self@[account] <= u64::MAX,
    {
    }

    /// A ledger on which every balance is zero.
    pub fn new() -> (ledger: Ledger)
        ensures
            ledger@ == no_balances(),
    {
        let ledger = Ledger { entries: Vec::new() };
        assert(ledger@ =~= no_balances());
        ledger
    }

    /// A ledger that holds what `entries` lists, as when balances kept
    /// elsewhere are loaded.
    pub fn from_balances(entries: &Vec<(AccountId, u64)>) -> (ledger: Ledger)
        ensures
            ledger@ == listed(entries@),
    {
        let mut ledger = Ledger::new();
        let mut i: usize = 0;
        while i < entries.len()
            invariant
                i <= entries.len(),
                ledger@ == listed(entries@.take(i as int)),
            decreases entries.len() - i,
        {
            let (account, lamports) = entries[i];
            ledger.put(&account, lamports);
            proof {
                assert(entries@.take(i + 1).drop_last() =~= entries@.take(i as int));
            }
            i = i + 1;
        }
        assert(entries@.take(i as int) =~= entries@);
        ledger
    }

    fn position(&self, account: &AccountId) -> (found: Option<usize>)
        ensures
            match found {
                Some(i) => i < self.entries.len() && self.entries[i as int].account == *account,
                None => forall|i: int|
                    0 <= i < self.entries.len() ==> (#[trigger] self.entries[i]).account
                        != *account,
            },
    {
        let mut i: usize = 0;
        while i < self.entries.len()
            invariant
                i <= self.entries.len(),
                forall|j: int| 0 <= j < i ==> (#[trigger] self.entries[j]).account != *account,
            decreases self.entries.len() - i,
        {
            if self.entries[i].account == *account {
                return Some(i);
            }
            i = i + 1;
        }
        None
    }

    fn amount_in(&self, account: &AccountId) -> (lamports: u64)
        ensures
            lamports == self@[*account],
    {
        match self.position(account) {
            Some(i) => {
                proof {
                    use_type_invariant(self);
                    lemma_held_at(self.entries@, i as int);
                }
                self.entries[i].lamports
            },
            None => 0,
        }
    }

    fn put(&mut self, account: &AccountId, lamports: u64)
        ensures
            final(self)@ == old(self)@.insert(*account, lamports as nat),
    {
        proof {
            use_type_invariant(&*self);
        }
        let entry = Entry { account: *account, lamports };
        let found = self.position(account);
        // The record is rewritten outside the ledger and put back whole, so
        // that the ledger is well formed at every step.
        let mut entries: Vec<Entry> = Vec::new();
        core::mem::swap(&mut self.entries, &mut entries);
        match found {
            Some(i) => {
                proof {
                    lemma_update(entries@, i as int, entry);
                }
                entries.set(i, entry);
            },
            None => {
                proof {
                    lemma_push(entries@, entry);
                }
                entries.push(entry);
            },
        }
        core::mem::swap(&mut self.entries, &mut entries);
        assert(self@ =~= old(self)@.insert(*account, lamports as nat));
    }

    fn shift(&mut self, from: &AccountId, to: &AccountId, amount: u64) -> (done: Result<
        (),
        DealError,
    >)
        ensures
            done == move_outcome(old(self)@, *from, *to, amount as nat),
            done is Ok ==> final(self)@ == moved(old(self)@, *from, *to, amount as nat),
            done is Err ==> *final(self) == *old(self),
    {
        let source = self.amount_in(from);
        if source < amount {
            return Err(DealError::LedgerTransferFailed);
        }
        if *from == *to {
            return Ok(());
        }
        let target = self.amount_in(to);
        if target > u64::MAX - amount {
            return Err(DealError::LedgerTransferFailed);
        }
        self.put(from, source - amount);
        self.put(to, target + amount);
        Ok(())
    }

    /// What the wallet of `who` holds.
    pub fn balance_of(&self, who: &Pubkey) -> (lamports: u64)
        ensures
            lamports == self@[AccountId::Wallet(*who)],
    {
        self.amount_in(&AccountId::Wallet(*who))
    }

    /// What the vault of `deal` holds.
    pub fn vault_balance(&self, deal: &DealId) -> (lamports: u64)
        ensures
            lamports == self@[AccountId::Vault(*deal)],
    {
        self.amount_in(&AccountId::Vault(*deal))
    }

    /// Pays `amount` into the wallet of `who` from outside the ledger. It
    /// is refused, and nothing changes, if the wallet would then hold more
    /// than sixty-four bits can count.
    pub fn deposit(&mut self, who: &Pubkey, amount: u64) -> (done: Result<(), DealError>)
        ensures
            done is Ok <==> old(self)@[AccountId::Wallet(*who)] + amount <= u64::MAX,
            done is Ok ==> final(self)@ == credited(
                old(self)@,
                AccountId::Wallet(*who),
                amount as nat,
            ),
            done is Err ==> done == Err::<(), DealError>(DealError::LedgerTransferFailed)
                && *final(self) == *old(self),
    {
        let wallet = AccountId::Wallet(*who);
        let held = self.amount_in(&wallet);
        if held > u64::MAX - amount {
            return Err(DealError::LedgerTransferFailed);
        }
        self.put(&wallet, held + amount);
        Ok(())
    }

    /// Moves `amount` out of the wallet of `from`, on its owner's word, into
    /// `to`. Either the whole amount moves, or the transfer is refused and
    /// nothing changes.
    pub fn transfer(&mut self, from: &Pubkey, to: &AccountId, amount: u64) -> (done: Result<
        (),
        DealError,
    >)
        ensures
            done == move_outcome(old(self)@, AccountId::Wallet(*from), *to, amount as nat),
            done is Ok ==> final(self)@ == moved(
                old(self)@,
                AccountId::Wallet(*from),
                *to,
                amount as nat,
            ),
            done is Err ==> *final(self) == *old(self),
    {
        self.shift(&AccountId::Wallet(*from), to, amount)
    }

    /// Moves `amount` out of the vault that `handle` opens into the wallet
    /// of `to`. Either the whole amount moves, or the transfer is refused
    /// and nothing changes.
    pub fn transfer_from_vault(&mut self, handle: &VaultHandle, to: &Pubkey, amount: u64) -> (done:
        Result<(), DealError>)
        ensures
            done == move_outcome(
                old(self)@,
                handle.vault(),
                AccountId::Wallet(*to),
                amount as nat,
            ),
            done is Ok ==> final(self)@ == moved(
                old(self)@,
                handle.vault(),
                AccountId::Wallet(*to),
                amount as nat,
            ),
            done is Err ==> *final(self) == *old(self),
    {
        self.shift(&AccountId::Vault(handle.deal), &AccountId::Wallet(*to), amount)
    }

    /// Makes two payments out of the vault that `handle` opens, as one:
    /// either both are made, or the whole is refused and nothing changes.
    pub fn split_from_vault(
        &mut self,
        handle: &VaultHandle,
        first_to: &Pubkey,
        first_amount: u64,
        second_to: &Pubkey,
        second_amount: u64,
    ) -> (done: Result<(), DealError>)
        ensures
            can_move_both(
                old(self)@,
                handle.vault(),
                AccountId::Wallet(*first_to),
                first_amount as nat,
                AccountId::Wallet(*second_to),
                second_amount as nat,
            ) ==> done is Ok,
            done is Ok ==> can_move_both(
                old(self)@,
                handle.vault(),
                AccountId::Wallet(*first_to),
                first_amount as nat,
                AccountId::Wallet(*second_to),
                second_amount as nat,
            ) && final(self)@ == moved_both(
                old(self)@,
                handle.vault(),
                AccountId::Wallet(*first_to),
                first_amount as nat,
                AccountId::Wallet(*second_to),
                second_amount as nat,
            ),
            done is Err ==> done == Err::<(), DealError>(DealError::LedgerTransferFailed)
                && *final(self) == *old(self),
    {
        let vault = AccountId::Vault(handle.deal);
        let first = AccountId::Wallet(*first_to);
        let second = AccountId::Wallet(*second_to);
        let in_vault = self.amount_in(&vault);
        if in_vault < first_amount || in_vault - first_amount < second_amount {
            return Err(DealError::LedgerTransferFailed);
        }
        let in_first = self.amount_in(&first);
        if in_first > u64::MAX - first_amount {
            return Err(DealError::LedgerTransferFailed);
        }
        let in_second = if first == second {
            in_first + first_amount
        } else {
            self.amount_in(&second)
        };
        if in_second > u64::MAX - second_amount {
            return Err(DealError::LedgerTransferFailed);
        }
        self.put(&vault, in_vault - first_amount - second_amount);
        self.put(&first, in_first + first_amount);
        self.put(&second, in_second + second_amount);
        assert(self@ =~= moved_both(
            old(self)@,
            vault,
            first,
            first_amount as nat,
            second,
            second_amount as nat,
        ));
        Ok(())
    }
}

} // verus!
