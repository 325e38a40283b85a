//! The persistent balance store: a sparse map from account identifier to
//! credit balance, kept in stable memory. An account without an entry has
//! balance 0. Entries are written and overwritten, never removed.

use vstd::prelude::*;
use ic_stable_structures::memory_manager::{MemoryId, MemoryManager, VirtualMemory};
use ic_stable_structures::{DefaultMemoryImpl, StableBTreeMap};
use crate::error::Error;
use crate::identity::AccountIdentifier;

verus! {

/// The memory of the memory manager that holds the balances.
pub const BALANCE_MEMORY_ID: u8 = 0;

/// The stable map of balances, keyed by the bytes of the account identifier.
///
/// Trusted: the map is opaque to the verifier, which knows its entries only
/// as `stored_balances` and only through the three functions below.
#[verifier::external_body]
pub struct StableBalances {
    map: StableBTreeMap<Vec<u8>, u64, VirtualMemory<DefaultMemoryImpl>>,
}

/// The entries that a stable map holds.
pub uninterp spec fn stored_balances(map: StableBalances) -> Map<Seq<u8>, u64>;

/// Opens the map that lives in the given memory of the default stable memory
/// (`MemoryManager::init`, `MemoryManager::get`, `StableBTreeMap::init`): the
/// map found there, or a new one where the memory holds none.
///
/// Trusted. Nothing is claimed of the entries, which are whatever the memory
/// held. `MemoryId::new` refuses the id 255. Loading stops the program where
/// the memory holds a map in a layout that this version cannot read. In a
/// canister every call reaches the same stable memory: a map opened twice
/// would be written through both handles, and what is stated of either
/// would not hold.
#[verifier::external_body]
fn open_stable_balances(memory_id: u8) -> (map: StableBalances)
    requires
        memory_id != 255,
{
    let manager = MemoryManager::init(DefaultMemoryImpl::default());
    StableBalances { map: StableBTreeMap::init(manager.get(MemoryId::new(memory_id))) }
}

/// Looks a key up with `StableBTreeMap::get`.
///
/// Trusted: the value stored under the key, if there is one. Reading stops
/// the program where the memory holds, under the key, bytes that this map
/// did not write.
#[verifier::external_body]
fn stable_get(map: &StableBalances, key: &Vec<u8>) -> (found: Option<u64>)
    ensures
        found == (if stored_balances(*map).contains_key(key@) {
            Some(stored_balances(*map)[key@])
        } else {
            None
        }),
{
    map.map.get(key)
}

/// Stores a value under a key with `StableBTreeMap::insert`.
///
/// Trusted: afterwards the map holds the value under the key and is otherwise
/// as before; the value that the key had before is returned. The map writes
/// a key's length in 32 bits. Growing stable memory beyond what the system
/// grants stops the program, as running out of heap does.
#[verifier::external_body]
fn stable_insert(map: &mut StableBalances, key: Vec<u8>, value: u64) -> (previous: Option<u64>)
    requires
        key@.len() <= u32::MAX,
    ensures
        stored_balances(*final(map)) == stored_balances(*old(map)).insert(key@, value),
        previous == (if stored_balances(*old(map)).contains_key(key@) {
            Some(stored_balances(*old(map))[key@])
        } else {
            None
        }),
{
    map.map.insert(key, value)
}

/// The balance that `balances` give `account`: 0 without an entry.
pub open spec fn balance_in(balances: Map<Seq<u8>, u64>, account: Seq<u8>) -> u64 {
    if balances.contains_key(account) {
        balances[account]
    } else {
        0
    }
}

/// Whether `amount` can be added to the balance of `account`.
pub open spec fn deposit_fits(balances: Map<Seq<u8>, u64>, account: Seq<u8>, amount: u64) -> bool {
    balance_in(balances, account) + amount <= u64::MAX
}

/// The balances after `account` deposits `amount`: unchanged where the sum
/// does not fit in 64 bits.
pub open spec fn after_deposit(balances: Map<Seq<u8>, u64>, account: Seq<u8>, amount: u64) -> Map<
    Seq<u8>,
    u64,
> {
    if deposit_fits(balances, account, amount) {
        balances.insert(account, (balance_in(balances, account) + amount) as u64)
    } else {
        balances
    }
}

/// The balances after `account` resets its balance.
pub open spec fn after_reset(balances: Map<Seq<u8>, u64>, account: Seq<u8>) -> Map<Seq<u8>, u64> {
    balances.insert(account, 0)
}

/// What the store holds for one account.
#[derive(Debug, Clone, PartialEq, Eq)]
pub struct BalanceRecord {
    pub account: AccountIdentifier,
    pub amount: u64,
}

/// The balance store.
pub struct BalanceStore {
    balances: StableBalances,
}

impl View for BalanceStore {
    type V = Map<Seq<u8>, u64>;

    closed spec fn view(&self) -> Map<Seq<u8>, u64> {
        stored_balances(self.balances)
    }
}

impl BalanceStore {
    /// Opens the store in stable memory. What it holds is what earlier runs
    /// left there, so nothing is promised of it. A canister opens its store
    /// once and keeps it.
    pub fn init() -> (store: BalanceStore) {
        BalanceStore { balances: open_stable_balances(BALANCE_MEMORY_ID) }
    }

    /// Adds `amount` to the caller's balance. A sum that does not fit in 64
    /// bits is refused with `InvalidAmount`, and nothing changes.
    pub fn deposit_currency(&mut self, caller: &AccountIdentifier, amount: u64) -> (done: Result<
        (),
        Error,
    >)
        ensures
            final(self)@ == after_deposit(old(self)@, caller@, amount),
            match done {
                Ok(_) => deposit_fits(old(self)@, caller@, amount),
                Err(error) => error == Error::InvalidAmount && !deposit_fits(
                    old(self)@,
                    caller@,
                    amount,
                ),
            },
            done is Err ==> final(self)@ == old(self)@,
            amount == 0 ==> done is Ok && balance_in(final(self)@, caller@) == balance_in(
                old(self)@,
                caller@,
            ),
    {
        let key = caller.as_bytes().clone();
        assert(key@ =~= caller@);
        let balance = match stable_get(&self.balances, &key) {
            Some(balance) => balance,
            None => 0,
        };
        match balance.checked_add(amount) {
            Some(new_balance) => {
                stable_insert(&mut self.balances, key, new_balance);
                Ok(())
            },
            None => Err(Error::InvalidAmount),
        }
    }

    /// The caller's balance: 0 for an account that never deposited.
    pub fn get_balance(&self, caller: &AccountIdentifier) -> (balance: u64)
        ensures
            balance == balance_in(self@, caller@),
    {
        match stable_get(&self.balances, caller.as_bytes()) {
            Some(balance) => balance,
            None => 0,
        }
    }

    /// The caller's entry, if the caller has one: an account has an entry
    /// from its first deposit or reset on.
    pub fn get_record(&self, caller: &AccountIdentifier) -> (record: Option<BalanceRecord>)
        ensures
            match record {
                Some(entry) => self@.contains_key(caller@) && entry.account@ == caller@
                    && entry.amount == self@[caller@],
                None => !self@.contains_key(caller@),
            },
    {
        match stable_get(&self.balances, caller.as_bytes()) {
            Some(amount) => Some(BalanceRecord { account: caller.clone(), amount }),
            None => None,
        }
    }

    /// Sets the caller's balance to 0, with an entry of its own from now on.
    pub fn reset_balance(&mut self, caller: &AccountIdentifier)
        ensures
            final(self)@ == after_reset(old(self)@, caller@),
    {
        let key = caller.as_bytes().clone();
        assert(key@ =~= caller@);
        stable_insert(&mut self.balances, key, 0);
    }
}

/// One operation on the store, as its effect on the balances is reckoned.
pub enum StoreOp {
    Deposit { account: Seq<u8>, amount: u64 },
    Reset { account: Seq<u8> },
}

/// The balances after one operation.
pub open spec fn after_op(balances: Map<Seq<u8>, u64>, op: StoreOp) -> Map<Seq<u8>, u64> {
    match op {
        StoreOp::Deposit { account, amount } => after_deposit(balances, account, amount),
        StoreOp::Reset { account } => after_reset(balances, account),
    }
}

/// The balances after a run of operations, the first of them first.
pub open spec fn after_ops(balances: Map<Seq<u8>, u64>, ops: Seq<StoreOp>) -> Map<Seq<u8>, u64>
    decreases ops.len(),
{
    if ops.len() == 0 {
        balances
    } else {
        after_op(after_ops(balances, ops.drop_last()), ops.last())
    }
}

/// What `account` has deposited in `ops` since its last reset, on top of
/// `start` where it never reset.
pub open spec fn sum_since_reset(start: u64, ops: Seq<StoreOp>, account: Seq<u8>) -> nat
    decreases ops.len(),
{
    if ops.len() == 0 {
        start as nat
    } else {
        match ops.last() {
            StoreOp::Deposit { account: depositor, amount } if depositor == account => {
                sum_since_reset(start, ops.drop_last(), account) + amount as nat
            },
            StoreOp::Reset { account: resetter } if resetter == account => 0,
            _ => sum_since_reset(start, ops.drop_last(), account),
        }
    }
}

/// After any run of deposits and resets, by whatever accounts and in whatever
/// order, an account's balance is exactly what it deposited since its last
/// reset, as long as that sum fits in 64 bits.
pub proof fn lemma_balance_is_sum_since_reset(
    balances: Map<Seq<u8>, u64>,
    ops: Seq<StoreOp>,
    account: Seq<u8>,
)
    requires
        sum_since_reset(balance_in(balances, account), ops, account) <= u64::MAX,
    ensures
        balance_in(after_ops(balances, ops), account) == sum_since_reset(
            balance_in(balances, account),
            ops,
            account,
        ),
    decreases ops.len(),
{
    if ops.len() > 0 {
        let earlier = ops.drop_last();
        match ops.last() {
            StoreOp::Deposit { account: depositor, amount } => {
                lemma_balance_is_sum_since_reset(balances, earlier, account);
            },
            StoreOp::Reset { account: resetter } => {
                if resetter != account {
                    lemma_balance_is_sum_since_reset(balances, earlier, account);
                }
            },
        }
    }
}

/// After any run of deposits and resets an account's balance is at most what
/// it deposited since its last reset: a refused deposit adds nothing, and
/// nothing else changes a balance.
pub proof fn lemma_balance_is_at_most_sum_since_reset(
    balances: Map<Seq<u8>, u64>,
    ops: Seq<StoreOp>,
    account: Seq<u8>,
)
    ensures
        balance_in(after_ops(balances, ops), account) <= sum_since_reset(
            balance_in(balances, account),
            ops,
            account,
        ),
    decreases ops.len(),
{
    if ops.len() > 0 {
        lemma_balance_is_at_most_sum_since_reset(balances, ops.drop_last(), account);
    }
}

/// After any run of deposits and resets an account's balance is 0 exactly
/// when it has deposited nothing but zeros since its last reset: a balance
/// never sinks to 0 but by a reset, and never leaves 0 but by a deposit.
pub proof fn lemma_balance_is_zero_exactly_without_deposits(
    balances: Map<Seq<u8>, u64>,
    ops: Seq<StoreOp>,
    account: Seq<u8>,
)
    ensures
        balance_in(after_ops(balances, ops), account) == 0 <==> sum_since_reset(
            balance_in(balances, account),
            ops,
            account,
        ) == 0,
    decreases ops.len(),
{
    if ops.len() > 0 {
        lemma_balance_is_zero_exactly_without_deposits(balances, ops.drop_last(), account);
        lemma_balance_is_at_most_sum_since_reset(balances, ops.drop_last(), account);
    }
}

/// A deposit of 0 always succeeds and changes no balance.
pub proof fn lemma_deposit_of_nothing(balances: Map<Seq<u8>, u64>, account: Seq<u8>, other: Seq<u8>)
    ensures
        deposit_fits(balances, account, 0),
        balance_in(after_deposit(balances, account, 0), other) == balance_in(balances, other),
{
}

/// A deposit that does not fit leaves the store as it was.
pub proof fn lemma_refused_deposit_changes_nothing(
    balances: Map<Seq<u8>, u64>,
    account: Seq<u8>,
    amount: u64,
)
    requires
        !deposit_fits(balances, account, amount),
    ensures
        after_deposit(balances, account, amount) == balances,
{
}

/// A deposit or a reset touches the balance of no other account.
pub proof fn lemma_other_accounts_untouched(
    balances: Map<Seq<u8>, u64>,
    op: StoreOp,
    other: Seq<u8>,
)
    requires
        match op {
            StoreOp::Deposit { account, .. } => account != other,
            StoreOp::Reset { account } => account != other,
        },
    ensures
        balance_in(after_op(balances, op), other) == balance_in(balances, other),
{
}

/// A reset never removes an entry: every account that had one keeps one.
pub proof fn lemma_entries_stay(balances: Map<Seq<u8>, u64>, op: StoreOp, account: Seq<u8>)
    requires
        balances.contains_key(account),
    ensures
        after_op(balances, op).contains_key(account),
{
}

} // verus!
