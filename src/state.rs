//! The state snapshot: storage, accounts, access lists and the refund
//! counter of the transaction being built.
use vstd::prelude::*;
use crate::word::{bytes_eq, copy_bytes, zero_word, zero_word_vec};

verus! {

/// One recorded value of a storage slot; later records of a slot shadow
/// earlier ones.
#[derive(Debug)]
pub struct StorageSlot {
    pub address: u64,
    pub key: Vec<u8>,
    pub value: Vec<u8>,
}

/// An account's code and the hash of that code.
#[derive(Debug)]
pub struct Account {
    pub address: u64,
    pub code: Vec<u8>,
    pub code_hash: Vec<u8>,
}

/// A storage slot named in the access list.
#[derive(Debug)]
pub struct SlotKey {
    pub address: u64,
    pub key: Vec<u8>,
}

/// The index of the latest record of a slot, or -1.
pub open spec fn find_slot(s: Seq<StorageSlot>, address: u64, key: Seq<u8>) -> int
    decreases s.len(),
{
    if s.len() == 0 {
        -1
    } else if s.last().address == address && s.last().key@ == key {
        s.len() - 1
    } else {
        find_slot(s.drop_last(), address, key)
    }
}

/// The value of a slot in a record log; a slot never written holds zero.
pub open spec fn slot_value(s: Seq<StorageSlot>, address: u64, key: Seq<u8>) -> Seq<u8> {
    let i = find_slot(s, address, key);
    if i < 0 {
        zero_word()
    } else {
        s[i].value@
    }
}

proof fn lemma_find_slot_bounds(s: Seq<StorageSlot>, address: u64, key: Seq<u8>)
    ensures
        -1 <= find_slot(s, address, key) < s.len(),
        find_slot(s, address, key) >= 0 ==> s[find_slot(s, address, key)].address == address
            && s[find_slot(s, address, key)].key@ == key,
    decreases s.len(),
{
    if s.len() > 0 {
        lemma_find_slot_bounds(s.drop_last(), address, key);
    }
}

/// The index of the latest account stored under an address, or -1.
pub open spec fn find_account(s: Seq<Account>, address: u64) -> int
    decreases s.len(),
{
    if s.len() == 0 {
        -1
    } else if s.last().address == address {
        s.len() - 1
    } else {
        find_account(s.drop_last(), address)
    }
}

proof fn lemma_find_account_bounds(s: Seq<Account>, address: u64)
    ensures
        -1 <= find_account(s, address) < s.len(),
        find_account(s, address) >= 0 ==> s[find_account(s, address)].address == address,
    decreases s.len(),
{
    if s.len() > 0 {
        lemma_find_account_bounds(s.drop_last(), address);
    }
}

/// Looks up the latest record of a slot.
fn find_slot_index(s: &Vec<StorageSlot>, address: u64, key: &Vec<u8>) -> (r: Option<usize>)
    ensures
        find_slot(s@, address, key@) < 0 ==> r is None,
        find_slot(s@, address, key@) >= 0 ==> r == Some(find_slot(s@, address, key@) as usize),
{
    let mut i: usize = s.len();
    assert(s@.subrange(0, s@.len() as int) =~= s@);
    while i > 0
        invariant
            i <= s.len(),
            find_slot(s@, address, key@) == find_slot(s@.subrange(0, i as int), address, key@),
        decreases i,
    {
        let e = &s[i - 1];
        assert(s@.subrange(0, i as int).drop_last() =~= s@.subrange(0, i - 1));
        if e.address == address && bytes_eq(&e.key, key) {
            return Some(i - 1);
        }
        i = i - 1;
    }
    None
}

/// The value of a slot in a record log.
fn read_slot(s: &Vec<StorageSlot>, address: u64, key: &Vec<u8>) -> (r: Vec<u8>)
    ensures
        r@ == slot_value(s@, address, key@),
{
    let n = s.len();
    proof {
        lemma_find_slot_bounds(s@, address, key@);
    }
    match find_slot_index(s, address, key) {
        Some(i) => {
            let r = copy_bytes(&s[i].value);
            assert(r@ == s@[i as int].value@);
            assert(find_slot(s@, address, key@) == i as int);
            assert(slot_value(s@, address, key@) == s@[i as int].value@);
            r
        },
        None => {
            let r = zero_word_vec();
            assert(find_slot(s@, address, key@) < 0);
            r
        },
    }
}

/// Accounts, current and committed storage, the access lists and the refund
/// counter of one transaction.
pub struct StateDb {
    pub accounts: Vec<Account>,
    pub storage: Vec<StorageSlot>,
    pub committed: Vec<StorageSlot>,
    pub warm_accounts: Vec<u64>,
    pub warm_slots: Vec<SlotKey>,
    pub refund: u64,
}

impl StateDb {
    /// The current value of a slot.
    pub open spec fn storage_value(&self, address: u64, key: Seq<u8>) -> Seq<u8> {
        slot_value(self.storage@, address, key)
    }

    /// The value a slot had when the transaction began.
    pub open spec fn committed_value(&self, address: u64, key: Seq<u8>) -> Seq<u8> {
        slot_value(self.committed@, address, key)
    }

    /// Whether an account is warm in the access list.
    pub open spec fn account_is_warm(&self, address: u64) -> bool {
        exists|i: int| 0 <= i < self.warm_accounts@.len() && self.warm_accounts@[i] == address
    }

    /// Whether a storage slot is warm in the access list.
    pub open spec fn slot_is_warm(&self, address: u64, key: Seq<u8>) -> bool {
        exists|i: int|
            0 <= i < self.warm_slots@.len() && #[trigger] self.warm_slots@[i].address == address
                && self.warm_slots@[i].key@ == key
    }

    /// The account stored under an address, if any: the latest one.
    pub open spec fn account(&self, address: u64) -> Option<Account> {
        let i = find_account(self.accounts@, address);
        if i < 0 {
            None
        } else {
            Some(self.accounts@[i])
        }
    }

    /// An empty state: no accounts, all slots zero, nothing warm.
    pub fn new() -> (r: Self)
        ensures
            r.storage@.len() == 0,
            r.committed@.len() == 0,
            r.accounts@.len() == 0,
            r.warm_accounts@.len() == 0,
            r.warm_slots@.len() == 0,
            r.refund == 0,
    {
        StateDb {
            accounts: Vec::new(),
            storage: Vec::new(),
            committed: Vec::new(),
            warm_accounts: Vec::new(),
            warm_slots: Vec::new(),
            refund: 0,
        }
    }

    /// Adds an account with its code and code hash.
    pub fn set_account(&mut self, address: u64, code: Vec<u8>, code_hash: Vec<u8>)
        ensures
            final(self).accounts@ == old(self).accounts@.push(Account { address, code, code_hash }),
            final(self).storage == old(self).storage,
            final(self).committed == old(self).committed,
            final(self).warm_accounts == old(self).warm_accounts,
            final(self).warm_slots == old(self).warm_slots,
            final(self).refund == old(self).refund,
    {
        self.accounts.push(Account { address, code, code_hash });
    }

    /// The code hash and code length of an account; an account that does
    /// not exist has the zero hash and no code.
    pub fn get_code_info(&self, address: u64) -> (r: (Vec<u8>, usize))
        ensures
            self.account(address) is None ==> r.0@ == zero_word() && r.1 == 0,
            self.account(address) is Some ==> r.0@ == self.account(address)->0.code_hash@
                && r.1 == self.account(address)->0.code@.len(),
    {
        let n = self.accounts.len();
        proof {
            lemma_find_account_bounds(self.accounts@, address);
        }
        let mut i: usize = n;
        assert(self.accounts@.subrange(0, n as int) =~= self.accounts@);
        while i > 0
            invariant
                i <= n,
                n == self.accounts@.len(),
                find_account(self.accounts@, address) == find_account(
                    self.accounts@.subrange(0, i as int),
                    address,
                ),
            decreases i,
        {
            assert(self.accounts@.subrange(0, i as int).drop_last() =~= self.accounts@.subrange(
                0,
                i - 1,
            ));
            if self.accounts[i - 1].address == address {
                let a = &self.accounts[i - 1];
                return (copy_bytes(&a.code_hash), a.code.len());
            }
            i = i - 1;
        }
        (zero_word_vec(), 0)
    }

    /// The current value of a slot.
    pub fn get_storage(&self, address: u64, key: &Vec<u8>) -> (r: Vec<u8>)
        ensures
            r@ == self.storage_value(address, key@),
    {
        read_slot(&self.storage, address, key)
    }

    /// The value a slot had when the transaction began.
    pub fn get_committed_storage(&self, address: u64, key: &Vec<u8>) -> (r: Vec<u8>)
        ensures
            r@ == self.committed_value(address, key@),
    {
        read_slot(&self.committed, address, key)
    }

    /// Sets the current value of a slot.
    pub fn set_storage(&mut self, address: u64, key: &Vec<u8>, value: &Vec<u8>)
        ensures
            forall|a: u64, k: Seq<u8>| #[trigger] final(self).storage_value(a, k) == if a == address
                && k == key@ {
                value@
            } else {
                old(self).storage_value(a, k)
            },
            final(self).committed == old(self).committed,
            final(self).accounts == old(self).accounts,
            final(self).warm_accounts == old(self).warm_accounts,
            final(self).warm_slots == old(self).warm_slots,
            final(self).refund == old(self).refund,
    {
        let slot = StorageSlot { address, key: copy_bytes(key), value: copy_bytes(value) };
        self.storage.push(slot);
        proof {
            assert forall|a: u64, k: Seq<u8>| #[trigger] self.storage_value(a, k) == if a == address
                && k == key@ {
                value@
            } else {
                old(self).storage_value(a, k)
            } by {
                assert(self.storage@.drop_last() =~= old(self).storage@);
                lemma_find_slot_bounds(self.storage@, a, k);
            }
        }
    }

    /// Sets a slot's value both as committed and as current: the state the
    /// transaction starts from.
    pub fn set_initial_storage(&mut self, address: u64, key: &Vec<u8>, value: &Vec<u8>)
        ensures
            forall|a: u64, k: Seq<u8>| #[trigger] final(self).storage_value(a, k) == if a == address
                && k == key@ {
                value@
            } else {
                old(self).storage_value(a, k)
            },
            forall|a: u64, k: Seq<u8>| #[trigger] final(self).committed_value(a, k) == if a
                == address && k == key@ {
                value@
            } else {
                old(self).committed_value(a, k)
            },
            final(self).accounts == old(self).accounts,
            final(self).warm_accounts == old(self).warm_accounts,
            final(self).warm_slots == old(self).warm_slots,
            final(self).refund == old(self).refund,
    {
        self.set_storage(address, key, value);
        let ghost mid = *self;
        let slot = StorageSlot { address, key: copy_bytes(key), value: copy_bytes(value) };
        self.committed.push(slot);
        proof {
            assert forall|a: u64, k: Seq<u8>| #[trigger] self.committed_value(a, k) == if a
                == address && k == key@ {
                value@
            } else {
                old(self).committed_value(a, k)
            } by {
                assert(self.committed@.drop_last() =~= old(self).committed@);
                lemma_find_slot_bounds(self.committed@, a, k);
            }
            assert forall|a: u64, k: Seq<u8>| #[trigger] self.storage_value(a, k) == if a == address
                && k == key@ {
                value@
            } else {
                old(self).storage_value(a, k)
            } by {
                assert(mid.storage_value(a, k) == self.storage_value(a, k));
            }
        }
    }

    /// Whether an account is warm in the access list.
    pub fn check_account_in_access_list(&self, address: u64) -> (r: bool)
        ensures
            r == self.account_is_warm(address),
    {
        let mut i: usize = 0;
        while i < self.warm_accounts.len()
            invariant
                i <= self.warm_accounts@.len(),
                forall|j: int| 0 <= j < i ==> self.warm_accounts@[j] != address,
            decreases self.warm_accounts.len() - i,
        {
            if self.warm_accounts[i] == address {
                return true;
            }
            i = i + 1;
        }
        false
    }

    /// Whether a storage slot is warm in the access list.
    pub fn check_account_storage_in_access_list(&self, address: u64, key: &Vec<u8>) -> (r: bool)
        ensures
            r == self.slot_is_warm(address, key@),
    {
        let mut i: usize = 0;
        while i < self.warm_slots.len()
            invariant
                i <= self.warm_slots@.len(),
                forall|j: int|
                    0 <= j < i ==> !(#[trigger] self.warm_slots@[j].address == address
                        && self.warm_slots@[j].key@ == key@),
            decreases self.warm_slots.len() - i,
        {
            let s = &self.warm_slots[i];
            if s.address == address && bytes_eq(&s.key, key) {
                return true;
            }
            i = i + 1;
        }
        false
    }

    /// Marks an account warm; warmth is never taken back within a
    /// transaction.
    pub fn add_account_to_access_list(&mut self, address: u64)
        ensures
            final(self).account_is_warm(address),
            forall|a: u64| #[trigger] final(self).account_is_warm(a) == (a == address
                || old(self).account_is_warm(a)),
            final(self).storage == old(self).storage,
            final(self).committed == old(self).committed,
            final(self).accounts == old(self).accounts,
            final(self).warm_slots == old(self).warm_slots,
            final(self).refund == old(self).refund,
    {
        self.warm_accounts.push(address);
        proof {
            assert forall|a: u64| #[trigger] self.account_is_warm(a) == (a == address
                || old(self).account_is_warm(a)) by {
                if old(self).account_is_warm(a) {
                    let i = choose|i: int|
                        0 <= i < old(self).warm_accounts@.len() && old(self).warm_accounts@[i] == a;
                    assert(self.warm_accounts@[i] == a);
                }
                if a == address {
                    assert(self.warm_accounts@[self.warm_accounts@.len() - 1] == a);
                }
            }
        }
    }

    /// Marks a storage slot warm; warmth is never taken back within a
    /// transaction.
    pub fn add_account_storage_to_access_list(&mut self, address: u64, key: &Vec<u8>)
        ensures
            final(self).slot_is_warm(address, key@),
            forall|a: u64, k: Seq<u8>| #[trigger] final(self).slot_is_warm(a, k) == ((a == address
                && k == key@) || old(self).slot_is_warm(a, k)),
            final(self).storage == old(self).storage,
            final(self).committed == old(self).committed,
            final(self).accounts == old(self).accounts,
            final(self).warm_accounts == old(self).warm_accounts,
            final(self).refund == old(self).refund,
    {
        self.warm_slots.push(SlotKey { address, key: copy_bytes(key) });
        proof {
            assert forall|a: u64, k: Seq<u8>| #[trigger] self.slot_is_warm(a, k) == ((a == address
                && k == key@) || old(self).slot_is_warm(a, k)) by {
                if old(self).slot_is_warm(a, k) {
                    let i = choose|i: int|
                        0 <= i < old(self).warm_slots@.len()
                            && #[trigger] old(self).warm_slots@[i].address == a
                            && old(self).warm_slots@[i].key@ == k;
                    assert(self.warm_slots@[i] == old(self).warm_slots@[i]);
                }
                if a == address && k == key@ {
                    let n = self.warm_slots@.len() - 1;
                    assert(self.warm_slots@[n].address == a);
                }
            }
        }
    }
}

} // verus!
