//! The ledger: the one address space in which every record lives.

use crate::address::Address;
use crate::records::{Candidate, Poll, Record, RecordView};
use vstd::prelude::*;

verus! {

/// One occupied address: how much storage was reserved there, and the record
/// that was written into it.
#[derive(Clone, Debug, PartialEq, Eq)]
pub struct Account {
    pub address: Address,
    pub space: usize,
    pub record: Record,
}

/// What an occupied address holds.
pub struct AccountView {
    pub space: usize,
    pub record: RecordView,
}

impl View for Account {
    type V = AccountView;

    open spec fn view(&self) -> AccountView {
        AccountView { space: self.space, record: self.record@ }
    }
}

/// What a ledger holds: each occupied address, by its bytes, with what it
/// holds. An address outside the map is free.
pub type LedgerView = Map<Seq<u8>, AccountView>;

/// The party that pays for a record's storage and must sign for it.
#[derive(Clone, Copy, Debug, PartialEq, Eq, Structural)]
pub struct Signer {
    /// Whether the party signed the request.
    pub is_signer: bool,
    /// What the party can still pay for, in bytes of storage.
    pub funds: u64,
}

impl Signer {
    /// A party that has signed or not, with `funds` bytes of storage to pay for.
    pub fn new(is_signer: bool, funds: u64) -> (signer: Signer)
        ensures
            signer == (Signer { is_signer, funds }),
    {
        Signer { is_signer, funds }
    }

    /// The party once it has paid for `space` bytes.
    pub open spec fn charged(self, space: usize) -> Signer {
        Signer { is_signer: self.is_signer, funds: (self.funds - space) as u64 }
    }
}

/// The ledger: the records that have been created, each at its address.
#[derive(Clone, Debug)]
pub struct Ledger {
    accounts: Vec<Account>,
}

/// The map that a list of accounts stands for: a later account at an address
/// takes the place of an earlier one.
spec fn accounts_map(accounts: Seq<Account>) -> LedgerView
    decreases accounts.len(),
{
    if accounts.len() == 0 {
        Map::empty()
    } else {
        accounts_map(accounts.drop_last()).insert(accounts.last().address@, accounts.last()@)
    }
}

/// Where the last account at `address` stands, nothing behind it is at
/// `address`, so the map holds that account there.
proof fn lemma_last_match(accounts: Seq<Account>, i: int, address: Seq<u8>)
    requires
        0 <= i < accounts.len(),
        accounts[i].address@ == address,
        forall|j: int| i < j < accounts.len() ==> accounts[j].address@ != address,
    ensures
        accounts_map(accounts).contains_key(address),
        accounts_map(accounts)[address] == accounts[i]@,
    decreases accounts.len(),
{
    if i < accounts.len() - 1 {
        lemma_last_match(accounts.drop_last(), i, address);
    }
}

/// Where no account is at `address`, the map has no entry for it.
proof fn lemma_no_match(accounts: Seq<Account>, address: Seq<u8>)
    requires
        forall|j: int| 0 <= j < accounts.len() ==> accounts[j].address@ != address,
    ensures
        !accounts_map(accounts).contains_key(address),
    decreases accounts.len(),
{
    if accounts.len() > 0 {
        lemma_no_match(accounts.drop_last(), address);
    }
}

impl View for Ledger {
    type V = LedgerView;

    closed spec fn view(&self) -> LedgerView {
        accounts_map(self.accounts@)
    }
}

impl Ledger {
    /// A ledger in which every address is free.
    pub fn new() -> (ledger: Ledger)
        ensures
            ledger@ == LedgerView::empty(),
    {
        Ledger { accounts: Vec::new() }
    }

    /// What `address` holds, if it is occupied.
    pub fn get(&self, address: &Address) -> (found: Option<&Account>)
        ensures
            found is Some <==> self@.contains_key(address@),
            found matches Some(account) ==> self@[address@] == account@ && account.address@
                == address@,
    {
        let mut i: usize = self.accounts.len();
        while i > 0
            invariant
                i <= self.accounts.len(),
                forall|j: int|
                    i <= j < self.accounts.len() ==> self.accounts@[j].address@ != address@,
            decreases i,
        {
            i -= 1;
            if self.accounts[i].address.same(address) {
                proof {
                    lemma_last_match(self.accounts@, i as int, address@);
                }
                return Some(&self.accounts[i]);
            }
        }
        proof {
            lemma_no_match(self.accounts@, address@);
        }
        None
    }

    /// Whether `address` holds a record.
    pub fn is_occupied(&self, address: &Address) -> (occupied: bool)
        ensures
            occupied == self@.contains_key(address@),
    {
        self.get(address).is_some()
    }

    /// The poll that `address` holds, if it holds one.
    pub fn poll(&self, address: &Address) -> (found: Option<&Poll>)
        ensures
            found is Some <==> self@.contains_key(address@) && self@[address@].record is Poll,
            found matches Some(poll) ==> self@[address@].record == RecordView::Poll(poll@),
    {
        match self.get(address) {
            Some(account) => match &account.record {
                Record::Poll(poll) => Some(poll),
                Record::Candidate(_) => None,
            },
            None => None,
        }
    }

    /// The candidate that `address` holds, if it holds one.
    pub fn candidate(&self, address: &Address) -> (found: Option<&Candidate>)
        ensures
            found is Some <==> self@.contains_key(address@) && self@[address@].record
                is Candidate,
            found matches Some(candidate) ==> self@[address@].record == RecordView::Candidate(
                candidate@,
            ),
    {
        match self.get(address) {
            Some(account) => match &account.record {
                Record::Candidate(candidate) => Some(candidate),
                Record::Poll(_) => None,
            },
            None => None,
        }
    }

    /// Reserves `space` bytes at `address` and writes `record` there.
    pub(crate) fn allocate(&mut self, address: Address, space: usize, record: Record)
        ensures
            final(self)@ == old(self)@.insert(
                address@,
                AccountView { space, record: record@ },
            ),
    {
        let account = Account { address, space, record };
        assert(self.accounts@.push(account).drop_last() =~= self.accounts@);
        self.accounts.push(account);
    }
}

} // verus!
