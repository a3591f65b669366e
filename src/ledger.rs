use vstd::hash_map::HashMapWithView;
use vstd::prelude::*;

verus! {

broadcast use vstd::std_specs::hash::group_hash_axioms;

/// Identity of an account.
pub type AccountId = u64;

/// Per-account sequence number.
pub type Nonce = u64;

/// What the ledger stores for one account.
#[derive(Clone, Copy, PartialEq, Eq, Debug, Structural)]
pub struct AccountInfo {
    /// Number of transactions this account has had applied.
    pub nonce: Nonce,
    /// Number of modules that keep this account alive.
    pub providers: u32,
    /// Number of self-sufficient holdings that keep this account alive.
    pub sufficients: u32,
}

/// The record of an account the ledger has never written.
pub open spec fn empty_record() -> AccountInfo {
    AccountInfo { nonce: 0, providers: 0, sufficients: 0 }
}

/// The record the ledger reports for `who`: the stored one, or the empty
/// record when none is stored.
pub open spec fn record_of(accounts: Map<AccountId, AccountInfo>, who: AccountId) -> AccountInfo {
    if accounts.contains_key(who) {
        accounts[who]
    } else {
        empty_record()
    }
}

/// The nonce the ledger reports for `who`.
pub open spec fn nonce_of(accounts: Map<AccountId, AccountInfo>, who: AccountId) -> Nonce {
    record_of(accounts, who).nonce
}

/// The ledger after the nonce of `who` is set to `nonce`, the rest of its
/// record kept.
pub open spec fn with_nonce(
    accounts: Map<AccountId, AccountInfo>,
    who: AccountId,
    nonce: Nonce,
) -> Map<AccountId, AccountInfo> {
    accounts.insert(who, AccountInfo { nonce, ..record_of(accounts, who) })
}

/// A keyed store of account records.
pub struct Ledger {
    accounts: HashMapWithView<AccountId, AccountInfo>,
}

impl View for Ledger {
    type V = Map<AccountId, AccountInfo>;

    closed spec fn view(&self) -> Map<AccountId, AccountInfo> {
        self.accounts@
    }
}

impl Ledger {
    /// A ledger with no account stored.
    pub fn new() -> (r: Ledger)
        ensures
            r@ == Map::<AccountId, AccountInfo>::empty(),
    {
        Ledger { accounts: HashMapWithView::new() }
    }

    /// The record of `who`; the empty record if none is stored.
    pub fn get(&self, who: AccountId) -> (r: AccountInfo)
        ensures
            r == record_of(self@, who),
    {
        match self.accounts.get(&who) {
            Some(info) => *info,
            None => AccountInfo { nonce: 0, providers: 0, sufficients: 0 },
        }
    }

    /// Stores `info` as the record of `who`.
    pub fn insert(&mut self, who: AccountId, info: AccountInfo)
        ensures
            final(self)@ == old(self)@.insert(who, info),
    {
        self.accounts.insert(who, info);
    }

    /// Sets the nonce of `who` to `nonce`, keeping the rest of its record.
    pub fn set_nonce(&mut self, who: AccountId, nonce: Nonce)
        ensures
            final(self)@ == with_nonce(old(self)@, who, nonce),
    {
        let mut info = self.get(who);
        info.nonce = nonce;
        self.accounts.insert(who, info);
    }
}

} // verus!
