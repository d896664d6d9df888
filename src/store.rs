use vstd::prelude::*;
use crate::account::{Account, AccountId};
use crate::error::StoreError;
use crate::text::same_text;

verus! {

/// Accounts kept in memory, keyed by email. The account at position `i` has
/// id `i + 1`, so ids are unique and never reused.
pub struct AccountStore {
    accounts: Vec<Account>,
}

/// The index of the first entry whose email is `email`, if any.
pub open spec fn position_of(entries: Seq<(Seq<char>, Seq<char>)>, email: Seq<char>) -> Option<int> {
    if exists|i: int| 0 <= i < entries.len() && (#[trigger] entries[i]).0 == email {
        Some(choose|i: int| 0 <= i < entries.len() && (#[trigger] entries[i]).0 == email)
    } else {
        None
    }
}

impl View for AccountStore {
    /// The stored accounts in order of insertion, as email and password hash.
    type V = Seq<(Seq<char>, Seq<char>)>;

    closed spec fn view(&self) -> Seq<(Seq<char>, Seq<char>)> {
        self.accounts@.map_values(|a: Account| (a.email@, a.password@))
    }
}

impl AccountStore {
    /// Emails are unique and each account's id is its position plus one.
    pub closed spec fn wf(&self) -> bool {
        &&& self.accounts@.len() <= i32::MAX
        &&& forall|i: int|
            0 <= i < self.accounts@.len() ==> (#[trigger] self.accounts@[i]).id == Some(
                AccountId((i + 1) as i32),
            )
        &&& forall|i: int, j: int|
            0 <= i < j < self.accounts@.len() ==> (#[trigger] self.accounts@[i]).email@
                != (#[trigger] self.accounts@[j]).email@
    }

    /// An empty store.
    pub fn new() -> (r: AccountStore)
        ensures
            r.wf(),
            r@ == Seq::<(Seq<char>, Seq<char>)>::empty(),
    {
        let r = AccountStore { accounts: Vec::new() };
        assert(r@ =~= Seq::<(Seq<char>, Seq<char>)>::empty());
        r
    }

    /// The index of the account with this email.
    fn find(&self, email: &str) -> (r: Option<usize>)
        requires
            self.wf(),
        ensures
            match r {
                Some(i) => i < self@.len() && self@[i as int].0 == email@ && position_of(self@, email@)
                    == Some(i as int),
                None => position_of(self@, email@) is None,
            },
    {
        let mut i: usize = 0;
        while i < self.accounts.len()
            invariant
                self.wf(),
                i <= self.accounts@.len(),
                forall|k: int| 0 <= k < i ==> (#[trigger] self@[k]).0 != email@,
            decreases self.accounts.len() - i,
        {
            assert(self@[i as int] == (self.accounts@[i as int].email@, self.accounts@[i as int].password@));
            if same_text(self.accounts[i].email.as_str(), email) {
                proof {
                    let p = choose|k: int| 0 <= k < self@.len() && (#[trigger] self@[k]).0 == email@;
                    if p != i as int {
                        if p < i as int {
                            assert(self@[p].0 != email@);
                        } else {
                            assert(self.accounts@[i as int].email@ != self.accounts@[p].email@);
                        }
                    }
                }
                return Some(i);
            }
            i = i + 1;
        }
        None
    }

    /// Inserts an account under the next id. Fails with `DuplicateEmail`
    /// when the email is taken and with `Failed` when no id is left; the store
    /// is then unchanged.
    pub fn add_account(&mut self, account: Account) -> (r: Result<AccountId, StoreError>)
        requires
            old(self).wf(),
        ensures
            final(self).wf(),
            position_of(old(self)@, account.email@) is Some ==> r == Err::<AccountId, StoreError>(
                StoreError::DuplicateEmail,
            ) && final(self)@ == old(self)@,
            position_of(old(self)@, account.email@) is None && old(self)@.len() >= i32::MAX ==> r
                == Err::<AccountId, StoreError>(StoreError::Failed) && final(self)@ == old(self)@,
            position_of(old(self)@, account.email@) is None && old(self)@.len() < i32::MAX ==> r
                == Ok::<AccountId, StoreError>(AccountId((old(self)@.len() + 1) as i32))
                && final(self)@ == old(self)@.push((account.email@, account.password@)),
    {
        if self.find(account.email.as_str()).is_some() {
            return Err(StoreError::DuplicateEmail);
        }
        if self.accounts.len() >= i32::MAX as usize {
            return Err(StoreError::Failed);
        }
        let id = AccountId((self.accounts.len() + 1) as i32);
        let ghost old_accounts = self.accounts@;
        let stored = Account { id: Some(id), email: account.email, password: account.password };
        self.accounts.push(stored);
        proof {
            assert forall|i: int, j: int| 0 <= i < j < self.accounts@.len() implies (
            #[trigger] self.accounts@[i]).email@ != (#[trigger] self.accounts@[j]).email@ by {
                if j == old_accounts.len() {
                    assert(old(self)@[i].0 == old_accounts[i].email@);
                }
            }
            assert(self@ =~= old(self)@.push((account.email@, account.password@)));
        }
        Ok(id)
    }

    /// The account with this email, with its id and password hash; `NotFound`
    /// when there is none.
    pub fn get_account(&self, email: &str) -> (r: Result<Account, StoreError>)
        requires
            self.wf(),
        ensures
            match position_of(self@, email@) {
                Some(i) => r is Ok && r->Ok_0.id == Some(AccountId((i + 1) as i32))
                    && r->Ok_0.email@ == email@ && r->Ok_0.password@ == self@[i].1,
                None => r == Err::<Account, StoreError>(StoreError::NotFound),
            },
    {
        match self.find(email) {
            Some(i) => {
                let a = &self.accounts[i];
                assert(self@[i as int] == (a.email@, a.password@));
                Ok(Account { id: a.id, email: a.email.clone(), password: a.password.clone() })
            },
            None => Err(StoreError::NotFound),
        }
    }
}

} // verus!
