use vstd::prelude::*;

use crate::errors::ServiceError;
use crate::models::{AuthUser, NewAuthUser};
use crate::strings::str_eq;

verus! {

/// The credential store: account records keyed by their unique email.  The
/// unique constraints on email and id are the store's own invariant and the
/// authoritative guard against duplicate registration.
pub struct CredentialStore {
    accounts: Vec<AuthUser>,
}

impl CredentialStore {
    /// The stored account rows, in insertion order.
    pub closed spec fn rows(self) -> Seq<AuthUser> {
        self.accounts@
    }

    /// The store's invariant: emails are unique, and so are ids.
    pub open spec fn wf(self) -> bool {
        forall|i: int, j: int|
            0 <= i < j < self.rows().len() ==> self.rows()[i].email@ != self.rows()[j].email@
                && self.rows()[i].id != self.rows()[j].id
    }

    /// Whether some account is stored under this email.
    pub open spec fn contains_email(self, email: Seq<char>) -> bool {
        exists|i: int| 0 <= i < self.rows().len() && self.rows()[i].email@ == email
    }

    /// Whether some account is stored under this id.
    pub open spec fn contains_id(self, id: u128) -> bool {
        exists|i: int| 0 <= i < self.rows().len() && self.rows()[i].id == id
    }

    /// The account stored under this email (unique when the store is
    /// well formed).
    pub open spec fn account_for_email(self, email: Seq<char>) -> AuthUser {
        self.rows()[choose|i: int| 0 <= i < self.rows().len() && self.rows()[i].email@ == email]
    }

    /// The account stored under this id (unique when the store is well
    /// formed).
    pub open spec fn account_for_id(self, id: u128) -> AuthUser {
        self.rows()[choose|i: int| 0 <= i < self.rows().len() && self.rows()[i].id == id]
    }

    /// An empty credential store.
    pub fn new() -> (r: CredentialStore)
        ensures
            r.wf(),
            r.rows() == Seq::<AuthUser>::empty(),
    {
        CredentialStore { accounts: Vec::new() }
    }

    /// Looks an account up by its email, the sole natural key for login.
    pub fn get_user_by_email(&self, email: &str) -> (r: Option<AuthUser>)
        requires
            self.wf(),
        ensures
            r is Some <==> self.contains_email(email@),
            r matches Some(a) ==> a == self.account_for_email(email@),
    {
        let n = self.accounts.len();
        let mut i: usize = 0;
        while i < n
            invariant
                self.wf(),
                n == self.rows().len(),
                i <= n,
                forall|j: int| 0 <= j < i ==> self.rows()[j].email@ != email@,
            decreases n - i,
        {
            if str_eq(self.accounts[i].email.as_str(), email) {
                proof {
                    let k = choose|k: int|
                        0 <= k < self.rows().len() && self.rows()[k].email@ == email@;
                    assert(self.rows()[i as int].email@ == email@);
                    if k != i as int {
                        assert(self.rows()[k].email@ != self.rows()[i as int].email@);
                    }
                }
                return Some(self.accounts[i].clone());
            }
            i += 1;
        }
        None
    }

    /// Looks an account up by its id.
    pub fn get_user_by_id(&self, user_id: u128) -> (r: Option<AuthUser>)
        requires
            self.wf(),
        ensures
            r is Some <==> self.contains_id(user_id),
            r matches Some(a) ==> a == self.account_for_id(user_id),
    {
        let n = self.accounts.len();
        let mut i: usize = 0;
        while i < n
            invariant
                self.wf(),
                n == self.rows().len(),
                i <= n,
                forall|j: int| 0 <= j < i ==> self.rows()[j].id != user_id,
            decreases n - i,
        {
            if self.accounts[i].id == user_id {
                proof {
                    let k = choose|k: int| 0 <= k < self.rows().len() && self.rows()[k].id == user_id;
                    if k != i as int {
                        assert(self.rows()[k].id != self.rows()[i as int].id);
                    }
                }
                return Some(self.accounts[i].clone());
            }
            i += 1;
        }
        None
    }

    /// Inserts a new account row, stamping both timestamps with `now`.  The
    /// unique email constraint is checked first and answers a duplicate
    /// insert with `AccountExists`; a clash on the id is a storage-level
    /// failure, `PersistenceFailed`.  A failed insert leaves the store
    /// unchanged.
    pub fn create_user(&mut self, user: NewAuthUser, now: u64) -> (r: Result<
        AuthUser,
        ServiceError,
    >)
        requires
            old(self).wf(),
        ensures
            final(self).wf(),
            r == Err::<AuthUser, ServiceError>(ServiceError::AccountExists) <==> old(
                self,
            ).contains_email(user.email@),
            r == Err::<AuthUser, ServiceError>(ServiceError::PersistenceFailed) <==> (!old(
                self,
            ).contains_email(user.email@) && old(self).contains_id(user.id)),
            r is Err ==> *final(self) == *old(self) && (r == Err::<AuthUser, ServiceError>(
                ServiceError::AccountExists,
            ) || r == Err::<AuthUser, ServiceError>(ServiceError::PersistenceFailed)),
            r matches Ok(a) ==> a.id == user.id && a.name == user.name && a.email == user.email
                && a.password_hash == user.password_hash && a.created_at == now && a.updated_at
                == now && final(self).rows() == old(self).rows().push(a),
    {
        if self.get_user_by_email(user.email.as_str()).is_some() {
            return Err(ServiceError::AccountExists);
        }
        if self.get_user_by_id(user.id).is_some() {
            return Err(ServiceError::PersistenceFailed);
        }
        let account = AuthUser {
            id: user.id,
            name: user.name,
            email: user.email,
            password_hash: user.password_hash,
            created_at: now,
            updated_at: now,
        };
        let result = account.clone();
        self.accounts.push(account);
        proof {
            assert forall|i: int, j: int| 0 <= i < j < self.rows().len() implies self.rows()[i].email@
                != self.rows()[j].email@ && self.rows()[i].id != self.rows()[j].id by {
                if j == self.rows().len() - 1 {
                    assert(!old(self).contains_email(self.rows()[j].email@));
                    assert(!old(self).contains_id(self.rows()[j].id));
                }
            }
        }
        Ok(result)
    }
}

} // verus!
