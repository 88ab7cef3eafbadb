use vstd::prelude::*;
use crate::error::Error;
use crate::ids::{CompanyID, CompanyMemberID, OccupationID, UserID};

verus! {

/// Caller-scoped capability: the coarse tier of access control.
#[derive(Clone, Copy, Debug, PartialEq, Eq, Structural)]
pub enum Permission {
    CompanyUpdateAgreements,
    CompanyUpdateCommitments,
    CompanyUpdateIntents,
    EventCreate,
}

/// Company-scoped capability: the fine tier of access control, granted to a
/// member for one company.
#[derive(Clone, Copy, Debug, PartialEq, Eq, Structural)]
pub enum CompanyPermission {
    AgreementCreate,
    AgreementUpdate,
    CommitmentCreate,
    CommitmentUpdate,
    CommitmentDelete,
    IntentCreate,
    DeliverService,
}

/// An authenticated caller carrying an explicit capability set. Capabilities
/// travel with the value — there is no ambient permission table.
#[derive(Clone, Debug, PartialEq, Eq)]
pub struct User {
    pub id: UserID,
    pub permissions: Vec<Permission>,
}

impl User {
    /// The caller holds the coarse capability.
    pub open spec fn can(self, permission: Permission) -> bool {
        self.permissions@.contains(permission)
    }

    /// Coarse tier of access control: the caller's own capability set must
    /// hold `permission`, else the call fails with
    /// [`Error::InsufficientPrivileges`].
    pub fn access_check(&self, permission: Permission) -> (r: Result<(), Error>)
        ensures
            r == (if self.can(permission) {
                Ok::<(), Error>(())
            } else {
                Err::<(), Error>(Error::InsufficientPrivileges)
            }),
    {
        let mut i: usize = 0;
        while i < self.permissions.len()
            invariant
                i <= self.permissions@.len(),
                forall|j: int| 0 <= j < i ==> #[trigger] self.permissions@[j] != permission,
            decreases self.permissions@.len() - i,
        {
            if self.permissions[i] == permission {
                proof {
                    assert(self.permissions@.contains(permission));
                }
                return Ok(());
            }
            i = i + 1;
        }
        proof {
            assert(!self.permissions@.contains(permission));
        }
        Err(Error::InsufficientPrivileges)
    }
}

/// A company membership: ties a user to a company, an occupation, and the
/// scoped capabilities the company granted.
#[derive(Clone, Debug, PartialEq, Eq)]
pub struct Member {
    pub id: CompanyMemberID,
    pub user_id: UserID,
    pub company_id: CompanyID,
    pub occupation_id: OccupationID,
    pub permissions: Vec<CompanyPermission>,
}

impl Member {
    /// The membership belongs to the given user and company and grants the
    /// scoped capability. A caller with no membership in the target company
    /// can never satisfy this.
    pub open spec fn grants(
        self,
        user_id: Seq<char>,
        company_id: Seq<char>,
        permission: CompanyPermission,
    ) -> bool {
        &&& self.user_id@ == user_id
        &&& self.company_id@ == company_id
        &&& self.permissions@.contains(permission)
    }

    /// Scoped tier of access control: the membership must belong to the
    /// caller, be in the target company, and grant `permission`, else the
    /// call fails with [`Error::InsufficientPrivileges`].
    pub fn access_check(
        &self,
        user_id: &UserID,
        company_id: &CompanyID,
        permission: CompanyPermission,
    ) -> (r: Result<(), Error>)
        ensures
            r == (if self.grants(user_id@, company_id@, permission) {
                Ok::<(), Error>(())
            } else {
                Err::<(), Error>(Error::InsufficientPrivileges)
            }),
    {
        let granted = self.user_id.id == user_id.id && self.company_id.id == company_id.id
            && self.has_permission(permission);
        if granted {
            Ok(())
        } else {
            Err(Error::InsufficientPrivileges)
        }
    }

    /// Whether the company granted this membership the scoped capability.
    pub fn has_permission(&self, permission: CompanyPermission) -> (r: bool)
        ensures
            r == self.permissions@.contains(permission),
    {
        let mut i: usize = 0;
        while i < self.permissions.len()
            invariant
                i <= self.permissions@.len(),
                forall|j: int| 0 <= j < i ==> #[trigger] self.permissions@[j] != permission,
            decreases self.permissions@.len() - i,
        {
            if self.permissions[i] == permission {
                proof {
                    assert(self.permissions@.contains(permission));
                }
                return true;
            }
            i = i + 1;
        }
        proof {
            assert(!self.permissions@.contains(permission));
        }
        false
    }
}

} // verus!
