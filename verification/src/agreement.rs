use vstd::prelude::*;
use crate::access::{CompanyPermission, Member, Permission, User};
use crate::agent::AgentID;
use crate::company::Company;
use crate::error::{Error, ObjectKind};
use crate::ids::AgreementID;
use crate::modifications::{Modification, Modifications, Op, Record};
use crate::patch::{keep_or, Patch};
use crate::time::Timestamp;

verus! {

/// Ontology payload of an agreement.
#[derive(Clone, Debug, PartialEq, Eq)]
pub struct VfAgreement {
    pub created: Option<Timestamp>,
    pub name: Option<String>,
    pub note: Option<String>,
}

/// A grouping of commitments and events between agents — an order.
///
/// Only agents named in `participants` may create records under the
/// agreement; the transaction operations enforce this at call time.
#[derive(Clone, Debug, PartialEq, Eq)]
pub struct Agreement {
    pub id: AgreementID,
    pub inner: VfAgreement,
    pub participants: Vec<AgentID>,
    pub active: bool,
    pub created: Timestamp,
    pub updated: Timestamp,
    pub deleted: Option<Timestamp>,
}

impl Agreement {
    /// Whether `agent` appears in the participant list.
    pub open spec fn has_participant_spec(self, agent: AgentID) -> bool {
        exists|i: int|
            0 <= i < self.participants@.len() && #[trigger] self.participants@[i].same_as(agent)
    }

    /// Decide whether `agent` appears in the participant list.
    pub fn has_participant(&self, agent: &AgentID) -> (r: bool)
        ensures
            r == self.has_participant_spec(*agent),
    {
        let mut i: usize = 0;
        while i < self.participants.len()
            invariant
                i <= self.participants@.len(),
                forall|j: int| 0 <= j < i ==> !(#[trigger] self.participants@[j].same_as(*agent)),
            decreases self.participants@.len() - i,
        {
            if self.participants[i].same_agent(agent) {
                return true;
            }
            i = i + 1;
        }
        false
    }
}

/// Precondition cascade for creating an agreement, in its fixed order:
/// coarse capability, scoped capability, company lifecycle. The first
/// violated check decides the error.
pub open spec fn agreement_create_gate(caller: User, member: Member, company: Company) -> Result<
    (),
    Error,
> {
    if !caller.can(Permission::CompanyUpdateAgreements) {
        Err(Error::InsufficientPrivileges)
    } else if !member.grants(caller.id@, company.id@, CompanyPermission::AgreementCreate) {
        Err(Error::InsufficientPrivileges)
    } else if !company.is_active_spec() {
        Err(Error::ObjectIsInactive(ObjectKind::Company))
    } else {
        Ok(())
    }
}

/// The record a successful create emits: caller-supplied fields, stamped
/// `created == updated == now`, not deleted.
pub open spec fn created_agreement(
    id: AgreementID,
    participants: Vec<AgentID>,
    name: String,
    note: String,
    created: Option<Timestamp>,
    active: bool,
    now: Timestamp,
) -> Agreement {
    Agreement {
        id,
        inner: VfAgreement { created, name: Some(name), note: Some(note) },
        participants,
        active,
        created: now,
        updated: now,
        deleted: None,
    }
}

/// Create a new agreement/order.
///
/// On success the batch holds exactly one Create modification whose record
/// carries the caller-supplied fields and is stamped with the injected
/// `now`.
pub fn create(
    caller: &User,
    member: &Member,
    company: &Company,
    id: AgreementID,
    participants: Vec<AgentID>,
    name: String,
    note: String,
    created: Option<Timestamp>,
    active: bool,
    now: Timestamp,
) -> (r: Result<Modifications, Error>)
    ensures
        agreement_create_gate(*caller, *member, *company) matches Err(e) ==> r == Err::<
            Modifications,
            Error,
        >(e),
        agreement_create_gate(*caller, *member, *company) is Ok ==> (r matches Ok(m) && m@.len()
            == 1 && m@[0] == (Modification {
            op: Op::Create,
            record: Record::Agreement(
                created_agreement(id, participants, name, note, created, active, now),
            ),
        })),
{
    if let Err(e) = caller.access_check(Permission::CompanyUpdateAgreements) {
        return Err(e);
    }
    if let Err(e) = member.access_check(&caller.id, &company.id, CompanyPermission::AgreementCreate)
         {
        return Err(e);
    }
    if !company.is_active() {
        return Err(Error::ObjectIsInactive(ObjectKind::Company));
    }
    let model = Agreement {
        id,
        inner: VfAgreement { created, name: Some(name), note: Some(note) },
        participants,
        active,
        created: now,
        updated: now,
        deleted: None,
    };
    Ok(Modifications::new_single(Op::Create, Record::Agreement(model)))
}

/// Precondition cascade for updating an agreement. Deletion is terminal: a
/// soft-deleted subject can no longer be updated.
pub open spec fn agreement_update_gate(
    caller: User,
    member: Member,
    company: Company,
    subject: Agreement,
) -> Result<(), Error> {
    if !caller.can(Permission::CompanyUpdateAgreements) {
        Err(Error::InsufficientPrivileges)
    } else if !member.grants(caller.id@, company.id@, CompanyPermission::AgreementUpdate) {
        Err(Error::InsufficientPrivileges)
    } else if !company.is_active_spec() {
        Err(Error::ObjectIsInactive(ObjectKind::Company))
    } else if subject.deleted is Some {
        Err(Error::ObjectIsDeleted(ObjectKind::Agreement))
    } else {
        Ok(())
    }
}

/// The record a successful update emits: each field merged independently,
/// `updated` stamped to `now`; identity, creation stamp and deletion state
/// are never altered.
pub open spec fn updated_agreement(
    subject: Agreement,
    participants: Option<Vec<AgentID>>,
    name: Option<String>,
    note: Option<String>,
    created: Patch<Timestamp>,
    active: Option<bool>,
    now: Timestamp,
) -> Agreement {
    Agreement {
        id: subject.id,
        inner: VfAgreement {
            created: created.applied_to(subject.inner.created),
            name: match name {
                Option::Some(n) => Some(n),
                Option::None => subject.inner.name,
            },
            note: match note {
                Option::Some(n) => Some(n),
                Option::None => subject.inner.note,
            },
        },
        participants: keep_or(participants, subject.participants),
        active: keep_or(active, subject.active),
        created: subject.created,
        updated: now,
        deleted: subject.deleted,
    }
}

/// Update an agreement, including the participant list.
///
/// Fields left `None` (or `Patch::Keep`) are untouched; `created` may also
/// be explicitly cleared. `updated` always advances to the injected `now`.
pub fn update(
    caller: &User,
    member: &Member,
    company: &Company,
    subject: Agreement,
    participants: Option<Vec<AgentID>>,
    name: Option<String>,
    note: Option<String>,
    created: Patch<Timestamp>,
    active: Option<bool>,
    now: Timestamp,
) -> (r: Result<Modifications, Error>)
    ensures
        agreement_update_gate(*caller, *member, *company, subject) matches Err(e) ==> r == Err::<
            Modifications,
            Error,
        >(e),
        agreement_update_gate(*caller, *member, *company, subject) is Ok ==> (r matches Ok(m)
            && m@.len() == 1 && m@[0] == (Modification {
            op: Op::Update,
            record: Record::Agreement(
                updated_agreement(subject, participants, name, note, created, active, now),
            ),
        })),
{
    if let Err(e) = caller.access_check(Permission::CompanyUpdateAgreements) {
        return Err(e);
    }
    if let Err(e) = member.access_check(&caller.id, &company.id, CompanyPermission::AgreementUpdate)
         {
        return Err(e);
    }
    if !company.is_active() {
        return Err(Error::ObjectIsInactive(ObjectKind::Company));
    }
    if subject.deleted.is_some() {
        return Err(Error::ObjectIsDeleted(ObjectKind::Agreement));
    }
    let mut subject = subject;
    if let Some(participants) = participants {
        subject.participants = participants;
    }
    subject.inner.created = created.apply(subject.inner.created);
    if let Some(name) = name {
        subject.inner.name = Some(name);
    }
    if let Some(note) = note {
        subject.inner.note = Some(note);
    }
    if let Some(active) = active {
        subject.active = active;
    }
    subject.updated = now;
    Ok(Modifications::new_single(Op::Update, Record::Agreement(subject)))
}

} // verus!
