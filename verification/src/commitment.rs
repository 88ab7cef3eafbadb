use vstd::prelude::*;
use crate::access::{CompanyPermission, Member, Permission, User};
use crate::action::{action_of_order, Action, OrderAction};
use crate::agent::AgentID;
use crate::agreement::Agreement;
use crate::company::Company;
use crate::costs::Costs;
use crate::error::{Error, ObjectKind};
use crate::geo::Location;
use crate::ids::{AgreementID, CommitmentID, ProcessID, ResourceID, ResourceSpecID};
use crate::measure::Measure;
use crate::modifications::{Modification, Modifications, Op, Record};
use crate::patch::{keep_or, Patch};
use crate::time::Timestamp;

verus! {

/// Ontology payload of a commitment.
#[derive(Clone, Debug, PartialEq)]
pub struct VfCommitment {
    pub action: Action,
    pub agreed_in: Option<String>,
    pub at_location: Option<Location>,
    pub clause_of: Option<AgreementID>,
    pub created: Option<Timestamp>,
    pub due: Option<Timestamp>,
    pub effort_quantity: Option<Measure>,
    pub finished: Option<bool>,
    pub has_beginning: Option<Timestamp>,
    pub has_end: Option<Timestamp>,
    pub has_point_in_time: Option<Timestamp>,
    pub in_scope_of: Vec<AgentID>,
    pub input_of: Option<ProcessID>,
    pub name: Option<String>,
    pub note: Option<String>,
    pub output_of: Option<ProcessID>,
    pub provider: AgentID,
    pub receiver: AgentID,
    pub resource_conforms_to: Option<ResourceSpecID>,
    pub resource_inventoried_as: Option<ResourceID>,
    pub resource_quantity: Option<Measure>,
}

/// A promise to deliver on a future economic event — a line item in an
/// order.
#[derive(Clone, Debug, PartialEq)]
pub struct Commitment {
    pub id: CommitmentID,
    pub inner: VfCommitment,
    pub move_costs: Costs,
    pub active: bool,
    pub created: Timestamp,
    pub updated: Timestamp,
    pub deleted: Option<Timestamp>,
}

/// Precondition cascade for creating a commitment, in its fixed order:
/// coarse capability, scoped capability, company lifecycle, the company
/// itself being provider or receiver, and both provider and receiver being
/// participants of the agreement at call time. Participation failures are
/// surfaced as privilege failures, deliberately undistinguished.
pub open spec fn commitment_create_gate(
    caller: User,
    member: Member,
    company: Company,
    agreement: Agreement,
    provider: AgentID,
    receiver: AgentID,
) -> Result<(), Error> {
    if !caller.can(Permission::CompanyUpdateCommitments) {
        Err(Error::InsufficientPrivileges)
    } else if !member.grants(caller.id@, company.id@, CompanyPermission::CommitmentCreate) {
        Err(Error::InsufficientPrivileges)
    } else if !company.is_active_spec() {
        Err(Error::ObjectIsInactive(ObjectKind::Company))
    } else if !(AgentID::CompanyID(company.id).same_as(provider) || AgentID::CompanyID(
        company.id,
    ).same_as(receiver)) {
        Err(Error::InsufficientPrivileges)
    } else if !(agreement.has_participant_spec(provider) && agreement.has_participant_spec(
        receiver,
    )) {
        Err(Error::InsufficientPrivileges)
    } else {
        Ok(())
    }
}

/// The record a successful create emits: caller-supplied fields, bound to
/// the agreement through `clause_of`, stamped `created == updated == now`,
/// not deleted.
pub open spec fn created_commitment(
    agreement: Agreement,
    id: CommitmentID,
    move_costs: Costs,
    action: OrderAction,
    agreed_in: Option<String>,
    at_location: Option<Location>,
    created: Option<Timestamp>,
    due: Option<Timestamp>,
    effort_quantity: Option<Measure>,
    finished: Option<bool>,
    has_beginning: Option<Timestamp>,
    has_end: Option<Timestamp>,
    has_point_in_time: Option<Timestamp>,
    in_scope_of: Vec<AgentID>,
    input_of: Option<ProcessID>,
    name: Option<String>,
    note: Option<String>,
    output_of: Option<ProcessID>,
    provider: AgentID,
    receiver: AgentID,
    resource_conforms_to: Option<ResourceSpecID>,
    resource_inventoried_as: Option<ResourceID>,
    resource_quantity: Option<Measure>,
    active: bool,
    now: Timestamp,
) -> Commitment {
    Commitment {
        id,
        inner: VfCommitment {
            action: action_of_order(action),
            agreed_in,
            at_location,
            clause_of: Some(agreement.id),
            created,
            due,
            effort_quantity,
            finished,
            has_beginning,
            has_end,
            has_point_in_time,
            in_scope_of,
            input_of,
            name,
            note,
            output_of,
            provider,
            receiver,
            resource_conforms_to,
            resource_inventoried_as,
            resource_quantity,
        },
        move_costs,
        active,
        created: now,
        updated: now,
        deleted: None,
    }
}

/// Create a new commitment under an agreement.
///
/// On success the batch holds exactly one Create modification whose record
/// carries the caller-supplied fields and is stamped with the injected
/// `now`.
pub fn create(
    caller: &User,
    member: &Member,
    company: &Company,
    agreement: &Agreement,
    id: CommitmentID,
    move_costs: Costs,
    action: OrderAction,
    agreed_in: Option<String>,
    at_location: Option<Location>,
    created: Option<Timestamp>,
    due: Option<Timestamp>,
    effort_quantity: Option<Measure>,
    finished: Option<bool>,
    has_beginning: Option<Timestamp>,
    has_end: Option<Timestamp>,
    has_point_in_time: Option<Timestamp>,
    in_scope_of: Vec<AgentID>,
    input_of: Option<ProcessID>,
    name: Option<String>,
    note: Option<String>,
    output_of: Option<ProcessID>,
    provider: AgentID,
    receiver: AgentID,
    resource_conforms_to: Option<ResourceSpecID>,
    resource_inventoried_as: Option<ResourceID>,
    resource_quantity: Option<Measure>,
    active: bool,
    now: Timestamp,
) -> (r: Result<Modifications, Error>)
    ensures
        commitment_create_gate(*caller, *member, *company, *agreement, provider, receiver) matches
            Err(e) ==> r == Err::<Modifications, Error>(e),
        commitment_create_gate(*caller, *member, *company, *agreement, provider, receiver) is Ok
            ==> (r matches Ok(m) && m@.len() == 1 && m@[0] == (Modification {
            op: Op::Create,
            record: Record::Commitment(
                created_commitment(
                    *agreement,
                    id,
                    move_costs,
                    action,
                    agreed_in,
                    at_location,
                    created,
                    due,
                    effort_quantity,
                    finished,
                    has_beginning,
                    has_end,
                    has_point_in_time,
                    in_scope_of,
                    input_of,
                    name,
                    note,
                    output_of,
                    provider,
                    receiver,
                    resource_conforms_to,
                    resource_inventoried_as,
                    resource_quantity,
                    active,
                    now,
                ),
            ),
        })),
{
    if let Err(e) = caller.access_check(Permission::CompanyUpdateCommitments) {
        return Err(e);
    }
    if let Err(e) = member.access_check(
        &caller.id,
        &company.id,
        CompanyPermission::CommitmentCreate,
    ) {
        return Err(e);
    }
    if !company.is_active() {
        return Err(Error::ObjectIsInactive(ObjectKind::Company));
    }
    let company_agent_id = company.agent_id();
    if !(company_agent_id.same_agent(&provider) || company_agent_id.same_agent(&receiver)) {
        // a commitment may only be created for a company that is party to it
        return Err(Error::InsufficientPrivileges);
    }
    if !(agreement.has_participant(&provider) && agreement.has_participant(&receiver)) {
        // a commitment may only be created under an agreement both parties
        // belong to
        return Err(Error::InsufficientPrivileges);
    }
    let model = Commitment {
        id,
        inner: VfCommitment {
            action: action.to_action(),
            agreed_in,
            at_location,
            clause_of: Some(agreement.id.clone()),
            created,
            due,
            effort_quantity,
            finished,
            has_beginning,
            has_end,
            has_point_in_time,
            in_scope_of,
            input_of,
            name,
            note,
            output_of,
            provider,
            receiver,
            resource_conforms_to,
            resource_inventoried_as,
            resource_quantity,
        },
        move_costs,
        active,
        created: now,
        updated: now,
        deleted: None,
    };
    Ok(Modifications::new_single(Op::Create, Record::Commitment(model)))
}

/// Precondition cascade for updating a commitment. Deletion is terminal: a
/// soft-deleted subject can no longer be updated.
pub open spec fn commitment_update_gate(
    caller: User,
    member: Member,
    company: Company,
    subject: Commitment,
) -> Result<(), Error> {
    if !caller.can(Permission::CompanyUpdateCommitments) {
        Err(Error::InsufficientPrivileges)
    } else if !member.grants(caller.id@, company.id@, CompanyPermission::CommitmentUpdate) {
        Err(Error::InsufficientPrivileges)
    } else if !company.is_active_spec() {
        Err(Error::ObjectIsInactive(ObjectKind::Company))
    } else if subject.deleted is Some {
        Err(Error::ObjectIsDeleted(ObjectKind::Commitment))
    } else {
        Ok(())
    }
}

/// The record a successful update emits: each field merged independently,
/// `updated` stamped to `now`; identity, `clause_of`, creation stamp and
/// deletion state are never altered.
pub open spec fn updated_commitment(
    subject: Commitment,
    move_costs: Option<Costs>,
    action: Option<OrderAction>,
    agreed_in: Patch<String>,
    at_location: Patch<Location>,
    created: Patch<Timestamp>,
    due: Patch<Timestamp>,
    effort_quantity: Patch<Measure>,
    finished: Patch<bool>,
    has_beginning: Patch<Timestamp>,
    has_end: Patch<Timestamp>,
    has_point_in_time: Patch<Timestamp>,
    in_scope_of: Option<Vec<AgentID>>,
    input_of: Patch<ProcessID>,
    name: Patch<String>,
    note: Patch<String>,
    output_of: Patch<ProcessID>,
    resource_conforms_to: Patch<ResourceSpecID>,
    resource_inventoried_as: Patch<ResourceID>,
    resource_quantity: Patch<Measure>,
    active: Option<bool>,
    now: Timestamp,
) -> Commitment {
    Commitment {
        id: subject.id,
        inner: VfCommitment {
            action: match action {
                Option::Some(a) => action_of_order(a),
                Option::None => subject.inner.action,
            },
            agreed_in: agreed_in.applied_to(subject.inner.agreed_in),
            at_location: at_location.applied_to(subject.inner.at_location),
            clause_of: subject.inner.clause_of,
            created: created.applied_to(subject.inner.created),
            due: due.applied_to(subject.inner.due),
            effort_quantity: effort_quantity.applied_to(subject.inner.effort_quantity),
            finished: finished.applied_to(subject.inner.finished),
            has_beginning: has_beginning.applied_to(subject.inner.has_beginning),
            has_end: has_end.applied_to(subject.inner.has_end),
            has_point_in_time: has_point_in_time.applied_to(subject.inner.has_point_in_time),
            in_scope_of: keep_or(in_scope_of, subject.inner.in_scope_of),
            input_of: input_of.applied_to(subject.inner.input_of),
            name: name.applied_to(subject.inner.name),
            note: note.applied_to(subject.inner.note),
            output_of: output_of.applied_to(subject.inner.output_of),
            provider: subject.inner.provider,
            receiver: subject.inner.receiver,
            resource_conforms_to: resource_conforms_to.applied_to(
                subject.inner.resource_conforms_to,
            ),
            resource_inventoried_as: resource_inventoried_as.applied_to(
                subject.inner.resource_inventoried_as,
            ),
            resource_quantity: resource_quantity.applied_to(subject.inner.resource_quantity),
        },
        move_costs: keep_or(move_costs, subject.move_costs),
        active: keep_or(active, subject.active),
        created: subject.created,
        updated: now,
        deleted: subject.deleted,
    }
}

/// Update a commitment by merging a partial payload into it.
///
/// Fields left `None` (or `Patch::Keep`) are untouched; optional fields may
/// also be explicitly cleared. `updated` always advances to the injected
/// `now`.
pub fn update(
    caller: &User,
    member: &Member,
    company: &Company,
    subject: Commitment,
    move_costs: Option<Costs>,
    action: Option<OrderAction>,
    agreed_in: Patch<String>,
    at_location: Patch<Location>,
    created: Patch<Timestamp>,
    due: Patch<Timestamp>,
    effort_quantity: Patch<Measure>,
    finished: Patch<bool>,
    has_beginning: Patch<Timestamp>,
    has_end: Patch<Timestamp>,
    has_point_in_time: Patch<Timestamp>,
    in_scope_of: Option<Vec<AgentID>>,
    input_of: Patch<ProcessID>,
    name: Patch<String>,
    note: Patch<String>,
    output_of: Patch<ProcessID>,
    resource_conforms_to: Patch<ResourceSpecID>,
    resource_inventoried_as: Patch<ResourceID>,
    resource_quantity: Patch<Measure>,
    active: Option<bool>,
    now: Timestamp,
) -> (r: Result<Modifications, Error>)
    ensures
        commitment_update_gate(*caller, *member, *company, subject) matches Err(e) ==> r == Err::<
            Modifications,
            Error,
        >(e),
        commitment_update_gate(*caller, *member, *company, subject) is Ok ==> (r matches Ok(m)
            && m@.len() == 1 && m@[0] == (Modification {
            op: Op::Update,
            record: Record::Commitment(
                updated_commitment(
                    subject,
                    move_costs,
                    action,
                    agreed_in,
                    at_location,
                    created,
                    due,
                    effort_quantity,
                    finished,
                    has_beginning,
                    has_end,
                    has_point_in_time,
                    in_scope_of,
                    input_of,
                    name,
                    note,
                    output_of,
                    resource_conforms_to,
                    resource_inventoried_as,
                    resource_quantity,
                    active,
                    now,
                ),
            ),
        })),
{
    if let Err(e) = caller.access_check(Permission::CompanyUpdateCommitments) {
        return Err(e);
    }
    if let Err(e) = member.access_check(
        &caller.id,
        &company.id,
        CompanyPermission::CommitmentUpdate,
    ) {
        return Err(e);
    }
    if !company.is_active() {
        return Err(Error::ObjectIsInactive(ObjectKind::Company));
    }
    if subject.deleted.is_some() {
        return Err(Error::ObjectIsDeleted(ObjectKind::Commitment));
    }
    let mut subject = subject;
    if let Some(move_costs) = move_costs {
        subject.move_costs = move_costs;
    }
    if let Some(action) = action {
        subject.inner.action = action.to_action();
    }
    subject.inner.agreed_in = agreed_in.apply(subject.inner.agreed_in);
    subject.inner.at_location = at_location.apply(subject.inner.at_location);
    subject.inner.created = created.apply(subject.inner.created);
    subject.inner.due = due.apply(subject.inner.due);
    subject.inner.effort_quantity = effort_quantity.apply(subject.inner.effort_quantity);
    subject.inner.finished = finished.apply(subject.inner.finished);
    subject.inner.has_beginning = has_beginning.apply(subject.inner.has_beginning);
    subject.inner.has_end = has_end.apply(subject.inner.has_end);
    subject.inner.has_point_in_time = has_point_in_time.apply(subject.inner.has_point_in_time);
    if let Some(in_scope_of) = in_scope_of {
        subject.inner.in_scope_of = in_scope_of;
    }
    subject.inner.input_of = input_of.apply(subject.inner.input_of);
    subject.inner.name = name.apply(subject.inner.name);
    subject.inner.note = note.apply(subject.inner.note);
    subject.inner.output_of = output_of.apply(subject.inner.output_of);
    subject.inner.resource_conforms_to = resource_conforms_to.apply(
        subject.inner.resource_conforms_to,
    );
    subject.inner.resource_inventoried_as = resource_inventoried_as.apply(
        subject.inner.resource_inventoried_as,
    );
    subject.inner.resource_quantity = resource_quantity.apply(subject.inner.resource_quantity);
    if let Some(active) = active {
        subject.active = active;
    }
    subject.updated = now;
    Ok(Modifications::new_single(Op::Update, Record::Commitment(subject)))
}

/// Precondition cascade for deleting a commitment: authorization, company
/// lifecycle, and the subject must not already be soft-deleted.
pub open spec fn commitment_delete_gate(
    caller: User,
    member: Member,
    company: Company,
    subject: Commitment,
) -> Result<(), Error> {
    if !caller.can(Permission::CompanyUpdateCommitments) {
        Err(Error::InsufficientPrivileges)
    } else if !member.grants(caller.id@, company.id@, CompanyPermission::CommitmentDelete) {
        Err(Error::InsufficientPrivileges)
    } else if !company.is_active_spec() {
        Err(Error::ObjectIsInactive(ObjectKind::Company))
    } else if subject.deleted is Some {
        Err(Error::ObjectIsDeleted(ObjectKind::Commitment))
    } else {
        Ok(())
    }
}

/// The record a successful delete emits: the subject unchanged but for its
/// deletion stamp.
pub open spec fn deleted_commitment(subject: Commitment, now: Timestamp) -> Commitment {
    Commitment {
        id: subject.id,
        inner: subject.inner,
        move_costs: subject.move_costs,
        active: subject.active,
        created: subject.created,
        updated: subject.updated,
        deleted: Some(now),
    }
}

/// Soft-delete a commitment: stamp `deleted = now`. No physical removal
/// happens in this layer, and a record already deleted is rejected, never
/// silently ignored.
pub fn delete(
    caller: &User,
    member: &Member,
    company: &Company,
    subject: Commitment,
    now: Timestamp,
) -> (r: Result<Modifications, Error>)
    ensures
        commitment_delete_gate(*caller, *member, *company, subject) matches Err(e) ==> r == Err::<
            Modifications,
            Error,
        >(e),
        commitment_delete_gate(*caller, *member, *company, subject) is Ok ==> (r matches Ok(m)
            && m@.len() == 1 && m@[0] == (Modification {
            op: Op::Delete,
            record: Record::Commitment(deleted_commitment(subject, now)),
        })),
{
    if let Err(e) = caller.access_check(Permission::CompanyUpdateCommitments) {
        return Err(e);
    }
    if let Err(e) = member.access_check(
        &caller.id,
        &company.id,
        CompanyPermission::CommitmentDelete,
    ) {
        return Err(e);
    }
    if !company.is_active() {
        return Err(Error::ObjectIsInactive(ObjectKind::Company));
    }
    if subject.deleted.is_some() {
        return Err(Error::ObjectIsDeleted(ObjectKind::Commitment));
    }
    let mut subject = subject;
    subject.deleted = Some(now);
    Ok(Modifications::new_single(Op::Delete, Record::Commitment(subject)))
}

/// Law: deletion is terminal and idempotently rejecting. Once a delete
/// succeeds, the record it emitted can never pass the delete gate or the
/// update gate again: any later attempt — by anyone, at any time — is
/// refused, and an authorized delete attempt is refused with exactly
/// `ObjectIsDeleted`, not silently ignored.
pub proof fn lemma_delete_is_terminal(
    subject: Commitment,
    now: Timestamp,
    caller2: User,
    member2: Member,
    company2: Company,
)
    ensures
        commitment_delete_gate(caller2, member2, company2, deleted_commitment(subject, now))
            !is Ok,
        commitment_update_gate(caller2, member2, company2, deleted_commitment(subject, now))
            !is Ok,
        (caller2.can(Permission::CompanyUpdateCommitments) && member2.grants(
            caller2.id@,
            company2.id@,
            CompanyPermission::CommitmentDelete,
        ) && company2.is_active_spec()) ==> commitment_delete_gate(
            caller2,
            member2,
            company2,
            deleted_commitment(subject, now),
        ) == Err::<(), Error>(Error::ObjectIsDeleted(ObjectKind::Commitment)),
{
}

/// Law: an agreement whose participant list has been emptied admits no
/// commitment. As long as the company itself is active, creation fails with
/// `InsufficientPrivileges`, whatever capabilities the caller holds.
pub proof fn lemma_empty_agreement_rejects_create(
    caller: User,
    member: Member,
    company: Company,
    agreement: Agreement,
    provider: AgentID,
    receiver: AgentID,
)
    requires
        agreement.participants@.len() == 0,
        company.is_active_spec(),
    ensures
        commitment_create_gate(caller, member, company, agreement, provider, receiver) == Err::<
            (),
            Error,
        >(Error::InsufficientPrivileges),
{
    assert(!agreement.has_participant_spec(provider));
}

} // verus!
