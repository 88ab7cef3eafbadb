use vstd::prelude::*;
use crate::access::{CompanyPermission, Member, Permission, User};
use crate::action::Action;
use crate::agent::AgentID;
use crate::company::Company;
use crate::costs::{can_merge, can_sub, Costs};
use crate::error::Error;
use crate::ids::{EventID, ProcessID};
use crate::measure::Measure;
use crate::modifications::{Modifications, Op, Record};
use crate::process::Process;
use crate::time::Timestamp;

verus! {

/// Ontology payload of a recorded economic event.
#[derive(Clone, Debug, PartialEq)]
pub struct VfEvent {
    pub action: Action,
    pub agreed_in: Option<String>,
    pub has_point_in_time: Option<Timestamp>,
    pub input_of: Option<ProcessID>,
    pub output_of: Option<ProcessID>,
    pub provider: AgentID,
    pub receiver: AgentID,
    pub resource_quantity: Option<Measure>,
}

/// A recorded, completed economic action. Once created, its action
/// semantics are immutable in this layer.
#[derive(Clone, Debug, PartialEq)]
pub struct Event {
    pub id: EventID,
    pub inner: VfEvent,
    pub move_costs: Option<Costs>,
    pub active: bool,
    pub created: Timestamp,
    pub updated: Timestamp,
    pub deleted: Option<Timestamp>,
}

/// Machine limit on a cost movement: the vector can be subtracted from the
/// source ledger and added to the destination ledger without leaving the
/// representable range.
pub open spec fn can_move_costs(from: Costs, to: Costs, move_costs: Costs) -> bool {
    can_sub(from, move_costs) && can_merge(to, move_costs)
}

/// Precondition cascade for delivering a service, in its fixed order:
/// coarse capability, scoped capability against the providing company, both
/// companies not soft-deleted, and each process owned by its respective
/// company. An ownership violation is its own error kind, distinct from
/// privilege failures.
pub open spec fn deliver_service_gate(
    caller: User,
    member: Member,
    company_from: Company,
    company_to: Company,
    process_from: Process,
    process_to: Process,
) -> Result<(), Error> {
    if !caller.can(Permission::EventCreate) {
        Err(Error::InsufficientPrivileges)
    } else if !member.grants(caller.id@, company_from.id@, CompanyPermission::DeliverService) {
        Err(Error::InsufficientPrivileges)
    } else if company_from.is_deleted_spec() {
        Err(Error::CompanyIsDeleted)
    } else if company_to.is_deleted_spec() {
        Err(Error::CompanyIsDeleted)
    } else if process_from.company_id@ != company_from.id@ {
        Err(Error::ProcessOwnerMismatch)
    } else if process_to.company_id@ != company_to.id@ {
        Err(Error::ProcessOwnerMismatch)
    } else {
        Ok(())
    }
}

/// The event a successful delivery emits: a DeliverService action from the
/// providing company to the receiving one, pinned to `now`, linking the
/// source process as output and the destination process as input, carrying
/// the moved cost vector.
pub open spec fn is_delivery_event(
    e: Event,
    id: EventID,
    company_from: Company,
    company_to: Company,
    process_from: Process,
    process_to: Process,
    move_costs: Costs,
    now: Timestamp,
) -> bool {
    e == (Event {
        id,
        inner: VfEvent {
            action: Action::DeliverService,
            agreed_in: None,
            has_point_in_time: Some(now),
            input_of: Some(process_to.id),
            output_of: Some(process_from.id),
            provider: AgentID::CompanyID(company_from.id),
            receiver: AgentID::CompanyID(company_to.id),
            resource_quantity: None,
        },
        move_costs: Some(move_costs),
        active: true,
        created: now,
        updated: now,
        deleted: None,
    })
}

/// The updated source process: the move-cost vector subtracted category by
/// category, everything else unchanged but the update stamp.
pub open spec fn is_debited_process(p: Process, pre: Process, move_costs: Costs, now: Timestamp) -> bool {
    &&& p.id == pre.id
    &&& p.company_id == pre.company_id
    &&& p.name == pre.name
    &&& p.costs.wf()
    &&& forall|k: Seq<char>| #[trigger] p.costs.labor_at(k) == pre.costs.labor_at(k)
        - move_costs.labor_at(k)
    &&& forall|k: Seq<char>| #[trigger] p.costs.resource_at(k) == pre.costs.resource_at(k)
        - move_costs.resource_at(k)
    &&& p.active == pre.active
    &&& p.created == pre.created
    &&& p.updated == now
    &&& p.deleted == pre.deleted
}

/// The updated destination process: the move-cost vector added category by
/// category, everything else unchanged but the update stamp.
pub open spec fn is_credited_process(p: Process, pre: Process, move_costs: Costs, now: Timestamp) -> bool {
    &&& p.id == pre.id
    &&& p.company_id == pre.company_id
    &&& p.name == pre.name
    &&& p.costs.wf()
    &&& forall|k: Seq<char>| #[trigger] p.costs.labor_at(k) == pre.costs.labor_at(k)
        + move_costs.labor_at(k)
    &&& forall|k: Seq<char>| #[trigger] p.costs.resource_at(k) == pre.costs.resource_at(k)
        + move_costs.resource_at(k)
    &&& p.active == pre.active
    &&& p.created == pre.created
    &&& p.updated == now
    &&& p.deleted == pre.deleted
}

/// Provide a service to another agent, moving costs along the way.
///
/// On success the batch holds, in order: the created DeliverService event,
/// the source process with the move-cost vector subtracted, and the
/// destination process with the identical vector added — so the total cost
/// across the two processes is conserved.
pub fn deliver_service(
    caller: &User,
    member: &Member,
    company_from: &Company,
    company_to: &Company,
    id: EventID,
    process_from: Process,
    process_to: Process,
    move_costs: Costs,
    now: Timestamp,
) -> (r: Result<Modifications, Error>)
    requires
        process_from.costs.wf(),
        process_to.costs.wf(),
        move_costs.wf(),
        deliver_service_gate(
            *caller,
            *member,
            *company_from,
            *company_to,
            process_from,
            process_to,
        ) is Ok ==> can_move_costs(process_from.costs, process_to.costs, move_costs),
    ensures
        deliver_service_gate(
            *caller,
            *member,
            *company_from,
            *company_to,
            process_from,
            process_to,
        ) matches Err(e) ==> r == Err::<Modifications, Error>(e),
        deliver_service_gate(
            *caller,
            *member,
            *company_from,
            *company_to,
            process_from,
            process_to,
        ) is Ok ==> (r matches Ok(m) && {
            &&& m@.len() == 3
            &&& m@[0].op == Op::Create
            &&& m@[0].record matches Record::Event(e) && is_delivery_event(
                e,
                id,
                *company_from,
                *company_to,
                process_from,
                process_to,
                move_costs,
                now,
            )
            &&& m@[1].op == Op::Update
            &&& m@[1].record matches Record::Process(p) && is_debited_process(
                p,
                process_from,
                move_costs,
                now,
            )
            &&& m@[2].op == Op::Update
            &&& m@[2].record matches Record::Process(p) && is_credited_process(
                p,
                process_to,
                move_costs,
                now,
            )
        }),
{
    if let Err(e) = caller.access_check(Permission::EventCreate) {
        return Err(e);
    }
    if let Err(e) = member.access_check(
        &caller.id,
        &company_from.id,
        CompanyPermission::DeliverService,
    ) {
        return Err(e);
    }
    if company_from.is_deleted() {
        return Err(Error::CompanyIsDeleted);
    }
    if company_to.is_deleted() {
        return Err(Error::CompanyIsDeleted);
    }
    if !(process_from.company_id.id == company_from.id.id) {
        // cost may only move out of a process the providing company owns
        return Err(Error::ProcessOwnerMismatch);
    }
    if !(process_to.company_id.id == company_to.id.id) {
        // cost may only move into a process the receiving company owns
        return Err(Error::ProcessOwnerMismatch);
    }
    let process_from_id = process_from.id.clone();
    let process_to_id = process_to.id.clone();

    let debited_costs = process_from.costs.sub(&move_costs);
    let credited_costs = process_to.costs.merge(&move_costs);
    let mut process_from = process_from;
    let mut process_to = process_to;
    process_from.costs = debited_costs;
    process_from.updated = now;
    process_to.costs = credited_costs;
    process_to.updated = now;

    let event = Event {
        id,
        inner: VfEvent {
            action: Action::DeliverService,
            agreed_in: None,
            has_point_in_time: Some(now),
            input_of: Some(process_to_id),
            output_of: Some(process_from_id),
            provider: AgentID::CompanyID(company_from.id.clone()),
            receiver: AgentID::CompanyID(company_to.id.clone()),
            resource_quantity: None,
        },
        move_costs: Some(move_costs),
        active: true,
        created: now,
        updated: now,
        deleted: None,
    };

    let mut mods = Modifications::new();
    mods.push(Op::Create, Record::Event(event));
    mods.push(Op::Update, Record::Process(process_from));
    mods.push(Op::Update, Record::Process(process_to));
    Ok(mods)
}

/// Law: conservation. A cost movement subtracts exactly the move-cost
/// vector from the source process and adds the identical vector to the
/// destination, so the combined ledger of the two processes is the same
/// before and after, category by category.
pub proof fn lemma_cost_movement_conserves(
    pre_from: Process,
    pre_to: Process,
    post_from: Process,
    post_to: Process,
    move_costs: Costs,
    now: Timestamp,
)
    requires
        is_debited_process(post_from, pre_from, move_costs, now),
        is_credited_process(post_to, pre_to, move_costs, now),
    ensures
        forall|k: Seq<char>| #[trigger] post_from.costs.labor_at(k) + post_to.costs.labor_at(k)
            == pre_from.costs.labor_at(k) + pre_to.costs.labor_at(k),
        forall|k: Seq<char>| #[trigger] post_from.costs.resource_at(k)
            + post_to.costs.resource_at(k) == pre_from.costs.resource_at(k)
            + pre_to.costs.resource_at(k),
{
    assert forall|k: Seq<char>| #[trigger] post_from.costs.labor_at(k) + post_to.costs.labor_at(k)
        == pre_from.costs.labor_at(k) + pre_to.costs.labor_at(k) by {
        assert(post_from.costs.labor_at(k) == pre_from.costs.labor_at(k) - move_costs.labor_at(k));
        assert(post_to.costs.labor_at(k) == pre_to.costs.labor_at(k) + move_costs.labor_at(k));
    }
    assert forall|k: Seq<char>| #[trigger] post_from.costs.resource_at(k)
        + post_to.costs.resource_at(k) == pre_from.costs.resource_at(k)
        + pre_to.costs.resource_at(k) by {
        assert(post_from.costs.resource_at(k) == pre_from.costs.resource_at(k)
            - move_costs.resource_at(k));
        assert(post_to.costs.resource_at(k) == pre_to.costs.resource_at(k)
            + move_costs.resource_at(k));
    }
}

/// Law: an ownership mismatch is reported as `ProcessOwnerMismatch`, never
/// as a generic privilege failure. Whenever authorization passes and both
/// companies are live, a process owned by the wrong company is the next
/// check to fail.
pub proof fn lemma_owner_mismatch_is_distinct(
    caller: User,
    member: Member,
    company_from: Company,
    company_to: Company,
    process_from: Process,
    process_to: Process,
)
    requires
        caller.can(Permission::EventCreate),
        member.grants(caller.id@, company_from.id@, CompanyPermission::DeliverService),
        !company_from.is_deleted_spec(),
        !company_to.is_deleted_spec(),
        process_from.company_id@ != company_from.id@ || process_to.company_id@ != company_to.id@,
    ensures
        deliver_service_gate(caller, member, company_from, company_to, process_from, process_to)
            == Err::<(), Error>(Error::ProcessOwnerMismatch),
{
}

} // verus!
