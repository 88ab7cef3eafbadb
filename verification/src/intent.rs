use vstd::prelude::*;
use crate::access::{CompanyPermission, Member, Permission, User};
use crate::action::Action;
use crate::agent::AgentID;
use crate::company::Company;
use crate::costs::Costs;
use crate::error::Error;
use crate::geo::Location;
use crate::ids::{AgreementID, IntentID, ResourceID, ResourceSpecID};
use crate::measure::Measure;
use crate::modifications::{Modification, Modifications, Op, Record};
use crate::time::Timestamp;

verus! {

/// The action we hope will happen if this intent is fulfilled.
#[derive(Clone, Copy, Debug, PartialEq, Eq, Structural)]
pub enum IntentAction {
    /// A service will be delivered.
    DeliverService,
    /// A resource will be transferred (ownership and custody).
    Transfer,
    /// A resource's custody will be transferred for a period of time
    /// (rental).
    TransferCustody,
}

/// The event action an intent action stands for.
pub open spec fn action_of_intent(action: IntentAction) -> Action {
    match action {
        IntentAction::DeliverService => Action::DeliverService,
        IntentAction::Transfer => Action::Transfer,
        IntentAction::TransferCustody => Action::TransferCustody,
    }
}

/// Ontology payload of an intent.
#[derive(Clone, Debug, PartialEq)]
pub struct VfIntent {
    pub action: Action,
    pub agreed_in: Option<AgreementID>,
    pub at_location: Option<Location>,
    pub available_quantity: Option<Measure>,
    pub due: Option<Timestamp>,
    pub effort_quantity: Option<Measure>,
    pub finished: Option<bool>,
    pub has_beginning: Option<Timestamp>,
    pub has_end: Option<Timestamp>,
    pub has_point_in_time: Option<Timestamp>,
    pub in_scope_of: Vec<AgentID>,
    pub name: Option<String>,
    pub note: Option<String>,
    pub provider: Option<AgentID>,
    pub receiver: Option<AgentID>,
    pub resource_conforms_to: Option<ResourceSpecID>,
    pub resource_inventoried_as: Option<ResourceID>,
    pub resource_quantity: Option<Measure>,
}

/// A proposed, not-yet-bound economic action.
#[derive(Clone, Debug, PartialEq)]
pub struct Intent {
    pub id: IntentID,
    pub inner: VfIntent,
    pub move_costs: Costs,
    pub active: bool,
    pub created: Timestamp,
    pub updated: Timestamp,
    pub deleted: Option<Timestamp>,
}

/// The company stands as one of the named parties of the proposal.
pub open spec fn company_is_party(
    company: Company,
    provider: Option<AgentID>,
    receiver: Option<AgentID>,
) -> bool {
    ||| provider matches Some(p) && AgentID::CompanyID(company.id).same_as(p)
    ||| receiver matches Some(rc) && AgentID::CompanyID(company.id).same_as(rc)
}

/// Precondition cascade for creating an intent, in its fixed order: coarse
/// capability, scoped capability, company lifecycle, and the company being
/// one of provider and receiver.
pub open spec fn intent_create_gate(
    caller: User,
    member: Member,
    company: Company,
    provider: Option<AgentID>,
    receiver: Option<AgentID>,
) -> Result<(), Error> {
    if !caller.can(Permission::CompanyUpdateIntents) {
        Err(Error::InsufficientPrivileges)
    } else if !member.grants(caller.id@, company.id@, CompanyPermission::IntentCreate) {
        Err(Error::InsufficientPrivileges)
    } else if company.is_deleted_spec() {
        Err(Error::CompanyIsDeleted)
    } else if !company_is_party(company, provider, receiver) {
        Err(Error::InsufficientPrivileges)
    } else {
        Ok(())
    }
}

/// The record a successful create emits: caller-supplied fields, stamped
/// `created == updated == now`, not deleted.
pub open spec fn created_intent(
    id: IntentID,
    move_costs: Costs,
    action: IntentAction,
    agreed_in: Option<AgreementID>,
    at_location: Option<Location>,
    available_quantity: Option<Measure>,
    due: Option<Timestamp>,
    effort_quantity: Option<Measure>,
    finished: Option<bool>,
    has_beginning: Option<Timestamp>,
    has_end: Option<Timestamp>,
    has_point_in_time: Option<Timestamp>,
    in_scope_of: Vec<AgentID>,
    name: Option<String>,
    note: Option<String>,
    provider: Option<AgentID>,
    receiver: Option<AgentID>,
    resource_conforms_to: Option<ResourceSpecID>,
    resource_inventoried_as: Option<ResourceID>,
    resource_quantity: Option<Measure>,
    active: bool,
    now: Timestamp,
) -> Intent {
    Intent {
        id,
        inner: VfIntent {
            action: action_of_intent(action),
            agreed_in,
            at_location,
            available_quantity,
            due,
            effort_quantity,
            finished,
            has_beginning,
            has_end,
            has_point_in_time,
            in_scope_of,
            name,
            note,
            provider,
            receiver,
            resource_conforms_to,
            resource_inventoried_as,
            resource_quantity,
        },
        move_costs,
        active,
        created: now,
        updated: now,
        deleted: None,
    }
}

/// Create a new intent: a proposal the company hopes will be fulfilled.
///
/// On success the batch holds exactly one Create modification whose record
/// carries the caller-supplied fields and is stamped with the injected
/// `now`.
pub fn create(
    caller: &User,
    member: &Member,
    company: &Company,
    id: IntentID,
    move_costs: Costs,
    action: IntentAction,
    agreed_in: Option<AgreementID>,
    at_location: Option<Location>,
    available_quantity: Option<Measure>,
    due: Option<Timestamp>,
    effort_quantity: Option<Measure>,
    finished: Option<bool>,
    has_beginning: Option<Timestamp>,
    has_end: Option<Timestamp>,
    has_point_in_time: Option<Timestamp>,
    in_scope_of: Vec<AgentID>,
    name: Option<String>,
    note: Option<String>,
    provider: Option<AgentID>,
    receiver: Option<AgentID>,
    resource_conforms_to: Option<ResourceSpecID>,
    resource_inventoried_as: Option<ResourceID>,
    resource_quantity: Option<Measure>,
    active: bool,
    now: Timestamp,
) -> (r: Result<Modifications, Error>)
    ensures
        intent_create_gate(*caller, *member, *company, provider, receiver) matches Err(e) ==> r
            == Err::<Modifications, Error>(e),
        intent_create_gate(*caller, *member, *company, provider, receiver) is Ok ==> (r matches Ok(
            m,
        ) && m@.len() == 1 && m@[0] == (Modification {
            op: Op::Create,
            record: Record::Intent(
                created_intent(
                    id,
                    move_costs,
                    action,
                    agreed_in,
                    at_location,
                    available_quantity,
                    due,
                    effort_quantity,
                    finished,
                    has_beginning,
                    has_end,
                    has_point_in_time,
                    in_scope_of,
                    name,
                    note,
                    provider,
                    receiver,
                    resource_conforms_to,
                    resource_inventoried_as,
                    resource_quantity,
                    active,
                    now,
                ),
            ),
        })),
{
    if let Err(e) = caller.access_check(Permission::CompanyUpdateIntents) {
        return Err(e);
    }
    if let Err(e) = member.access_check(&caller.id, &company.id, CompanyPermission::IntentCreate) {
        return Err(e);
    }
    if company.is_deleted() {
        return Err(Error::CompanyIsDeleted);
    }
    let company_agent_id = company.agent_id();
    let provider_is_company = match &provider {
        Some(p) => company_agent_id.same_agent(p),
        None => false,
    };
    let receiver_is_company = match &receiver {
        Some(rc) => company_agent_id.same_agent(rc),
        None => false,
    };
    if !(provider_is_company || receiver_is_company) {
        // an intent may only be created for a company that is party to it
        return Err(Error::InsufficientPrivileges);
    }
    let event_action = match action {
        IntentAction::DeliverService => Action::DeliverService,
        IntentAction::Transfer => Action::Transfer,
        IntentAction::TransferCustody => Action::TransferCustody,
    };
    let model = Intent {
        id,
        inner: VfIntent {
            action: event_action,
            agreed_in,
            at_location,
            available_quantity,
            due,
            effort_quantity,
            finished,
            has_beginning,
            has_end,
            has_point_in_time,
            in_scope_of,
            name,
            note,
            provider,
            receiver,
            resource_conforms_to,
            resource_inventoried_as,
            resource_quantity,
        },
        move_costs,
        active,
        created: now,
        updated: now,
        deleted: None,
    };
    Ok(Modifications::new_single(Op::Create, Record::Intent(model)))
}

} // verus!
