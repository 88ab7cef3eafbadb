use basis_core::access::{CompanyPermission, Member, Permission, User};
use basis_core::action::{Action, OrderAction};
use basis_core::agent::AgentID;
use basis_core::agreement::{self, Agreement, VfAgreement};
use basis_core::commitment::{self, Commitment};
use basis_core::company::Company;
use basis_core::costs::{Costs, Decimal};
use basis_core::error::{Error, ObjectKind};
use basis_core::event::{self, Event};
use basis_core::geo::Location;
use basis_core::ids::{
    AgreementID, CommitmentID, CompanyID, CompanyMemberID, EventID, OccupationID, ProcessID,
    ResourceID, UserID,
};
use basis_core::measure::{Measure, Unit};
use basis_core::modifications::{Modification, Op, Record};
use basis_core::patch::Patch;
use basis_core::process::Process;
use basis_core::time::Timestamp;

fn ts(ms: i64) -> Timestamp {
    Timestamp::new(ms)
}

fn standard_user(id: &str) -> User {
    User {
        id: UserID::new(id.to_string()),
        permissions: vec![
            Permission::CompanyUpdateAgreements,
            Permission::CompanyUpdateCommitments,
            Permission::CompanyUpdateIntents,
            Permission::EventCreate,
        ],
    }
}

fn make_company(id: &str, name: &str, now: Timestamp) -> Company {
    Company {
        id: CompanyID::new(id.to_string()),
        name: name.to_string(),
        active: true,
        created: now,
        updated: now,
        deleted: None,
    }
}

fn make_member(
    id: &str,
    user: &User,
    company: &Company,
    occupation: &str,
    permissions: Vec<CompanyPermission>,
) -> Member {
    Member {
        id: CompanyMemberID::new(id.to_string()),
        user_id: user.id.clone(),
        company_id: company.id.clone(),
        occupation_id: OccupationID::new(occupation.to_string()),
        permissions,
    }
}

fn make_agreement(
    id: &str,
    participants: &Vec<AgentID>,
    name: &str,
    note: &str,
    now: Timestamp,
) -> Agreement {
    Agreement {
        id: AgreementID::new(id.to_string()),
        inner: VfAgreement {
            created: Some(now),
            name: Some(name.to_string()),
            note: Some(note.to_string()),
        },
        participants: participants.clone(),
        active: true,
        created: now,
        updated: now,
        deleted: None,
    }
}

fn make_process(id: &str, company_id: &CompanyID, name: &str, costs: &Costs, now: Timestamp) -> Process {
    Process {
        id: ProcessID::new(id.to_string()),
        company_id: company_id.clone(),
        name: name.to_string(),
        costs: costs.clone(),
        active: true,
        created: now,
        updated: now,
        deleted: None,
    }
}

fn expect_agreement(m: &Modification, op: Op) -> Agreement {
    assert_eq!(m.op, op);
    match &m.record {
        Record::Agreement(a) => a.clone(),
        _ => panic!("expected an agreement record"),
    }
}

fn expect_commitment(m: &Modification, op: Op) -> Commitment {
    assert_eq!(m.op, op);
    match &m.record {
        Record::Commitment(c) => c.clone(),
        _ => panic!("expected a commitment record"),
    }
}

fn expect_event(m: &Modification, op: Op) -> Event {
    assert_eq!(m.op, op);
    match &m.record {
        Record::Event(e) => e.clone(),
        _ => panic!("expected an event record"),
    }
}

fn expect_process(m: &Modification, op: Op) -> Process {
    assert_eq!(m.op, op);
    match &m.record {
        Record::Process(p) => p.clone(),
        _ => panic!("expected a process record"),
    }
}

#[test]
fn agreement_can_create() {
    let now = ts(1_000_000);
    let id = AgreementID::new("agreement-1".to_string());
    let user = standard_user("user-1");
    let company = make_company("company-1", "sally's widgets", now);
    let member = make_member(
        "member-1",
        &user,
        &company,
        "widget builder",
        vec![CompanyPermission::AgreementCreate],
    );
    let company_from = make_company("company-2", "jerry's widgets", now);
    let participants = vec![
        AgentID::CompanyID(company.id.clone()),
        AgentID::CompanyID(company_from.id.clone()),
    ];
    let note = "hi i'm jerry. just going to order some widgets. don't mind me, just ordering widgets.";

    let testfn = |user: &User, member: &Member, company: &Company| {
        agreement::create(
            user,
            member,
            company,
            id.clone(),
            participants.clone(),
            "order 1234141".to_string(),
            note.to_string(),
            Some(now),
            true,
            now,
        )
    };

    // a global-only failure and a scoped-only failure each surface as the
    // same error kind
    let user_no_perms = User { id: user.id.clone(), permissions: vec![] };
    assert_eq!(
        testfn(&user_no_perms, &member, &company),
        Err(Error::InsufficientPrivileges)
    );
    let member_no_perms = make_member("member-1", &user, &company, "widget builder", vec![]);
    assert_eq!(
        testfn(&user, &member_no_perms, &company),
        Err(Error::InsufficientPrivileges)
    );
    let mut company_inactive = company.clone();
    company_inactive.active = false;
    assert_eq!(
        testfn(&user, &member, &company_inactive),
        Err(Error::ObjectIsInactive(ObjectKind::Company))
    );

    let mods = testfn(&user, &member, &company).unwrap().into_vec();
    assert_eq!(mods.len(), 1);

    let agreement = expect_agreement(&mods[0], Op::Create);
    assert_eq!(agreement.id, id);
    assert_eq!(agreement.inner.created, Some(now));
    assert_eq!(agreement.inner.name, Some("order 1234141".to_string()));
    assert_eq!(agreement.inner.note, Some(note.to_string()));
    assert_eq!(agreement.participants, participants);
    assert_eq!(agreement.active, true);
    assert_eq!(agreement.created, now);
    assert_eq!(agreement.updated, now);
    assert_eq!(agreement.deleted, None);
}

#[test]
fn agreement_can_update() {
    let now = ts(1_000_000);
    let id = AgreementID::new("agreement-1".to_string());
    let user = standard_user("user-1");
    let company = make_company("company-1", "sally's widgets", now);
    let member = make_member(
        "member-1",
        &user,
        &company,
        "widget builder",
        vec![
            CompanyPermission::AgreementCreate,
            CompanyPermission::AgreementUpdate,
        ],
    );
    let company_from = make_company("company-2", "jerry's widgets", now);
    let participants = vec![
        AgentID::CompanyID(company.id.clone()),
        AgentID::CompanyID(company_from.id.clone()),
    ];
    let note = "hi i'm jerry. just going to order some widgets. don't mind me, just ordering widgets.";

    let mods = agreement::create(
        &user,
        &member,
        &company,
        id.clone(),
        participants.clone(),
        "order 1234141".to_string(),
        note.to_string(),
        Some(now),
        true,
        now,
    )
    .unwrap()
    .into_vec();
    let agreement1 = expect_agreement(&mods[0], Op::Create);
    let now2 = ts(2_000_000);

    let testfn = |user: &User, member: &Member, company: &Company| {
        agreement::update(
            user,
            member,
            company,
            agreement1.clone(),
            Some(vec![AgentID::CompanyID(company_from.id.clone())]),
            Some("order 1111222".to_string()),
            Some("jerry's long-winded order".to_string()),
            Patch::Keep,
            None,
            now2,
        )
    };

    let user_no_perms = User { id: user.id.clone(), permissions: vec![] };
    assert_eq!(
        testfn(&user_no_perms, &member, &company),
        Err(Error::InsufficientPrivileges)
    );
    let member_no_perms = make_member("member-1", &user, &company, "widget builder", vec![]);
    assert_eq!(
        testfn(&user, &member_no_perms, &company),
        Err(Error::InsufficientPrivileges)
    );
    let mut company_inactive = company.clone();
    company_inactive.active = false;
    assert_eq!(
        testfn(&user, &member, &company_inactive),
        Err(Error::ObjectIsInactive(ObjectKind::Company))
    );

    let mods = testfn(&user, &member, &company).unwrap().into_vec();
    let agreement2 = expect_agreement(&mods[0], Op::Update);

    assert_eq!(agreement2.id, agreement1.id);
    assert_eq!(agreement2.inner.created, agreement1.inner.created);
    assert_eq!(agreement2.inner.name, Some("order 1111222".to_string()));
    assert_eq!(
        agreement2.inner.note,
        Some("jerry's long-winded order".to_string())
    );
    assert_eq!(
        agreement2.participants,
        vec![AgentID::CompanyID(company_from.id.clone())]
    );
    assert_eq!(agreement2.active, agreement1.active);
    assert_eq!(agreement2.created, agreement1.created);
    assert_eq!(agreement2.updated, now2);
    assert_eq!(agreement2.deleted, None);
}

#[test]
fn commitment_can_create() {
    let now = ts(1_000_000);
    let id = CommitmentID::new("commitment-1".to_string());
    let user = standard_user("user-1");
    let company_to = make_company("company-1", "larry's widget emporium", now);
    let member = make_member(
        "member-1",
        &user,
        &company_to,
        "widget seller",
        vec![
            CompanyPermission::CommitmentCreate,
            CompanyPermission::CommitmentUpdate,
        ],
    );
    let company_from = make_company("company-2", "bridget's widgets", now);
    let participants = vec![
        AgentID::CompanyID(company_from.id.clone()),
        AgentID::CompanyID(company_to.id.clone()),
    ];
    let agreement = make_agreement(
        "agreement-1",
        &participants,
        "order 111222",
        "UwU big order of widgetzzz",
        now,
    );
    let costs = Costs::new_with_labor("widgetmaker".to_string(), Decimal::from_units(42));
    let resource_id = ResourceID::new("widget1".to_string());
    let loc = Location::new(Some("main widget factory".to_string()), None);

    let testfn_inner = |user: &User,
                        member: &Member,
                        company: &Company,
                        agreement: &Agreement,
                        company_from: &Company,
                        company_to: &Company| {
        commitment::create(
            user,
            member,
            company,
            agreement,
            id.clone(),
            costs.clone(),
            OrderAction::Transfer,
            None,
            Some(loc.clone()),
            Some(now),
            None,
            None,
            Some(false),
            None,
            None,
            None,
            vec![],
            None,
            Some("widgetzz".to_string()),
            Some("sending widgets to larry".to_string()),
            None,
            AgentID::CompanyID(company_from.id.clone()),
            AgentID::CompanyID(company_to.id.clone()),
            None,
            Some(resource_id.clone()),
            Some(Measure::new(Decimal::from_units(10), Unit::One)),
            true,
            now,
        )
    };
    let testfn = |user: &User, member: &Member, company: &Company| {
        testfn_inner(user, member, company, &agreement, &company_from, &company_to)
    };

    let user_no_perms = User { id: user.id.clone(), permissions: vec![] };
    assert_eq!(
        testfn(&user_no_perms, &member, &company_to),
        Err(Error::InsufficientPrivileges)
    );
    let member_no_perms = make_member("member-1", &user, &company_to, "widget seller", vec![]);
    assert_eq!(
        testfn(&user, &member_no_perms, &company_to),
        Err(Error::InsufficientPrivileges)
    );
    let mut company_inactive = company_to.clone();
    company_inactive.active = false;
    assert_eq!(
        testfn(&user, &member, &company_inactive),
        Err(Error::ObjectIsInactive(ObjectKind::Company))
    );

    let mods = testfn(&user, &member, &company_to).unwrap().into_vec();
    assert_eq!(mods.len(), 1);

    let commitment = expect_commitment(&mods[0], Op::Create);
    assert_eq!(commitment.id, id);
    assert_eq!(commitment.move_costs, costs.clone());
    assert_eq!(commitment.inner.action, Action::Transfer);
    assert_eq!(commitment.inner.agreed_in, None);
    assert_eq!(commitment.inner.at_location, Some(loc.clone()));
    assert_eq!(commitment.inner.clause_of, Some(agreement.id.clone()));
    assert_eq!(commitment.inner.created, Some(now));
    assert_eq!(commitment.inner.due, None);
    assert_eq!(commitment.inner.effort_quantity, None);
    assert_eq!(commitment.inner.finished, Some(false));
    assert_eq!(commitment.inner.has_beginning, None);
    assert_eq!(commitment.inner.has_end, None);
    assert_eq!(commitment.inner.has_point_in_time, None);
    assert_eq!(commitment.inner.in_scope_of, vec![]);
    assert_eq!(commitment.inner.input_of, None);
    assert_eq!(commitment.inner.name, Some("widgetzz".to_string()));
    assert_eq!(
        commitment.inner.note,
        Some("sending widgets to larry".to_string())
    );
    assert_eq!(commitment.inner.output_of, None);
    assert_eq!(
        commitment.inner.provider,
        AgentID::CompanyID(company_from.id.clone())
    );
    assert_eq!(
        commitment.inner.receiver,
        AgentID::CompanyID(company_to.id.clone())
    );
    assert_eq!(commitment.inner.resource_conforms_to, None);
    assert_eq!(
        commitment.inner.resource_inventoried_as,
        Some(ResourceID::new("widget1".to_string()))
    );
    assert_eq!(
        commitment.inner.resource_quantity,
        Some(Measure::new(Decimal::from_units(10), Unit::One))
    );
    assert_eq!(commitment.active, true);
    assert_eq!(commitment.created, now);
    assert_eq!(commitment.updated, now);
    assert_eq!(commitment.deleted, None);

    // the acting company must be provider or receiver
    let mut company3 = company_to.clone();
    let mut company4 = company_to.clone();
    company3.id = CompanyID::new("bill's zingers, get your premium zings here. got a friend who constantly pranks you? turn the tables and zing that doofus in front of everyone!!".to_string());
    company4.id = CompanyID::new("jill's zingers, get the best zings here. turn that lame party into a laugh fest with some classic zingers. don't buy at bill's, he sucks.".to_string());
    let res = testfn_inner(&user, &member, &company_to, &agreement, &company3, &company4);
    assert_eq!(res, Err(Error::InsufficientPrivileges));

    // an emptied participant list rejects creation, whatever is granted
    let mut agreement2 = agreement.clone();
    agreement2.participants = vec![];
    let res = testfn_inner(&user, &member, &company_to, &agreement2, &company_from, &company_to);
    assert_eq!(res, Err(Error::InsufficientPrivileges));
}

#[test]
fn commitment_can_update() {
    let now = ts(1_000_000);
    let id = CommitmentID::new("commitment-1".to_string());
    let user = standard_user("user-1");
    let company_to = make_company("company-1", "larry's widget emporium", now);
    let member = make_member(
        "member-1",
        &user,
        &company_to,
        "widget seller",
        vec![
            CompanyPermission::CommitmentCreate,
            CompanyPermission::CommitmentUpdate,
        ],
    );
    let company_from = make_company("company-2", "bridget's widgets", now);
    let participants = vec![
        AgentID::CompanyID(company_from.id.clone()),
        AgentID::CompanyID(company_to.id.clone()),
    ];
    let agreement = make_agreement(
        "agreement-1",
        &participants,
        "order 111222",
        "UwU big order of widgetzzz",
        now,
    );
    let costs1 = Costs::new_with_labor("widgetmaker".to_string(), Decimal::from_units(42));
    let costs2 = Costs::new_with_labor("widgetmaker".to_string(), Decimal::from_units(31));
    let resource_id = ResourceID::new("widget1".to_string());
    let loc = Location::new(Some("main widget factory".to_string()), None);
    let agreement_url = "http://legalzoom.com/standard-widget-shopping-cart-agreement".to_string();

    let mods = commitment::create(
        &user,
        &member,
        &company_to,
        &agreement,
        id.clone(),
        costs1.clone(),
        OrderAction::Transfer,
        None,
        Some(loc.clone()),
        Some(now),
        None,
        None,
        Some(false),
        None,
        None,
        None,
        vec![],
        None,
        Some("widgetzz".to_string()),
        Some("sending widgets to larry".to_string()),
        None,
        AgentID::CompanyID(company_from.id.clone()),
        AgentID::CompanyID(company_to.id.clone()),
        None,
        Some(resource_id.clone()),
        Some(Measure::new(Decimal::from_units(10), Unit::One)),
        true,
        now,
    )
    .unwrap()
    .into_vec();
    let commitment1 = expect_commitment(&mods[0], Op::Create);
    let now2 = ts(2_000_000);

    let testfn = |user: &User, member: &Member, company: &Company| {
        commitment::update(
            user,
            member,
            company,
            commitment1.clone(),
            Some(costs2.clone()),
            None,
            Patch::Assign(agreement_url.clone()),
            Patch::Keep,
            Patch::Assign(now2),
            Patch::Keep,
            Patch::Keep,
            Patch::Assign(true),
            Patch::Assign(now),
            Patch::Keep,
            Patch::Keep,
            Some(vec![AgentID::CompanyID(company_from.id.clone())]),
            Patch::Keep,
            Patch::Keep,
            Patch::Assign("here, larry".to_string()),
            Patch::Keep,
            Patch::Keep,
            Patch::Keep,
            Patch::Assign(Measure::new(Decimal::from_units(50), Unit::One)),
            None,
            now2,
        )
    };

    let user_no_perms = User { id: user.id.clone(), permissions: vec![] };
    assert_eq!(
        testfn(&user_no_perms, &member, &company_to),
        Err(Error::InsufficientPrivileges)
    );
    let member_no_perms = make_member("member-1", &user, &company_to, "widget seller", vec![]);
    assert_eq!(
        testfn(&user, &member_no_perms, &company_to),
        Err(Error::InsufficientPrivileges)
    );
    let mut company_inactive = company_to.clone();
    company_inactive.active = false;
    assert_eq!(
        testfn(&user, &member, &company_inactive),
        Err(Error::ObjectIsInactive(ObjectKind::Company))
    );

    let mods = testfn(&user, &member, &company_to).unwrap().into_vec();
    let commitment2 = expect_commitment(&mods[0], Op::Update);

    assert_eq!(commitment2.id, commitment1.id);
    assert_eq!(commitment2.move_costs, costs2);
    assert_eq!(commitment2.inner.action, commitment1.inner.action);
    assert_eq!(commitment2.inner.agreed_in, Some(agreement_url.clone()));
    assert_eq!(commitment2.inner.at_location, commitment1.inner.at_location);
    assert_eq!(commitment2.inner.clause_of, commitment1.inner.clause_of);
    assert_eq!(commitment2.inner.created, Some(now2));
    assert_eq!(commitment2.inner.due, commitment1.inner.due);
    assert_eq!(
        commitment2.inner.effort_quantity,
        commitment1.inner.effort_quantity
    );
    assert_eq!(commitment2.inner.finished, Some(true));
    assert_eq!(commitment2.inner.has_beginning, Some(now));
    assert_eq!(commitment2.inner.has_end, commitment1.inner.has_end);
    assert_eq!(
        commitment2.inner.has_point_in_time,
        commitment1.inner.has_point_in_time
    );
    assert_eq!(
        commitment2.inner.in_scope_of,
        vec![AgentID::CompanyID(company_from.id.clone())]
    );
    assert_eq!(commitment2.inner.input_of, commitment1.inner.input_of);
    assert_eq!(commitment2.inner.name, commitment1.inner.name);
    assert_eq!(commitment2.inner.note, Some("here, larry".to_string()));
    assert_eq!(commitment2.inner.output_of, commitment1.inner.output_of);
    assert_eq!(commitment2.inner.provider, commitment1.inner.provider);
    assert_eq!(commitment2.inner.receiver, commitment1.inner.receiver);
    assert_eq!(
        commitment2.inner.resource_conforms_to,
        commitment1.inner.resource_conforms_to
    );
    assert_eq!(
        commitment2.inner.resource_inventoried_as,
        commitment1.inner.resource_inventoried_as
    );
    assert_eq!(
        commitment2.inner.resource_quantity,
        Some(Measure::new(Decimal::from_units(50), Unit::One))
    );
    assert_eq!(commitment2.active, true);
    assert_eq!(commitment2.created, now);
    assert_eq!(commitment2.updated, now2);
    assert_eq!(commitment2.deleted, None);
}

#[test]
fn can_delete() {
    let now = ts(1_000_000);
    let id = CommitmentID::new("commitment-1".to_string());
    let user = standard_user("user-1");
    let company_to = make_company("company-1", "larry's widget emporium", now);
    let member = make_member(
        "member-1",
        &user,
        &company_to,
        "widget seller",
        vec![
            CompanyPermission::CommitmentCreate,
            CompanyPermission::CommitmentDelete,
        ],
    );
    let company_from = make_company("company-2", "bridget's widgets", now);
    let participants = vec![
        AgentID::CompanyID(company_from.id.clone()),
        AgentID::CompanyID(company_to.id.clone()),
    ];
    let agreement = make_agreement(
        "agreement-1",
        &participants,
        "order 111222",
        "UwU big order of widgetzzz",
        now,
    );
    let costs1 = Costs::new_with_labor("widgetmaker".to_string(), Decimal::from_units(42));
    let resource_id = ResourceID::new("widget1".to_string());
    let loc = Location::new(Some("main widget factory".to_string()), None);

    let mods = commitment::create(
        &user,
        &member,
        &company_to,
        &agreement,
        id.clone(),
        costs1.clone(),
        OrderAction::Transfer,
        None,
        Some(loc.clone()),
        Some(now),
        None,
        None,
        Some(false),
        None,
        None,
        None,
        vec![],
        None,
        Some("widgetzz".to_string()),
        Some("sending widgets to larry".to_string()),
        None,
        AgentID::CompanyID(company_from.id.clone()),
        AgentID::CompanyID(company_to.id.clone()),
        None,
        Some(resource_id.clone()),
        Some(Measure::new(Decimal::from_units(10), Unit::One)),
        true,
        now,
    )
    .unwrap()
    .into_vec();
    let commitment1 = expect_commitment(&mods[0], Op::Create);
    let now2 = ts(2_000_000);

    let testfn = |user: &User, member: &Member, company: &Company, subject: &Commitment| {
        commitment::delete(user, member, company, subject.clone(), now2)
    };

    let user_no_perms = User { id: user.id.clone(), permissions: vec![] };
    assert_eq!(
        testfn(&user_no_perms, &member, &company_to, &commitment1),
        Err(Error::InsufficientPrivileges)
    );
    let member_no_perms = make_member("member-1", &user, &company_to, "widget seller", vec![]);
    assert_eq!(
        testfn(&user, &member_no_perms, &company_to, &commitment1),
        Err(Error::InsufficientPrivileges)
    );
    let mut company_inactive = company_to.clone();
    company_inactive.active = false;
    assert_eq!(
        testfn(&user, &member, &company_inactive, &commitment1),
        Err(Error::ObjectIsInactive(ObjectKind::Company))
    );

    let mods = testfn(&user, &member, &company_to, &commitment1)
        .unwrap()
        .into_vec();
    assert_eq!(mods.len(), 1);

    let commitment2 = expect_commitment(&mods[0], Op::Delete);
    assert_eq!(commitment2.id, commitment1.id);
    assert_eq!(commitment2.move_costs, commitment1.move_costs);
    assert_eq!(commitment2.inner.action, commitment1.inner.action);
    assert_eq!(commitment2.inner.agreed_in, commitment1.inner.agreed_in);
    assert_eq!(commitment2.inner.at_location, commitment1.inner.at_location);
    assert_eq!(commitment2.inner.clause_of, commitment1.inner.clause_of);
    assert_eq!(commitment2.inner.created, commitment1.inner.created);
    assert_eq!(commitment2.inner.due, commitment1.inner.due);
    assert_eq!(
        commitment2.inner.effort_quantity,
        commitment1.inner.effort_quantity
    );
    assert_eq!(commitment2.inner.finished, commitment1.inner.finished);
    assert_eq!(
        commitment2.inner.has_beginning,
        commitment1.inner.has_beginning
    );
    assert_eq!(commitment2.inner.has_end, commitment1.inner.has_end);
    assert_eq!(
        commitment2.inner.has_point_in_time,
        commitment1.inner.has_point_in_time
    );
    assert_eq!(commitment2.inner.in_scope_of, commitment1.inner.in_scope_of);
    assert_eq!(commitment2.inner.input_of, commitment1.inner.input_of);
    assert_eq!(commitment2.inner.name, commitment1.inner.name);
    assert_eq!(commitment2.inner.note, commitment1.inner.note);
    assert_eq!(commitment2.inner.output_of, commitment1.inner.output_of);
    assert_eq!(commitment2.inner.provider, commitment1.inner.provider);
    assert_eq!(commitment2.inner.receiver, commitment1.inner.receiver);
    assert_eq!(
        commitment2.inner.resource_conforms_to,
        commitment1.inner.resource_conforms_to
    );
    assert_eq!(
        commitment2.inner.resource_inventoried_as,
        commitment1.inner.resource_inventoried_as
    );
    assert_eq!(
        commitment2.inner.resource_quantity,
        commitment1.inner.resource_quantity
    );
    assert_eq!(commitment2.active, commitment1.active);
    assert_eq!(commitment2.created, commitment1.created);
    assert_eq!(commitment2.updated, commitment1.updated);
    assert_eq!(commitment2.deleted, Some(now2));

    // deleting an already-deleted record is rejected, both times
    let res = testfn(&user, &member, &company_to, &commitment2);
    assert_eq!(res, Err(Error::ObjectIsDeleted(ObjectKind::Commitment)));
    let res = testfn(&user, &member, &company_to, &commitment2);
    assert_eq!(res, Err(Error::ObjectIsDeleted(ObjectKind::Commitment)));
}

#[test]
fn can_deliver_service() {
    let now = ts(1_000_000);
    let id = EventID::new("event-1".to_string());
    let company_from = make_company("company-1", "jerry's planks", now);
    let company_to = make_company("company-2", "jinkey's skateboards", now);
    let user = standard_user("user-1");
    let member = make_member("member-1", &user, &company_from, "lawyer", vec![]);
    let process_from = make_process(
        "process-1",
        &company_from.id,
        "various lawyerings",
        &Costs::new_with_labor("lawyer".to_string(), Decimal::from_scaled(1_772_500)),
        now,
    );
    let process_to = make_process(
        "process-2",
        &company_to.id,
        "employee legal agreement drafting",
        &Costs::new_with_labor("lawyer".to_string(), Decimal::from_units(804)),
        now,
    );
    let move_costs = || Costs::new_with_labor("lawyer".to_string(), Decimal::from_units(100));

    let res = event::deliver_service(
        &user,
        &member,
        &company_from,
        &company_to,
        id.clone(),
        process_from.clone(),
        process_to.clone(),
        move_costs(),
        now,
    );
    assert_eq!(res, Err(Error::InsufficientPrivileges));

    let mut member = member.clone();
    member.permissions = vec![CompanyPermission::DeliverService];
    let mods = event::deliver_service(
        &user,
        &member,
        &company_from,
        &company_to,
        id.clone(),
        process_from.clone(),
        process_to.clone(),
        move_costs(),
        now,
    )
    .unwrap()
    .into_vec();
    assert_eq!(mods.len(), 3);
    let event_rec = expect_event(&mods[0], Op::Create);
    let process_from2 = expect_process(&mods[1], Op::Update);
    let process_to2 = expect_process(&mods[2], Op::Update);

    assert_eq!(event_rec.id, id);
    assert_eq!(event_rec.inner.action, Action::DeliverService);
    assert_eq!(event_rec.inner.agreed_in, None);
    assert_eq!(event_rec.inner.has_point_in_time, Some(now));
    assert_eq!(event_rec.inner.input_of, Some(process_to.id.clone()));
    assert_eq!(event_rec.inner.output_of, Some(process_from.id.clone()));
    assert_eq!(
        event_rec.inner.provider,
        AgentID::CompanyID(company_from.id.clone())
    );
    assert_eq!(
        event_rec.inner.receiver,
        AgentID::CompanyID(company_to.id.clone())
    );
    assert_eq!(event_rec.inner.resource_quantity, None);
    assert_eq!(event_rec.move_costs, Some(move_costs()));
    assert_eq!(event_rec.active, true);
    assert_eq!(event_rec.created, now);
    assert_eq!(event_rec.updated, now);

    let mut costs2 = Costs::new();
    costs2.track_labor(
        "lawyer".to_string(),
        Decimal::from_scaled(1_772_500 - 1_000_000),
    );
    assert_eq!(process_from2.id, process_from.id);
    assert_eq!(process_from2.company_id, company_from.id);
    assert_eq!(process_from2.costs, costs2);

    let mut costs2 = Costs::new();
    costs2.track_labor(
        "lawyer".to_string(),
        Decimal::from_scaled(8_040_000 + 1_000_000),
    );
    assert_eq!(process_to2.id, process_to.id);
    assert_eq!(process_to2.company_id, company_to.id);
    assert_eq!(process_to2.costs, costs2);

    // conservation: the combined ledger is unchanged by the movement
    let combined_pre = process_from.costs.merge(&process_to.costs);
    let combined_post = process_from2.costs.merge(&process_to2.costs);
    assert_eq!(combined_pre, combined_post);

    let user2 = User {
        id: UserID::new("user-2".to_string()),
        permissions: vec![],
    };
    let res = event::deliver_service(
        &user2,
        &member,
        &company_from,
        &company_to,
        id.clone(),
        process_from.clone(),
        process_to.clone(),
        move_costs(),
        now,
    );
    assert_eq!(res, Err(Error::InsufficientPrivileges));

    let mut member2 = member.clone();
    member2.permissions = vec![];
    let res = event::deliver_service(
        &user,
        &member2,
        &company_from,
        &company_to,
        id.clone(),
        process_from.clone(),
        process_to.clone(),
        move_costs(),
        now,
    );
    assert_eq!(res, Err(Error::InsufficientPrivileges));

    let mut company_from2 = company_from.clone();
    company_from2.deleted = Some(now);
    let res = event::deliver_service(
        &user,
        &member,
        &company_from2,
        &company_to,
        id.clone(),
        process_from.clone(),
        process_to.clone(),
        move_costs(),
        now,
    );
    assert_eq!(res, Err(Error::CompanyIsDeleted));

    let mut company_to2 = company_from.clone();
    company_to2.deleted = Some(now);
    let res = event::deliver_service(
        &user,
        &member,
        &company_from,
        &company_to2,
        id.clone(),
        process_from.clone(),
        process_to.clone(),
        move_costs(),
        now,
    );
    assert_eq!(res, Err(Error::CompanyIsDeleted));

    // cost cannot move out of a process the providing company does not own
    let mut process_from3 = process_from.clone();
    process_from3.company_id = CompanyID::new("zing".to_string());
    let res = event::deliver_service(
        &user,
        &member,
        &company_from,
        &company_to,
        id.clone(),
        process_from3.clone(),
        process_to.clone(),
        move_costs(),
        now,
    );
    assert_eq!(res, Err(Error::ProcessOwnerMismatch));

    // cost cannot move into a process the receiving company does not own
    let mut process_to3 = process_to.clone();
    process_to3.company_id = CompanyID::new("zing".to_string());
    let res = event::deliver_service(
        &user,
        &member,
        &company_from,
        &company_to,
        id.clone(),
        process_from.clone(),
        process_to3.clone(),
        move_costs(),
        now,
    );
    assert_eq!(res, Err(Error::ProcessOwnerMismatch));
}
