use vstd::prelude::*;
use crate::costs::Costs;
use crate::ids::{CompanyID, ProcessID};
use crate::time::Timestamp;

verus! {

/// A unit of economic activity that accumulates cost. Only cost-movement
/// operations mutate its ledger, by adding or subtracting into `costs`.
#[derive(Clone, Debug, PartialEq)]
pub struct Process {
    pub id: ProcessID,
    pub company_id: CompanyID,
    pub name: String,
    pub costs: Costs,
    pub active: bool,
    pub created: Timestamp,
    pub updated: Timestamp,
    pub deleted: Option<Timestamp>,
}

} // verus!
