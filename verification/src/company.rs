use vstd::prelude::*;
use crate::agent::AgentID;
use crate::ids::CompanyID;
use crate::time::Timestamp;

verus! {

/// A company: the owning scope for agreements, commitments, intents, events
/// and processes.
#[derive(Clone, Debug, PartialEq, Eq)]
pub struct Company {
    pub id: CompanyID,
    pub name: String,
    pub active: bool,
    pub created: Timestamp,
    pub updated: Timestamp,
    pub deleted: Option<Timestamp>,
}

impl Company {
    /// Active means: flagged active and not soft-deleted.
    pub open spec fn is_active_spec(self) -> bool {
        self.active && self.deleted is None
    }

    pub open spec fn is_deleted_spec(self) -> bool {
        self.deleted is Some
    }

    pub fn is_active(&self) -> (r: bool)
        ensures
            r == self.is_active_spec(),
    {
        self.active && self.deleted.is_none()
    }

    pub fn is_deleted(&self) -> (r: bool)
        ensures
            r == self.is_deleted_spec(),
    {
        self.deleted.is_some()
    }

    /// This company's identity as an agent.
    pub fn agent_id(&self) -> (r: AgentID)
        ensures
            r == AgentID::CompanyID(self.id),
    {
        AgentID::CompanyID(self.id.clone())
    }
}

} // verus!
