use vstd::prelude::*;
use crate::error::Error;
use crate::ids::{BankID, CompanyID, CompanyMemberID, RegionID, UserID};

verus! {

/// Tagged identity union over the five actor kinds of the network.
///
/// Exactly one variant is populated. Conversion from a concrete identifier is
/// total; narrowing back to a concrete kind is partial and fails with
/// [`Error::WrongAgentIDType`] when the variant does not match.
#[derive(Debug, PartialEq, Eq)]
pub enum AgentID {
    BankID(BankID),
    CompanyID(CompanyID),
    CompanyMemberID(CompanyMemberID),
    RegionID(RegionID),
    UserID(UserID),
}

impl Clone for AgentID {
    fn clone(&self) -> (r: Self)
        ensures
            r == *self,
    {
        match self {
            AgentID::BankID(id) => AgentID::BankID(id.clone()),
            AgentID::CompanyID(id) => AgentID::CompanyID(id.clone()),
            AgentID::CompanyMemberID(id) => AgentID::CompanyMemberID(id.clone()),
            AgentID::RegionID(id) => AgentID::RegionID(id.clone()),
            AgentID::UserID(id) => AgentID::UserID(id.clone()),
        }
    }
}

impl AgentID {
    /// Two agent identities refer to the same agent: same kind, same
    /// identifier text.
    pub open spec fn same_as(self, other: AgentID) -> bool {
        match (self, other) {
            (AgentID::BankID(a), AgentID::BankID(b)) => a@ == b@,
            (AgentID::CompanyID(a), AgentID::CompanyID(b)) => a@ == b@,
            (AgentID::CompanyMemberID(a), AgentID::CompanyMemberID(b)) => a@ == b@,
            (AgentID::RegionID(a), AgentID::RegionID(b)) => a@ == b@,
            (AgentID::UserID(a), AgentID::UserID(b)) => a@ == b@,
            _ => false,
        }
    }

    /// Decides whether `self` and `other` identify the same agent.
    pub fn same_agent(&self, other: &AgentID) -> (r: bool)
        ensures
            r == self.same_as(*other),
    {
        match (self, other) {
            (AgentID::BankID(a), AgentID::BankID(b)) => a.id == b.id,
            (AgentID::CompanyID(a), AgentID::CompanyID(b)) => a.id == b.id,
            (AgentID::CompanyMemberID(a), AgentID::CompanyMemberID(b)) => a.id == b.id,
            (AgentID::RegionID(a), AgentID::RegionID(b)) => a.id == b.id,
            (AgentID::UserID(a), AgentID::UserID(b)) => a.id == b.id,
            _ => false,
        }
    }

    /// Total constructor from a bank identifier.
    pub fn from_bank_id(id: BankID) -> (r: AgentID)
        ensures
            r == AgentID::BankID(id),
    {
        AgentID::BankID(id)
    }

    /// Total constructor from a company identifier.
    pub fn from_company_id(id: CompanyID) -> (r: AgentID)
        ensures
            r == AgentID::CompanyID(id),
    {
        AgentID::CompanyID(id)
    }

    /// Total constructor from a company member identifier.
    pub fn from_company_member_id(id: CompanyMemberID) -> (r: AgentID)
        ensures
            r == AgentID::CompanyMemberID(id),
    {
        AgentID::CompanyMemberID(id)
    }

    /// Total constructor from a region identifier.
    pub fn from_region_id(id: RegionID) -> (r: AgentID)
        ensures
            r == AgentID::RegionID(id),
    {
        AgentID::RegionID(id)
    }

    /// Total constructor from a user identifier.
    pub fn from_user_id(id: UserID) -> (r: AgentID)
        ensures
            r == AgentID::UserID(id),
    {
        AgentID::UserID(id)
    }

    /// Fallible narrowing to a bank identifier.
    pub fn into_bank_id(self) -> (r: Result<BankID, Error>)
        ensures
            self matches AgentID::BankID(id) ==> r == Ok::<BankID, Error>(id),
            !(self is BankID) ==> r == Err::<BankID, Error>(Error::WrongAgentIDType),
    {
        match self {
            AgentID::BankID(id) => Ok(id),
            _ => Err(Error::WrongAgentIDType),
        }
    }

    /// Fallible narrowing to a company identifier.
    pub fn into_company_id(self) -> (r: Result<CompanyID, Error>)
        ensures
            self matches AgentID::CompanyID(id) ==> r == Ok::<CompanyID, Error>(id),
            !(self is CompanyID) ==> r == Err::<CompanyID, Error>(Error::WrongAgentIDType),
    {
        match self {
            AgentID::CompanyID(id) => Ok(id),
            _ => Err(Error::WrongAgentIDType),
        }
    }

    /// Fallible narrowing to a company member identifier.
    pub fn into_company_member_id(self) -> (r: Result<CompanyMemberID, Error>)
        ensures
            self matches AgentID::CompanyMemberID(id) ==> r == Ok::<CompanyMemberID, Error>(id),
            !(self is CompanyMemberID) ==> r == Err::<CompanyMemberID, Error>(
                Error::WrongAgentIDType,
            ),
    {
        match self {
            AgentID::CompanyMemberID(id) => Ok(id),
            _ => Err(Error::WrongAgentIDType),
        }
    }

    /// Fallible narrowing to a region identifier.
    pub fn into_region_id(self) -> (r: Result<RegionID, Error>)
        ensures
            self matches AgentID::RegionID(id) ==> r == Ok::<RegionID, Error>(id),
            !(self is RegionID) ==> r == Err::<RegionID, Error>(Error::WrongAgentIDType),
    {
        match self {
            AgentID::RegionID(id) => Ok(id),
            _ => Err(Error::WrongAgentIDType),
        }
    }

    /// Fallible narrowing to a user identifier.
    pub fn into_user_id(self) -> (r: Result<UserID, Error>)
        ensures
            self matches AgentID::UserID(id) ==> r == Ok::<UserID, Error>(id),
            !(self is UserID) ==> r == Err::<UserID, Error>(Error::WrongAgentIDType),
    {
        match self {
            AgentID::UserID(id) => Ok(id),
            _ => Err(Error::WrongAgentIDType),
        }
    }
}

} // verus!
