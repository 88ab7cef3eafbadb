use vstd::prelude::*;

verus! {

/// Identifies a bank.
#[derive(Debug, PartialEq, Eq)]
pub struct BankID {
    pub id: String,
}

impl BankID {
    pub fn new(id: String) -> (r: BankID)
        ensures
            r.id == id,
    {
        BankID { id }
    }
}

impl Clone for BankID {
    fn clone(&self) -> (r: Self)
        ensures
            r == *self,
    {
        BankID { id: self.id.clone() }
    }
}

impl View for BankID {
    type V = Seq<char>;

    open spec fn view(&self) -> Seq<char> {
        self.id@
    }
}

/// Identifies a company.
#[derive(Debug, PartialEq, Eq)]
pub struct CompanyID {
    pub id: String,
}

impl CompanyID {
    pub fn new(id: String) -> (r: CompanyID)
        ensures
            r.id == id,
    {
        CompanyID { id }
    }
}

impl Clone for CompanyID {
    fn clone(&self) -> (r: Self)
        ensures
            r == *self,
    {
        CompanyID { id: self.id.clone() }
    }
}

impl View for CompanyID {
    type V = Seq<char>;

    open spec fn view(&self) -> Seq<char> {
        self.id@
    }
}

/// Identifies a company membership record.
#[derive(Debug, PartialEq, Eq)]
pub struct CompanyMemberID {
    pub id: String,
}

impl CompanyMemberID {
    pub fn new(id: String) -> (r: CompanyMemberID)
        ensures
            r.id == id,
    {
        CompanyMemberID { id }
    }
}

impl Clone for CompanyMemberID {
    fn clone(&self) -> (r: Self)
        ensures
            r == *self,
    {
        CompanyMemberID { id: self.id.clone() }
    }
}

impl View for CompanyMemberID {
    type V = Seq<char>;

    open spec fn view(&self) -> Seq<char> {
        self.id@
    }
}

/// Identifies a region.
#[derive(Debug, PartialEq, Eq)]
pub struct RegionID {
    pub id: String,
}

impl RegionID {
    pub fn new(id: String) -> (r: RegionID)
        ensures
            r.id == id,
    {
        RegionID { id }
    }
}

impl Clone for RegionID {
    fn clone(&self) -> (r: Self)
        ensures
            r == *self,
    {
        RegionID { id: self.id.clone() }
    }
}

impl View for RegionID {
    type V = Seq<char>;

    open spec fn view(&self) -> Seq<char> {
        self.id@
    }
}

/// Identifies a user.
#[derive(Debug, PartialEq, Eq)]
pub struct UserID {
    pub id: String,
}

impl UserID {
    pub fn new(id: String) -> (r: UserID)
        ensures
            r.id == id,
    {
        UserID { id }
    }
}

impl Clone for UserID {
    fn clone(&self) -> (r: Self)
        ensures
            r == *self,
    {
        UserID { id: self.id.clone() }
    }
}

impl View for UserID {
    type V = Seq<char>;

    open spec fn view(&self) -> Seq<char> {
        self.id@
    }
}

/// Identifies an agreement (an order).
#[derive(Debug, PartialEq, Eq)]
pub struct AgreementID {
    pub id: String,
}

impl AgreementID {
    pub fn new(id: String) -> (r: AgreementID)
        ensures
            r.id == id,
    {
        AgreementID { id }
    }
}

impl Clone for AgreementID {
    fn clone(&self) -> (r: Self)
        ensures
            r == *self,
    {
        AgreementID { id: self.id.clone() }
    }
}

impl View for AgreementID {
    type V = Seq<char>;

    open spec fn view(&self) -> Seq<char> {
        self.id@
    }
}

/// Identifies a commitment (a line item in an order).
#[derive(Debug, PartialEq, Eq)]
pub struct CommitmentID {
    pub id: String,
}

impl CommitmentID {
    pub fn new(id: String) -> (r: CommitmentID)
        ensures
            r.id == id,
    {
        CommitmentID { id }
    }
}

impl Clone for CommitmentID {
    fn clone(&self) -> (r: Self)
        ensures
            r == *self,
    {
        CommitmentID { id: self.id.clone() }
    }
}

impl View for CommitmentID {
    type V = Seq<char>;

    open spec fn view(&self) -> Seq<char> {
        self.id@
    }
}

/// Identifies an intent (a proposed economic action).
#[derive(Debug, PartialEq, Eq)]
pub struct IntentID {
    pub id: String,
}

impl IntentID {
    pub fn new(id: String) -> (r: IntentID)
        ensures
            r.id == id,
    {
        IntentID { id }
    }
}

impl Clone for IntentID {
    fn clone(&self) -> (r: Self)
        ensures
            r == *self,
    {
        IntentID { id: self.id.clone() }
    }
}

impl View for IntentID {
    type V = Seq<char>;

    open spec fn view(&self) -> Seq<char> {
        self.id@
    }
}

/// Identifies a recorded economic event.
#[derive(Debug, PartialEq, Eq)]
pub struct EventID {
    pub id: String,
}

impl EventID {
    pub fn new(id: String) -> (r: EventID)
        ensures
            r.id == id,
    {
        EventID { id }
    }
}

impl Clone for EventID {
    fn clone(&self) -> (r: Self)
        ensures
            r == *self,
    {
        EventID { id: self.id.clone() }
    }
}

impl View for EventID {
    type V = Seq<char>;

    open spec fn view(&self) -> Seq<char> {
        self.id@
    }
}

/// Identifies a process.
#[derive(Debug, PartialEq, Eq)]
pub struct ProcessID {
    pub id: String,
}

impl ProcessID {
    pub fn new(id: String) -> (r: ProcessID)
        ensures
            r.id == id,
    {
        ProcessID { id }
    }
}

impl Clone for ProcessID {
    fn clone(&self) -> (r: Self)
        ensures
            r == *self,
    {
        ProcessID { id: self.id.clone() }
    }
}

impl View for ProcessID {
    type V = Seq<char>;

    open spec fn view(&self) -> Seq<char> {
        self.id@
    }
}

/// Identifies a concrete resource.
#[derive(Debug, PartialEq, Eq)]
pub struct ResourceID {
    pub id: String,
}

impl ResourceID {
    pub fn new(id: String) -> (r: ResourceID)
        ensures
            r.id == id,
    {
        ResourceID { id }
    }
}

impl Clone for ResourceID {
    fn clone(&self) -> (r: Self)
        ensures
            r == *self,
    {
        ResourceID { id: self.id.clone() }
    }
}

impl View for ResourceID {
    type V = Seq<char>;

    open spec fn view(&self) -> Seq<char> {
        self.id@
    }
}

/// Identifies a resource specification.
#[derive(Debug, PartialEq, Eq)]
pub struct ResourceSpecID {
    pub id: String,
}

impl ResourceSpecID {
    pub fn new(id: String) -> (r: ResourceSpecID)
        ensures
            r.id == id,
    {
        ResourceSpecID { id }
    }
}

impl Clone for ResourceSpecID {
    fn clone(&self) -> (r: Self)
        ensures
            r == *self,
    {
        ResourceSpecID { id: self.id.clone() }
    }
}

impl View for ResourceSpecID {
    type V = Seq<char>;

    open spec fn view(&self) -> Seq<char> {
        self.id@
    }
}

/// Identifies an occupation (a labor cost category).
#[derive(Debug, PartialEq, Eq)]
pub struct OccupationID {
    pub id: String,
}

impl OccupationID {
    pub fn new(id: String) -> (r: OccupationID)
        ensures
            r.id == id,
    {
        OccupationID { id }
    }
}

impl Clone for OccupationID {
    fn clone(&self) -> (r: Self)
        ensures
            r == *self,
    {
        OccupationID { id: self.id.clone() }
    }
}

impl View for OccupationID {
    type V = Seq<char>;

    open spec fn view(&self) -> Seq<char> {
        self.id@
    }
}

} // verus!
