use vstd::prelude::*;

verus! {

/// The kind of record a lifecycle failure refers to.
#[derive(Clone, Copy, Debug, PartialEq, Eq, Structural)]
pub enum ObjectKind {
    Company,
    Agreement,
    Commitment,
    Intent,
    Event,
    Process,
}

/// Typed failure of a mutation operation.
///
/// Every operation is fail-fast: the first violated precondition aborts the
/// whole call with one of these values and no partial modification batch.
#[derive(Clone, Copy, Debug, PartialEq, Eq, Structural)]
pub enum Error {
    /// An authorization check failed, or the caller is not party to the
    /// agreement it is operating under. Participation failures are
    /// deliberately surfaced as privilege failures, not as a kind of their
    /// own.
    InsufficientPrivileges,
    /// A lifecycle gate found the named record inactive.
    ObjectIsInactive(ObjectKind),
    /// A lifecycle gate found the named record already soft-deleted.
    ObjectIsDeleted(ObjectKind),
    /// The target company has been soft-deleted.
    CompanyIsDeleted,
    /// An agent identity was narrowed to a concrete kind it does not hold.
    WrongAgentIDType,
    /// A cost movement touched a process the expected company does not own.
    ProcessOwnerMismatch,
}

} // verus!
