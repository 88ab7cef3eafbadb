//! Permission-gated mutation layer for an economic record-keeping platform
//! built on a Resource-Event-Agent / Value-Flows ontology.
//!
//! Agents (banks, companies, members, regions, users) enter agreements, make
//! commitments, record events and express intents, while a parallel cost
//! ledger tracks labor and resource cost as it moves between processes.
//!
//! Every mutating operation takes the authenticated caller, the caller's
//! company membership, the target company, the referenced records and the
//! current timestamp, and returns either a complete batch of writes or a
//! single typed error with no partial effect. The central invariants —
//! two-tier access control, unambiguous partial updates, terminal soft
//! deletion, participant membership, and conservation of cost across a
//! movement — are stated in the contracts of the operations and proved.

pub mod access;
pub mod action;
pub mod agent;
pub mod agreement;
pub mod commitment;
pub mod company;
pub mod costs;
pub mod error;
pub mod event;
pub mod geo;
pub mod ids;
pub mod intent;
pub mod measure;
pub mod modifications;
pub mod patch;
pub mod process;
pub mod time;
