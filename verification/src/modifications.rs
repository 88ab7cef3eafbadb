use vstd::prelude::*;
use crate::agreement::Agreement;
use crate::commitment::Commitment;
use crate::event::Event;
use crate::intent::Intent;
use crate::process::Process;

verus! {

/// The write operation a modification carries.
#[derive(Clone, Copy, Debug, PartialEq, Eq, Structural)]
pub enum Op {
    Create,
    Update,
    Delete,
}

/// A snapshot of one record, tagged by kind.
#[derive(Clone, Debug, PartialEq)]
pub enum Record {
    Agreement(Agreement),
    Commitment(Commitment),
    Intent(Intent),
    Event(Event),
    Process(Process),
}

/// One write the caller must apply: an operation and the record snapshot it
/// concerns.
#[derive(Clone, Debug, PartialEq)]
pub struct Modification {
    pub op: Op,
    pub record: Record,
}

/// An ordered, append-only batch of writes produced by exactly one
/// transaction call. Storage must apply the whole batch or none of it; a
/// failed operation returns no batch at all.
#[derive(Clone, Debug, PartialEq)]
pub struct Modifications {
    pub mods: Vec<Modification>,
}

impl View for Modifications {
    type V = Seq<Modification>;

    open spec fn view(&self) -> Seq<Modification> {
        self.mods@
    }
}

impl Modifications {
    /// An empty batch.
    pub fn new() -> (r: Modifications)
        ensures
            r@ == Seq::<Modification>::empty(),
    {
        Modifications { mods: Vec::new() }
    }

    /// A batch holding exactly one write.
    pub fn new_single(op: Op, record: Record) -> (r: Modifications)
        ensures
            r@.len() == 1,
            r@[0] == (Modification { op, record }),
    {
        let mut mods: Vec<Modification> = Vec::new();
        mods.push(Modification { op, record });
        Modifications { mods }
    }

    /// Append one write to the batch.
    pub fn push(&mut self, op: Op, record: Record)
        ensures
            final(self)@ == old(self)@.push((Modification { op, record })),
    {
        self.mods.push(Modification { op, record });
    }

    pub fn len(&self) -> (r: usize)
        ensures
            r == self@.len(),
    {
        self.mods.len()
    }

    /// Surrender the batch as a plain vector, in order.
    pub fn into_vec(self) -> (r: Vec<Modification>)
        ensures
            r@ == self@,
    {
        self.mods
    }
}

} // verus!
