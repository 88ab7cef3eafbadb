use vstd::prelude::*;

verus! {

/// Action of a promised or recorded economic event (the Value-Flows action
/// vocabulary, restricted to the kinds this layer moves cost with).
#[derive(Clone, Copy, Debug, PartialEq, Eq, Structural)]
pub enum Action {
    /// A service is delivered.
    DeliverService,
    /// A resource changes ownership and custody.
    Transfer,
    /// A resource's custody changes for a period of time.
    TransferCustody,
}

/// Action kind selectable on an order line (a commitment).
#[derive(Clone, Copy, Debug, PartialEq, Eq, Structural)]
pub enum OrderAction {
    /// A service will be delivered.
    DeliverService,
    /// A resource will be transferred (ownership and custody).
    Transfer,
    /// A resource's custody will be transferred for a period of time
    /// (rental).
    TransferCustody,
}

/// The event action an order action stands for.
pub open spec fn action_of_order(action: OrderAction) -> Action {
    match action {
        OrderAction::DeliverService => Action::DeliverService,
        OrderAction::Transfer => Action::Transfer,
        OrderAction::TransferCustody => Action::TransferCustody,
    }
}

impl OrderAction {
    /// Convert into the event action this order action stands for.
    pub fn to_action(&self) -> (r: Action)
        ensures
            r == action_of_order(*self),
    {
        match self {
            OrderAction::DeliverService => Action::DeliverService,
            OrderAction::Transfer => Action::Transfer,
            OrderAction::TransferCustody => Action::TransferCustody,
        }
    }
}

} // verus!
