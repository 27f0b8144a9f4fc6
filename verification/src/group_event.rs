//! Group events: what an application sends to and receives from the bus.

use vstd::prelude::*;

verus! {

/// The three services on a group address.
#[derive(Debug, Copy, Clone, PartialEq, Eq, Structural)]
pub enum GroupEventType {
    /// Asks the group for its value.
    GroupValueRead,
    /// Answers a read with the value.
    GroupValueResponse,
    /// Sets the value of the group.
    GroupValueWrite,
}

/// One event on a group address. A read carries no value: its `data` is not
/// looked at when it is sent, and is empty when it is received.
#[derive(Debug, Clone, PartialEq)]
pub struct GroupEvent<D> {
    pub address: u16,
    pub event_type: GroupEventType,
    pub data: D,
}

impl<D: View> View for GroupEvent<D> {
    type V = GroupEvent<D::V>;

    open spec fn view(&self) -> GroupEvent<D::V> {
        GroupEvent { address: self.address, event_type: self.event_type, data: self.data@ }
    }
}

} // verus!
