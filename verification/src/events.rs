//! The events that the controller emits, in the order of emission.

use crate::config::RoleLabel;
use crate::types::{value_views, Address, Symbol, Value, ValueView};
use vstd::prelude::*;

verus! {

/// A call was scheduled, alone or as the item `index` of a batch.
#[derive(Debug, PartialEq, Eq)]
pub struct CallScheduledEvent {
    pub opt_id: [u8; 32],
    pub index: u32,
    pub target: Address,
    pub fn_name: Symbol,
    pub data: Vec<Value>,
    /// The predecessor's id; 32 zero bytes where there is none.
    pub predecessor: [u8; 32],
    pub delay: u64,
}

/// A call was executed, alone or as the item `index` of a batch.
#[derive(Debug, PartialEq, Eq)]
pub struct CallExecutedEvent {
    pub opt_id: [u8; 32],
    pub index: u32,
    pub target: Address,
    pub fn_name: Symbol,
    pub data: Vec<Value>,
}

/// Something that the controller tells the outside world.
#[derive(Debug, PartialEq, Eq)]
pub enum Event {
    RoleGranted { role: RoleLabel, account: Address },
    RoleRevoked { role: RoleLabel, account: Address },
    OwnerSet { account: Address },
    MinDelayUpdated { delay: u64 },
    SelfManaged { flag: bool },
    CallScheduled(CallScheduledEvent),
    CallExecuted(CallExecutedEvent),
    OperationCancelled { id: [u8; 32] },
}

/// What an `Event` holds.
pub enum EventView {
    RoleGranted { role: RoleLabel, account: Address },
    RoleRevoked { role: RoleLabel, account: Address },
    OwnerSet { account: Address },
    MinDelayUpdated { delay: u64 },
    SelfManaged { flag: bool },
    CallScheduled {
        id: [u8; 32],
        index: u32,
        target: Address,
        fn_name: Seq<char>,
        data: Seq<ValueView>,
        predecessor: [u8; 32],
        delay: u64,
    },
    CallExecuted {
        id: [u8; 32],
        index: u32,
        target: Address,
        fn_name: Seq<char>,
        data: Seq<ValueView>,
    },
    OperationCancelled { id: [u8; 32] },
}

impl View for Event {
    type V = EventView;

    open spec fn view(&self) -> EventView {
        match *self {
            Event::RoleGranted { role, account } => EventView::RoleGranted { role, account },
            Event::RoleRevoked { role, account } => EventView::RoleRevoked { role, account },
            Event::OwnerSet { account } => EventView::OwnerSet { account },
            Event::MinDelayUpdated { delay } => EventView::MinDelayUpdated { delay },
            Event::SelfManaged { flag } => EventView::SelfManaged { flag },
            Event::CallScheduled(event) => EventView::CallScheduled {
                id: event.opt_id,
                index: event.index,
                target: event.target,
                fn_name: event.fn_name@,
                data: value_views(event.data@),
                predecessor: event.predecessor,
                delay: event.delay,
            },
            Event::CallExecuted(event) => EventView::CallExecuted {
                id: event.opt_id,
                index: event.index,
                target: event.target,
                fn_name: event.fn_name@,
                data: value_views(event.data@),
            },
            Event::OperationCancelled { id } => EventView::OperationCancelled { id },
        }
    }
}

/// What each of the given events holds.
pub open spec fn event_views(events: Seq<Event>) -> Seq<EventView> {
    events.map_values(|event: Event| event@)
}

/// Appends `event` to `events`.
pub fn publish(events: &mut Vec<Event>, event: Event)
    ensures
        event_views(final(events)@) == event_views(old(events)@).push(event@),
{
    events.push(event);
    assert(event_views(events@) =~= event_views(old(events)@).push(event@));
}

} // verus!
