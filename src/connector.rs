//! Connection point between output slots and input slots of things.
use crate::item_stack::{InsertItemStackResult, ItemSlot, ItemSlotBuilder, ItemStack};
use vstd::prelude::*;

verus! {

/// How far a connector moves in one tick.
pub const CONNECTOR_SPEED: u32 = 5;

/// Whether the connector is traveling towards its input slot or output slot.
#[derive(Debug, PartialEq, Eq, Structural)]
pub enum ConnectorDirection {
    Input,
    Output,
}

#[derive(Debug, PartialEq, Eq, Structural)]
pub enum ConnectorStatus {
    WaitingOnInput,
    WaitingOnOutput,
    Traveling,
}

/// Ticks a connector of length `length` needs to cover it: `length / CONNECTOR_SPEED`, rounded up.
pub open spec fn travel_ticks(length: nat) -> nat {
    ((length + CONNECTOR_SPEED - 1) / (CONNECTOR_SPEED as int)) as nat
}

/// The fields of a [`Connector`].
pub struct ConnectorView {
    pub direction: ConnectorDirection,
    pub length: nat,
    pub position: nat,
    pub slot: ItemSlot,
}

impl ConnectorView {
    /// The position lies on the connector, the slot holds at most one unfiltered
    /// unit, and the connector heads for the output exactly while it carries a stack.
    pub open spec fn wf(self) -> bool {
        &&& self.position <= self.length
        &&& self.length <= u32::MAX
        &&& self.slot.wf()
        &&& self.slot.capacity == 1
        &&& self.slot.filter is None
        &&& (self.slot.stack is Some) == (self.direction is Output)
    }

    pub open spec fn status(self) -> ConnectorStatus {
        if self.position == 0 && self.slot.stack is None {
            ConnectorStatus::WaitingOnInput
        } else if self.position == self.length && self.slot.stack is Some {
            ConnectorStatus::WaitingOnOutput
        } else {
            ConnectorStatus::Traveling
        }
    }

    /// The connector after one tick: while traveling it moves `CONNECTOR_SPEED`
    /// towards the end it heads for, stopping at that end.
    pub open spec fn after_tick(self) -> ConnectorView {
        if self.status() != ConnectorStatus::Traveling {
            self
        } else if self.direction is Input {
            ConnectorView {
                position: if self.position <= CONNECTOR_SPEED {
                    0
                } else {
                    (self.position - CONNECTOR_SPEED) as nat
                },
                ..self
            }
        } else {
            ConnectorView {
                position: if self.position + CONNECTOR_SPEED >= self.length {
                    self.length
                } else {
                    (self.position + CONNECTOR_SPEED) as nat
                },
                ..self
            }
        }
    }

    /// The connector after `n` ticks.
    pub open spec fn ticks(self, n: nat) -> ConnectorView
        decreases n,
    {
        if n == 0 {
            self
        } else {
            self.ticks((n - 1) as nat).after_tick()
        }
    }
}

/// A link that carries one stack from its input end to its output end, then
/// travels back empty.
#[derive(Debug)]
pub struct Connector {
    direction: ConnectorDirection,
    /// How long the connector is between the input and output.
    length: u32,
    position: u32,
    item: ItemSlot,
}

impl View for Connector {
    type V = ConnectorView;

    closed spec fn view(&self) -> ConnectorView {
        ConnectorView {
            direction: self.direction,
            length: self.length as nat,
            position: self.position as nat,
            slot: self.item,
        }
    }
}

impl Connector {
    /// An empty connector of length `length`, waiting at its input end.
    pub fn new(length: u32) -> (r: Self)
        ensures
            r@.wf(),
            r@.direction is Input,
            r@.length == length,
            r@.position == 0,
            r@.slot.stack is None,
            r@.status() == ConnectorStatus::WaitingOnInput,
    {
        Connector {
            direction: ConnectorDirection::Input,
            length,
            position: 0,
            item: ItemSlotBuilder::new().with_capacity(1).build(),
        }
    }

    pub fn status(&self) -> (r: ConnectorStatus)
        ensures
            r == self@.status(),
    {
        if self.position == 0 && self.item.is_empty() {
            ConnectorStatus::WaitingOnInput
        } else if self.position == self.length && !self.item.is_empty() {
            ConnectorStatus::WaitingOnOutput
        } else {
            ConnectorStatus::Traveling
        }
    }

    pub fn length(&self) -> (r: u32)
        ensures
            r == self@.length,
    {
        self.length
    }

    pub fn position(&self) -> (r: u32)
        ensures
            r == self@.position,
    {
        self.position
    }

    /// Moves the connector one step while it travels; see [`ConnectorView::after_tick`].
    pub fn tick(&mut self)
        requires
            old(self)@.wf(),
        ensures
            final(self)@.wf(),
            final(self)@ == old(self)@.after_tick(),
    {
        if self.status() != ConnectorStatus::Traveling {
            return;
        }
        match self.direction {
            ConnectorDirection::Input => {
                self.position = if self.position <= CONNECTOR_SPEED {
                    0
                } else {
                    self.position - CONNECTOR_SPEED
                };
            },
            ConnectorDirection::Output => {
                self.position = if self.length - self.position <= CONNECTOR_SPEED {
                    self.length
                } else {
                    self.position + CONNECTOR_SPEED
                };
            },
        }
    }

    /// Inserts `stack` into the connector's slot; when the slot takes any of it the
    /// connector heads for its output end.
    ///
    /// This may be called again after the stack was taken at the output end.
    pub fn insert_stack(&mut self, stack: ItemStack) -> (r: InsertItemStackResult)
        requires
            old(self)@.wf(),
        ensures
            final(self)@.wf(),
            r == old(self)@.slot.insert_result(stack),
            final(self)@ == (ConnectorView {
                slot: old(self)@.slot.after_insert(stack),
                direction: if r.changed() {
                    ConnectorDirection::Output
                } else {
                    old(self)@.direction
                },
                ..old(self)@
            }),
    {
        let res = self.item.insert_item_stack(stack);
        if res.is_change() {
            self.direction = ConnectorDirection::Output;
        }
        res
    }

    /// Removes the carried stack and heads back for the input end.
    ///
    /// The connector must carry a stack: check for `WaitingOnOutput` first.
    pub fn take_stack(&mut self) -> (r: ItemStack)
        requires
            old(self)@.wf(),
            old(self)@.slot.stack is Some,
        ensures
            final(self)@.wf(),
            r == old(self)@.slot.stack->Some_0,
            final(self)@ == (ConnectorView {
                slot: ItemSlot { stack: None, ..old(self)@.slot },
                direction: ConnectorDirection::Input,
                ..old(self)@
            }),
    {
        self.direction = ConnectorDirection::Input;
        self.item.stack.take().unwrap()
    }
}

/// Carrying a stack out: from the input end, after `n` ticks the connector stands
/// at `min(length, n * CONNECTOR_SPEED)`, still carrying the stack. It waits on the
/// output from exactly `travel_ticks(length)` ticks on, and travels before that.
pub proof fn lemma_outbound_trip(v: ConnectorView, n: nat)
    requires
        v.wf(),
        v.position == 0,
        v.slot.stack is Some,
    ensures
        v.ticks(n).wf(),
        v.ticks(n).position == (if n * CONNECTOR_SPEED >= v.length {
            v.length
        } else {
            (n * CONNECTOR_SPEED) as nat
        }),
        v.ticks(n).slot == v.slot,
        v.ticks(n).length == v.length,
        (v.ticks(n).status() == ConnectorStatus::WaitingOnOutput) == (n >= travel_ticks(v.length)),
        n < travel_ticks(v.length) ==> v.ticks(n).status() == ConnectorStatus::Traveling,
    decreases n,
{
    if n > 0 {
        lemma_outbound_trip(v, (n - 1) as nat);
    }
}

/// Coming back: from the output end with the stack taken, after `n` ticks the
/// connector stands at `length - n * CONNECTOR_SPEED`, or at the input end once that
/// would be below zero. It waits on the input from exactly `travel_ticks(length)`
/// ticks on, and travels before that.
pub proof fn lemma_return_trip(v: ConnectorView, n: nat)
    requires
        v.wf(),
        v.position == v.length,
        v.slot.stack is None,
    ensures
        v.ticks(n).wf(),
        v.ticks(n).position == (if n * CONNECTOR_SPEED >= v.length {
            0
        } else {
            (v.length - n * CONNECTOR_SPEED) as nat
        }),
        v.ticks(n).slot == v.slot,
        v.ticks(n).length == v.length,
        (v.ticks(n).status() == ConnectorStatus::WaitingOnInput) == (n >= travel_ticks(v.length)),
        n < travel_ticks(v.length) ==> v.ticks(n).status() == ConnectorStatus::Traveling,
    decreases n,
{
    if n > 0 {
        lemma_return_trip(v, (n - 1) as nat);
    }
}

/// A connector's status depends on its fields alone: two connectors with the same
/// fields report the same status, however often it is asked.
pub proof fn lemma_connector_status_of_fields(a: &Connector, b: &Connector)
    requires
        a@ == b@,
    ensures
        a@.status() == b@.status(),
{
}

} // verus!
