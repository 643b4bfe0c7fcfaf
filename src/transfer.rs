//! Moving stacks between producers and the connectors attached to them.
use crate::connector::{Connector, ConnectorDirection, ConnectorStatus, ConnectorView};
use crate::item_stack::{ItemSlot, ItemStack};
use crate::kinds::RecipeKind;
use crate::producer::{Producer, ProducerView};
use vstd::prelude::*;

verus! {

/// Hands one unit from the producer's first non-empty output slot to a connector
/// that waits at its input end. Returns whether a unit moved; otherwise nothing
/// changes. The unit leaves the producer and is then carried by the connector.
pub fn give_to_connector(producer: &mut Producer, connector: &mut Connector) -> (r: bool)
    requires
        old(producer)@.slots_wf(),
        old(connector)@.wf(),
    ensures
        final(connector)@.wf(),
        final(producer)@.slots_wf(),
        forall|recipes: Seq<RecipeKind>|
            old(producer)@.wf(recipes) ==> final(producer)@.wf(recipes),
        r == (old(connector)@.status() == ConnectorStatus::WaitingOnInput
            && old(producer)@.has_output()),
        !r ==> final(producer)@ == old(producer)@ && final(connector)@ == old(connector)@,
        forall|i: int|
            r && old(producer)@.is_first_output(i) ==> {
                &&& final(producer)@ == (ProducerView {
                    outputs: old(producer)@.outputs.update(
                        i,
                        old(producer)@.outputs[i].after_destroy(1),
                    ),
                    ..old(producer)@
                })
                &&& final(connector)@ == (ConnectorView {
                    slot: ItemSlot {
                        stack: Some(
                            ItemStack { item: old(producer)@.outputs[i].stack->Some_0.item, quantity: 1 },
                        ),
                        ..old(connector)@.slot
                    },
                    direction: ConnectorDirection::Output,
                    ..old(connector)@
                })
            },
{
    if connector.status() != ConnectorStatus::WaitingOnInput {
        return false;
    }
    if !producer.has_output() {
        return false;
    }
    let unit = producer.take_single_item();
    let _ = connector.insert_stack(unit);
    true
}

/// Delivers the stack that a connector carries, once it waits at its output end,
/// into the first input slot of the producer filtered to its kind. When the
/// producer takes it the connector heads back empty; when the producer has no
/// input slots, or turns the stack down, nothing changes. Returns whether the
/// producer took the stack.
pub fn deliver_from_connector(connector: &mut Connector, producer: &mut Producer) -> (r: bool)
    requires
        old(producer)@.slots_wf(),
        old(connector)@.wf(),
    ensures
        final(connector)@.wf(),
        final(producer)@.slots_wf(),
        forall|recipes: Seq<RecipeKind>|
            old(producer)@.wf(recipes) ==> final(producer)@.wf(recipes),
        !(old(connector)@.status() == ConnectorStatus::WaitingOnOutput
            && old(producer)@.inputs.len() > 0) ==> !r && final(producer)@ == old(producer)@
            && final(connector)@ == old(connector)@,
        (forall|i: int|
            0 <= i < old(producer)@.inputs.len() ==> (#[trigger] old(producer)@.inputs[i]).filter
                != Some(old(connector)@.slot.stack->Some_0.item)) ==> !r && final(producer)@
            == old(producer)@ && final(connector)@ == old(connector)@,
        forall|i: int|
            old(connector)@.status() == ConnectorStatus::WaitingOnOutput && old(
                producer,
            )@.is_ingredient_slot(i, old(connector)@.slot.stack->Some_0.item) ==> {
                let s = old(connector)@.slot.stack->Some_0;
                &&& r == old(producer)@.inputs[i].insert_result(s).changed()
                &&& final(producer)@ == (ProducerView {
                    inputs: old(producer)@.inputs.update(i, old(producer)@.inputs[i].after_insert(s)),
                    ..old(producer)@
                })
                &&& final(connector)@ == (if r {
                    ConnectorView {
                        slot: ItemSlot { stack: None, ..old(connector)@.slot },
                        direction: ConnectorDirection::Input,
                        ..old(connector)@
                    }
                } else {
                    old(connector)@
                })
            },
{
    if connector.status() != ConnectorStatus::WaitingOnOutput {
        return false;
    }
    if !producer.takes_input() {
        return false;
    }
    let ghost c = connector@;
    let stack = connector.take_stack();
    assert(stack.quantity == 1);
    let result = producer.try_insert_ingredient(stack);
    let moved = result.is_change();
    match result.get_item_stack() {
        Some(rest) => {
            let _ = connector.insert_stack(rest);
            assert(connector@ == c);
        },
        None => {},
    }
    moved
}

} // verus!
