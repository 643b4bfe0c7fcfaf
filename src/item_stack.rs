//! Item stacks and the bounded, optionally filtered slots that hold them.
use crate::kinds::{ItemKind, RecipeInput, RecipeOutput};
use crate::registry::Handle;
use vstd::prelude::*;

verus! {

/// Quantity of items in a stack or a slot.
pub type ItemStackQuanity = u16;

/// A quantity of items of a single kind; a stack in use always holds at least one.
#[derive(Debug)]
pub struct ItemStack {
    pub item: Handle<ItemKind>,
    pub quantity: ItemStackQuanity,
}

impl ItemStack {
    /// The stack that one production cycle yields for `recipe_output`.
    pub fn from_recipe_output(recipe_output: &RecipeOutput) -> (r: Self)
        ensures
            r.item == recipe_output.item,
            r.quantity == recipe_output.quantity,
    {
        ItemStack { item: recipe_output.item, quantity: recipe_output.quantity }
    }

    /// Splits one unit off: the rest (none when the stack held one unit) and the unit.
    pub fn split_single(self) -> (r: (Option<Self>, Self))
        requires
            self.quantity >= 1,
        ensures
            r.1 == (ItemStack { item: self.item, quantity: 1 }),
            r.0 == (if self.quantity == 1 {
                None
            } else {
                Some(ItemStack { item: self.item, quantity: (self.quantity - 1) as u16 })
            }),
    {
        if self.quantity == 1 {
            return (None, self);
        }
        let single_stack = ItemStack { item: self.item, quantity: 1 };
        let rest = ItemStack { item: self.item, quantity: self.quantity - 1 };
        (Some(rest), single_stack)
    }
}

/// Outcome of inserting a stack into a slot; every variant but the first hands back
/// what the slot did not take.
#[must_use]
#[derive(Debug)]
pub enum InsertItemStackResult {
    /// The whole stack went into the slot.
    StackConsumed,
    /// Part of the stack went into the slot; the rest is returned.
    StackPartiallyConsumed(ItemStack),
    /// The slot's filter names another kind; the stack is returned untouched.
    FilterError(ItemStack),
    /// The slot holds a stack of another kind; the stack is returned untouched.
    ItemSlotTaken(ItemStack),
    /// The slot has no room left; the stack is returned untouched.
    ItemSlotFull(ItemStack),
}

impl InsertItemStackResult {
    /// The stack handed back, if any.
    pub open spec fn remainder(&self) -> Option<ItemStack> {
        match self {
            InsertItemStackResult::StackConsumed => None,
            InsertItemStackResult::StackPartiallyConsumed(s) => Some(*s),
            InsertItemStackResult::FilterError(s) => Some(*s),
            InsertItemStackResult::ItemSlotTaken(s) => Some(*s),
            InsertItemStackResult::ItemSlotFull(s) => Some(*s),
        }
    }

    /// Units handed back.
    pub open spec fn returned(&self) -> nat {
        match self.remainder() {
            Some(s) => s.quantity as nat,
            None => 0,
        }
    }

    /// Whether the slot took at least one unit.
    pub open spec fn changed(&self) -> bool {
        self is StackConsumed || self is StackPartiallyConsumed
    }

    pub fn get_item_stack(self) -> (r: Option<ItemStack>)
        ensures
            r == self.remainder(),
    {
        match self {
            InsertItemStackResult::StackConsumed => None,
            InsertItemStackResult::StackPartiallyConsumed(stack) => Some(stack),
            InsertItemStackResult::FilterError(stack) => Some(stack),
            InsertItemStackResult::ItemSlotTaken(stack) => Some(stack),
            InsertItemStackResult::ItemSlotFull(stack) => Some(stack),
        }
    }

    pub fn is_change(&self) -> (r: bool)
        ensures
            r == self.changed(),
    {
        match self {
            InsertItemStackResult::StackConsumed => true,
            InsertItemStackResult::StackPartiallyConsumed(..) => true,
            _ => false,
        }
    }
}

/// Builds an [`ItemSlot`]: by default unfiltered, with the largest capacity.
pub struct ItemSlotBuilder {
    capacity: ItemStackQuanity,
    filter: Option<Handle<ItemKind>>,
}

impl ItemSlotBuilder {
    pub closed spec fn capacity_spec(&self) -> ItemStackQuanity {
        self.capacity
    }

    pub closed spec fn filter_spec(&self) -> Option<Handle<ItemKind>> {
        self.filter
    }

    pub fn new() -> (r: Self)
        ensures
            r.capacity_spec() == ItemStackQuanity::MAX,
            r.filter_spec() is None,
    {
        ItemSlotBuilder { capacity: ItemStackQuanity::MAX, filter: None }
    }

    pub fn with_capacity(self, capacity: ItemStackQuanity) -> (r: Self)
        ensures
            r.capacity_spec() == capacity,
            r.filter_spec() == self.filter_spec(),
    {
        ItemSlotBuilder { capacity, filter: self.filter }
    }

    pub fn with_filter(self, filter: Handle<ItemKind>) -> (r: Self)
        ensures
            r.capacity_spec() == self.capacity_spec(),
            r.filter_spec() == Some(filter),
    {
        ItemSlotBuilder { capacity: self.capacity, filter: Some(filter) }
    }

    /// An empty slot with the capacity and filter chosen so far.
    pub fn build(self) -> (r: ItemSlot)
        ensures
            r.wf(),
            r.stack is None,
            r.capacity == self.capacity_spec(),
            r.filter == self.filter_spec(),
    {
        ItemSlot { capacity: self.capacity, filter: self.filter, stack: None }
    }
}

/// A container for at most one stack, holding at most `capacity` units, and only
/// items of kind `filter` when a filter is set.
#[derive(Debug)]
pub struct ItemSlot {
    pub stack: Option<ItemStack>,
    pub capacity: ItemStackQuanity,
    pub filter: Option<Handle<ItemKind>>,
}

impl ItemSlot {
    /// Units held.
    pub open spec fn held(&self) -> nat {
        match self.stack {
            Some(s) => s.quantity as nat,
            None => 0,
        }
    }

    /// Whether `item` passes the slot's filter.
    pub open spec fn admits(&self, item: Handle<ItemKind>) -> bool {
        match self.filter {
            Some(f) => f == item,
            None => true,
        }
    }

    /// A held stack is non-empty, fits the capacity and passes the filter.
    pub open spec fn wf(&self) -> bool {
        match self.stack {
            Some(s) => s.quantity > 0 && s.quantity <= self.capacity && self.admits(s.item),
            None => true,
        }
    }

    /// Units that can still be added.
    pub open spec fn room(&self) -> int {
        self.capacity - self.held()
    }

    /// Whether the held stack, if any, is of another kind than `item`.
    pub open spec fn taken_by_other(&self, item: Handle<ItemKind>) -> bool {
        match self.stack {
            Some(s) => s.item != item,
            None => false,
        }
    }

    /// Units of `stack` that an insertion moves into the slot.
    pub open spec fn accepted(&self, stack: ItemStack) -> int {
        if stack.quantity <= self.room() {
            stack.quantity as int
        } else {
            self.room()
        }
    }

    /// The slot after inserting `stack`.
    pub open spec fn after_insert(self, stack: ItemStack) -> ItemSlot {
        if !self.admits(stack.item) || self.taken_by_other(stack.item) || self.accepted(stack)
            == 0 {
            self
        } else {
            ItemSlot {
                stack: Some(
                    ItemStack {
                        item: stack.item,
                        quantity: (self.held() + self.accepted(stack)) as u16,
                    },
                ),
                ..self
            }
        }
    }

    /// What inserting `stack` returns.
    pub open spec fn insert_result(self, stack: ItemStack) -> InsertItemStackResult {
        if !self.admits(stack.item) {
            InsertItemStackResult::FilterError(stack)
        } else if self.taken_by_other(stack.item) {
            InsertItemStackResult::ItemSlotTaken(stack)
        } else if self.accepted(stack) == 0 {
            InsertItemStackResult::ItemSlotFull(stack)
        } else if self.accepted(stack) == stack.quantity {
            InsertItemStackResult::StackConsumed
        } else {
            InsertItemStackResult::StackPartiallyConsumed(
                ItemStack { item: stack.item, quantity: (stack.quantity - self.accepted(stack)) as u16 },
            )
        }
    }

    /// The slot after removing `quantity` units from its stack.
    pub open spec fn after_destroy(self, quantity: nat) -> ItemSlot {
        match self.stack {
            Some(s) => if s.quantity == quantity {
                ItemSlot { stack: None, ..self }
            } else {
                ItemSlot {
                    stack: Some(ItemStack { item: s.item, quantity: (s.quantity - quantity) as u16 }),
                    ..self
                }
            },
            None => self,
        }
    }

    /// What taking a single item returns.
    pub open spec fn taken_single(self) -> Option<ItemStack> {
        match self.stack {
            Some(s) => Some(ItemStack { item: s.item, quantity: 1 }),
            None => None,
        }
    }

    /// An empty slot with the largest capacity.
    pub fn new(filter: Option<Handle<ItemKind>>) -> (r: Self)
        ensures
            r.wf(),
            r.stack is None,
            r.capacity == ItemStackQuanity::MAX,
            r.filter == filter,
    {
        ItemSlot { stack: None, capacity: ItemStackQuanity::MAX, filter }
    }

    /// An empty slot for an ingredient: holds twice what one cycle uses, of that kind only.
    pub fn from_recipe_input(input: &RecipeInput) -> (r: Self)
        requires
            input.quantity <= crate::kinds::MAX_RECIPE_QUANTITY,
        ensures
            r.wf(),
            r.stack is None,
            r.capacity == 2 * input.quantity,
            r.filter == Some(input.item),
    {
        ItemSlot { stack: None, capacity: input.quantity * 2, filter: Some(input.item) }
    }

    /// An empty slot for a product: holds twice what one cycle yields, of that kind only.
    pub fn from_recipe_output(output: &RecipeOutput) -> (r: Self)
        requires
            output.quantity <= crate::kinds::MAX_RECIPE_QUANTITY,
        ensures
            r.wf(),
            r.stack is None,
            r.capacity == 2 * output.quantity,
            r.filter == Some(output.item),
    {
        ItemSlot { stack: None, capacity: output.quantity * 2, filter: Some(output.item) }
    }

    pub fn is_empty(&self) -> (r: bool)
        ensures
            r == (self.stack is None),
    {
        self.stack.is_none()
    }

    /// Amount of items that can be added to this slot before it no longer accepts more.
    pub fn available_capacity(&self) -> (r: ItemStackQuanity)
        requires
            self.wf(),
        ensures
            r == self.room(),
    {
        self.capacity - self.quantity()
    }

    /// Amount of items held in the slot.
    pub fn quantity(&self) -> (r: ItemStackQuanity)
        ensures
            r == self.held(),
    {
        match &self.stack {
            Some(stack) => stack.quantity,
            None => 0,
        }
    }

    /// Removes one unit from the held stack and returns it; `None` when the slot is empty.
    pub fn take_single_item(&mut self) -> (r: Option<ItemStack>)
        requires
            old(self).wf(),
        ensures
            final(self).wf(),
            *final(self) == old(self).after_destroy(if old(self).stack is Some { 1 } else { 0 }),
            r == old(self).taken_single(),
    {
        match self.stack.take() {
            Some(stack) => {
                let (new_stack, single_stack) = stack.split_single();
                self.stack = new_stack;
                Some(single_stack)
            },
            None => None,
        }
    }

    /// Inserts as much of `stack` as the slot admits; see [`InsertItemStackResult`].
    ///
    /// The filter is checked first, then the kind already held, then the room left.
    pub fn insert_item_stack(&mut self, stack: ItemStack) -> (r: InsertItemStackResult)
        requires
            old(self).wf(),
        ensures
            final(self).wf(),
            *final(self) == old(self).after_insert(stack),
            r == old(self).insert_result(stack),
    {
        if let Some(filter) = &self.filter {
            if !stack.item.same(filter) {
                return InsertItemStackResult::FilterError(stack);
            }
        }
        if let Some(slot_stack) = &self.stack {
            if !slot_stack.item.same(&stack.item) {
                return InsertItemStackResult::ItemSlotTaken(stack);
            }
        }
        let available = self.available_capacity();
        let consumed = if stack.quantity < available {
            stack.quantity
        } else {
            available
        };
        if consumed == 0 {
            return InsertItemStackResult::ItemSlotFull(stack);
        }
        let held = self.quantity();
        self.stack = Some(ItemStack { item: stack.item, quantity: held + consumed });
        if consumed == stack.quantity {
            InsertItemStackResult::StackConsumed
        } else {
            InsertItemStackResult::StackPartiallyConsumed(
                ItemStack { item: stack.item, quantity: stack.quantity - consumed },
            )
        }
    }

    /// Removes `quantity` units from the held stack, clearing the slot when none are left.
    pub fn destroy_quantity(&mut self, quantity: ItemStackQuanity)
        requires
            old(self).wf(),
            old(self).stack is Some,
            quantity <= old(self).held(),
        ensures
            final(self).wf(),
            *final(self) == old(self).after_destroy(quantity as nat),
    {
        let held = self.quantity();
        let item = match &self.stack {
            Some(s) => s.item,
            None => {
                proof {
                    assert(false);
                }
                return;
            },
        };
        if held == quantity {
            self.stack = None;
        } else {
            self.stack = Some(ItemStack { item, quantity: held - quantity });
        }
    }
}

/// Inserting never creates or loses units: what the slot gains plus what is handed
/// back equals what was offered, the units gained are of the offered kind, and what
/// is handed back is of the offered kind too.
pub proof fn lemma_insert_conserves(slot: ItemSlot, stack: ItemStack)
    requires
        slot.wf(),
    ensures
        slot.after_insert(stack).held() + slot.insert_result(stack).returned() == slot.held()
            + stack.quantity,
        slot.after_insert(stack).held() > slot.held() ==> slot.after_insert(stack).stack->Some_0.item
            == stack.item,
        slot.insert_result(stack).remainder() is Some ==> slot.insert_result(
            stack,
        ).remainder()->Some_0.item == stack.item,
{
}

/// Taking a single item moves exactly one unit, of the held kind, out of the slot.
pub proof fn lemma_take_conserves(slot: ItemSlot)
    requires
        slot.wf(),
        slot.stack is Some,
    ensures
        slot.after_destroy(1).held() + 1 == slot.held(),
        slot.taken_single() == Some(ItemStack { item: slot.stack->Some_0.item, quantity: 1 }),
        slot.after_destroy(1).stack is Some ==> slot.after_destroy(1).stack->Some_0.item
            == slot.stack->Some_0.item,
{
}

/// Every operation on a valid slot leaves it valid: it never holds more than its
/// capacity, and with a filter it only ever holds items of the filtered kind.
pub proof fn lemma_slot_stays_valid(slot: ItemSlot, stack: ItemStack, n: nat)
    requires
        slot.wf(),
        n <= slot.held(),
    ensures
        slot.after_insert(stack).wf(),
        slot.after_destroy(n).wf(),
        slot.after_insert(stack).held() <= slot.capacity,
        slot.after_destroy(n).held() <= slot.capacity,
        slot.after_insert(stack).stack is Some ==> slot.admits(
            slot.after_insert(stack).stack->Some_0.item,
        ),
        slot.after_destroy(n).stack is Some ==> slot.admits(
            slot.after_destroy(n).stack->Some_0.item,
        ),
{
}

/// A stack of `q` units, fewer than the capacity, put into an empty unfiltered
/// slot is taken in whole; taking a single item then returns one unit of its kind
/// and leaves `q - 1` units, the slot being empty when `q` was one.
pub proof fn lemma_insert_then_take(slot: ItemSlot, stack: ItemStack)
    requires
        slot.wf(),
        slot.stack is None,
        slot.filter is None,
        0 < stack.quantity < slot.capacity,
    ensures
        slot.insert_result(stack) == InsertItemStackResult::StackConsumed,
        slot.after_insert(stack).taken_single() == Some(ItemStack { item: stack.item, quantity: 1 }),
        slot.after_insert(stack).after_destroy(1).held() == stack.quantity - 1,
        (slot.after_insert(stack).after_destroy(1).stack is None) == (stack.quantity == 1),
{
}

} // verus!
