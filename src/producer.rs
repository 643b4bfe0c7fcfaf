//! Production stations: recipe-bound slots and the production state machine.
use crate::item_stack::{InsertItemStackResult, ItemSlot, ItemStack, ItemStackQuanity};
use crate::kinds::{RecipeInput, RecipeKind, RecipeOutput};
use crate::registry::{Handle, Table};
use vstd::prelude::*;

verus! {

/// Where a producer stands in its production cycle.
#[derive(Debug)]
pub enum ProductionState {
    /// Waiting on the required inputs.
    Idle,
    /// Producing the output: `progress` of the `time` ticks a cycle takes have passed.
    Producing { progress: crate::Time, time: crate::Time },
    /// Inputs are ready but the output would not fit.
    Full,
}

/// What a producer is doing, as shown to the player.
#[derive(Debug, PartialEq, Eq, Structural)]
pub enum ProductionStatus {
    Idle,
    Producing,
    Full,
}

/// The empty slot that holds an ingredient: twice the recipe's quantity, of its kind only.
pub open spec fn input_slot_for(input: RecipeInput) -> ItemSlot {
    ItemSlot { stack: None, capacity: (2 * input.quantity) as u16, filter: Some(input.item) }
}

/// The empty slot that holds a product: twice the recipe's quantity, of its kind only.
pub open spec fn output_slot_for(output: RecipeOutput) -> ItemSlot {
    ItemSlot { stack: None, capacity: (2 * output.quantity) as u16, filter: Some(output.item) }
}

/// The stack that one cycle yields for `output`.
pub open spec fn minted(output: RecipeOutput) -> ItemStack {
    ItemStack { item: output.item, quantity: output.quantity }
}

/// The fields of a [`Producer`].
pub struct ProducerView {
    pub recipe: Option<Handle<RecipeKind>>,
    pub inputs: Seq<ItemSlot>,
    pub outputs: Seq<ItemSlot>,
    pub state: ProductionState,
}

impl ProducerView {
    /// The slots that binding to `recipe` creates, in the recipe's order.
    pub open spec fn bound_to(self, recipe: RecipeKind) -> bool {
        &&& self.inputs.len() == recipe.input_items@.len()
        &&& self.outputs.len() == recipe.output@.len()
        &&& forall|i: int|
            0 <= i < self.inputs.len() ==> {
                &&& (#[trigger] self.inputs[i]).capacity == 2 * recipe.input_items@[i].quantity
                &&& self.inputs[i].filter == Some(recipe.input_items@[i].item)
            }
        &&& forall|i: int|
            0 <= i < self.outputs.len() ==> {
                &&& (#[trigger] self.outputs[i]).capacity == 2 * recipe.output@[i].quantity
                &&& self.outputs[i].filter == Some(recipe.output@[i].item)
            }
    }

    /// The recipe the producer is bound to, looked up in `recipes`.
    pub open spec fn recipe_in(self, recipes: Seq<RecipeKind>) -> RecipeKind {
        recipes[self.recipe->Some_0.id() as int]
    }

    /// Every slot is well formed.
    pub open spec fn slots_wf(self) -> bool {
        &&& forall|i: int| 0 <= i < self.inputs.len() ==> (#[trigger] self.inputs[i]).wf()
        &&& forall|i: int| 0 <= i < self.outputs.len() ==> (#[trigger] self.outputs[i]).wf()
    }

    pub open spec fn wf(self, recipes: Seq<RecipeKind>) -> bool {
        &&& self.slots_wf()
        &&& match self.state {
            ProductionState::Producing { progress, time } => progress == 0 || progress < time,
            _ => true,
        }
        &&& match self.recipe {
            Some(h) => {
                &&& h.id() < recipes.len()
                &&& self.recipe_in(recipes).wf()
                &&& self.bound_to(self.recipe_in(recipes))
                &&& self.state is Producing ==> !self.output_full(self.recipe_in(recipes))
            },
            None => {
                &&& self.inputs.len() == 0
                &&& self.outputs.len() == 0
                &&& self.state is Idle
            },
        }
    }

    pub open spec fn status(self) -> ProductionStatus {
        match self.state {
            ProductionState::Idle => ProductionStatus::Idle,
            ProductionState::Producing { .. } => ProductionStatus::Producing,
            ProductionState::Full => ProductionStatus::Full,
        }
    }

    /// Every input slot holds at least what one cycle of `recipe` uses.
    pub open spec fn has_ingredients(self, recipe: RecipeKind) -> bool {
        forall|i: int|
            0 <= i < self.inputs.len() ==> (#[trigger] self.inputs[i]).held()
                >= recipe.input_items@[i].quantity
    }

    /// Some output slot lacks room for what one cycle of `recipe` yields.
    pub open spec fn output_full(self, recipe: RecipeKind) -> bool {
        exists|i: int|
            0 <= i < self.outputs.len() && (#[trigger] self.outputs[i]).room()
                < recipe.output@[i].quantity
    }

    /// The input slots once one cycle of `recipe` has used its ingredients.
    pub open spec fn consumed(self, recipe: RecipeKind) -> Seq<ItemSlot> {
        Seq::new(
            self.inputs.len(),
            |i: int| self.inputs[i].after_destroy(recipe.input_items@[i].quantity as nat),
        )
    }

    /// The output slots once one cycle of `recipe` has delivered its products.
    pub open spec fn produced(self, recipe: RecipeKind) -> Seq<ItemSlot> {
        Seq::new(self.outputs.len(), |i: int| self.outputs[i].after_insert(minted(recipe.output@[i])))
    }

    /// The producer after an attempt to start a cycle.
    pub open spec fn after_attempt(self, recipes: Seq<RecipeKind>) -> ProducerView {
        if self.state is Producing || self.recipe is None || !self.has_ingredients(
            self.recipe_in(recipes),
        ) {
            self
        } else if self.output_full(self.recipe_in(recipes)) {
            ProducerView { state: ProductionState::Full, ..self }
        } else {
            ProducerView {
                inputs: self.consumed(self.recipe_in(recipes)),
                state: ProductionState::Producing {
                    progress: 0,
                    time: self.recipe_in(recipes).time,
                },
                ..self
            }
        }
    }

    /// The producer after one tick.
    pub open spec fn after_tick(self, recipes: Seq<RecipeKind>) -> ProducerView {
        match self.state {
            ProductionState::Producing { progress, time } => if progress + 1 >= time {
                ProducerView {
                    outputs: self.produced(self.recipe_in(recipes)),
                    state: ProductionState::Idle,
                    ..self
                }.after_attempt(recipes)
            } else {
                ProducerView {
                    state: ProductionState::Producing { progress: (progress + 1) as u16, time },
                    ..self
                }
            },
            _ => self,
        }
    }

    /// `i` is the first input slot filtered to `item`.
    pub open spec fn is_ingredient_slot(self, i: int, item: Handle<crate::kinds::ItemKind>) -> bool {
        &&& 0 <= i < self.inputs.len()
        &&& self.inputs[i].filter == Some(item)
        &&& forall|j: int| 0 <= j < i ==> (#[trigger] self.inputs[j]).filter != Some(item)
    }

    /// `i` is the first output slot that holds a stack.
    pub open spec fn is_first_output(self, i: int) -> bool {
        &&& 0 <= i < self.outputs.len()
        &&& self.outputs[i].stack is Some
        &&& forall|j: int| 0 <= j < i ==> (#[trigger] self.outputs[j]).stack is None
    }

    pub open spec fn has_output(self) -> bool {
        exists|i: int| 0 <= i < self.outputs.len() && (#[trigger] self.outputs[i]).stack is Some
    }
}

/// A station that turns the ingredients of its recipe into products over time.
pub struct Producer {
    recipe: Option<Handle<RecipeKind>>,
    input_slots: Vec<ItemSlot>,
    output_slots: Vec<ItemSlot>,
    production: ProductionState,
}

impl View for Producer {
    type V = ProducerView;

    closed spec fn view(&self) -> ProducerView {
        ProducerView {
            recipe: self.recipe,
            inputs: self.input_slots@,
            outputs: self.output_slots@,
            state: self.production,
        }
    }
}

impl Producer {
    /// A producer with no recipe and no slots.
    pub fn new() -> (r: Self)
        ensures
            r@.recipe is None,
            r@.inputs.len() == 0,
            r@.outputs.len() == 0,
            r@.state is Idle,
            forall|recipes: Seq<RecipeKind>| r@.wf(recipes),
    {
        Producer {
            recipe: None,
            input_slots: Vec::new(),
            output_slots: Vec::new(),
            production: ProductionState::Idle,
        }
    }

    /// A producer bound to `recipe`, which `handle` indexes.
    pub fn new_with_recipe(recipe: &RecipeKind, handle: Handle<RecipeKind>) -> (r: Self)
        requires
            recipe.wf(),
        ensures
            r@.recipe == Some(handle),
            r@.inputs == recipe.input_items@.map_values(|x: RecipeInput| input_slot_for(x)),
            r@.outputs == recipe.output@.map_values(|x: RecipeOutput| output_slot_for(x)),
            r@.state is Idle,
    {
        let mut producer = Self::new();
        producer.set_recipe(recipe, handle);
        producer
    }

    /// Binds the producer to `recipe`, which `handle` indexes, with fresh empty slots.
    pub fn set_recipe(&mut self, recipe: &RecipeKind, handle: Handle<RecipeKind>)
        requires
            recipe.wf(),
        ensures
            final(self)@ == (ProducerView {
                recipe: Some(handle),
                inputs: recipe.input_items@.map_values(|x: RecipeInput| input_slot_for(x)),
                outputs: recipe.output@.map_values(|x: RecipeOutput| output_slot_for(x)),
                state: old(self)@.state,
            }),
    {
        let mut inputs: Vec<ItemSlot> = Vec::new();
        let mut i: usize = 0;
        while i < recipe.input_items.len()
            invariant
                recipe.wf(),
                i <= recipe.input_items@.len(),
                inputs@ == recipe.input_items@.take(i as int).map_values(
                    |x: RecipeInput| input_slot_for(x),
                ),
            decreases recipe.input_items@.len() - i,
        {
            let slot = ItemSlot::from_recipe_input(&recipe.input_items[i]);
            inputs.push(slot);
            i = i + 1;
            assert(inputs@ =~= recipe.input_items@.take(i as int).map_values(
                |x: RecipeInput| input_slot_for(x),
            ));
        }
        let mut outputs: Vec<ItemSlot> = Vec::new();
        let mut k: usize = 0;
        while k < recipe.output.len()
            invariant
                recipe.wf(),
                k <= recipe.output@.len(),
                outputs@ == recipe.output@.take(k as int).map_values(
                    |x: RecipeOutput| output_slot_for(x),
                ),
            decreases recipe.output@.len() - k,
        {
            let slot = ItemSlot::from_recipe_output(&recipe.output[k]);
            outputs.push(slot);
            k = k + 1;
            assert(outputs@ =~= recipe.output@.take(k as int).map_values(
                |x: RecipeOutput| output_slot_for(x),
            ));
        }
        assert(recipe.input_items@.take(i as int) =~= recipe.input_items@);
        assert(recipe.output@.take(k as int) =~= recipe.output@);
        self.input_slots = inputs;
        self.output_slots = outputs;
        self.recipe = Some(handle);
    }
}

impl Producer {
    pub open spec fn wf(&self, recipes: &Table<RecipeKind>) -> bool {
        self@.wf(recipes.entries())
    }

    /// Whether every input slot holds what one cycle of `recipe` uses.
    fn has_ingredients(&self, recipe: &RecipeKind) -> (r: bool)
        requires
            self@.bound_to(*recipe),
        ensures
            r == self@.has_ingredients(*recipe),
    {
        let mut i: usize = 0;
        while i < self.input_slots.len()
            invariant
                self@.bound_to(*recipe),
                i <= self@.inputs.len(),
                forall|j: int|
                    0 <= j < i ==> (#[trigger] self@.inputs[j]).held()
                        >= recipe.input_items@[j].quantity,
            decreases self@.inputs.len() - i,
        {
            if self.input_slots[i].quantity() < recipe.input_items[i].quantity {
                return false;
            }
            i = i + 1;
        }
        true
    }

    /// Returns if the output of the recipe would not fit in the
    /// output slots of the producer.
    fn is_output_full(&self, recipe: &RecipeKind) -> (r: bool)
        requires
            self@.bound_to(*recipe),
            forall|i: int| 0 <= i < self@.outputs.len() ==> (#[trigger] self@.outputs[i]).wf(),
        ensures
            r == self@.output_full(*recipe),
    {
        let mut i: usize = 0;
        while i < self.output_slots.len()
            invariant
                self@.bound_to(*recipe),
                forall|j: int| 0 <= j < self@.outputs.len() ==> (#[trigger] self@.outputs[j]).wf(),
                i <= self@.outputs.len(),
                forall|j: int|
                    0 <= j < i ==> (#[trigger] self@.outputs[j]).room()
                        >= recipe.output@[j].quantity,
            decreases self@.outputs.len() - i,
        {
            if self.output_slots[i].available_capacity() < recipe.output[i].quantity {
                return true;
            }
            i = i + 1;
        }
        false
    }

    /// Whether a cycle can start now: not producing, bound, with ingredients and room.
    fn can_start_production(&self, recipes: &Table<RecipeKind>) -> (r: bool)
        requires
            self.wf(recipes),
        ensures
            r == (!(self@.state is Producing) && self@.recipe is Some && self@.has_ingredients(
                self@.recipe_in(recipes.entries()),
            ) && !self@.output_full(self@.recipe_in(recipes.entries()))),
    {
        if self.is_producing() {
            return false;
        }
        let handle = match self.recipe {
            Some(h) => h,
            None => return false,
        };
        let recipe = recipes.get(handle);
        if !self.has_ingredients(recipe) {
            return false;
        }
        !self.is_output_full(recipe)
    }

    /// Starts a cycle when the ingredients are there and the products fit: the
    /// ingredients are used up at once. With ingredients but no room, the producer
    /// becomes full; without ingredients, or while producing, nothing changes.
    pub fn attempt_to_start_production(&mut self, recipes: &Table<RecipeKind>)
        requires
            old(self).wf(recipes),
        ensures
            final(self).wf(recipes),
            final(self)@ == old(self)@.after_attempt(recipes.entries()),
    {
        if self.can_start_production(recipes) {
            let handle = match self.recipe {
                Some(h) => h,
                None => return,
            };
            let recipe = recipes.get(handle);
            let ghost before = self@;
            let mut i: usize = 0;
            while i < self.input_slots.len()
                invariant
                    before.bound_to(*recipe),
                    before.has_ingredients(*recipe),
                    forall|j: int| 0 <= j < before.inputs.len() ==> (#[trigger] before.inputs[j]).wf(),
                    i <= self.input_slots@.len(),
                    self.input_slots@.len() == before.inputs.len(),
                    forall|j: int|
                        0 <= j < i ==> self.input_slots@[j] == (#[trigger] before.consumed(
                            *recipe,
                        )[j]),
                    forall|j: int| i <= j < before.inputs.len() ==> self.input_slots@[j] == #[trigger] before.inputs[j],
                    self.recipe == before.recipe,
                    self.output_slots@ == before.outputs,
                    self.production == before.state,
                decreases before.inputs.len() - i,
            {
                let quantity = recipe.input_items[i].quantity;
                assert(before.inputs[i as int].held() >= quantity);
                if quantity > 0 {
                    self.input_slots[i].destroy_quantity(quantity);
                }
                i = i + 1;
            }
            assert(self.input_slots@ =~= before.consumed(*recipe));
            self.production = ProductionState::Producing { progress: 0, time: recipe.time };
            proof {
                let c = before.consumed(*recipe);
                assert forall|j: int| 0 <= j < c.len() implies (#[trigger] c[j]).wf() by {
                    assert(before.inputs[j].wf());
                }
            }
        } else if !self.is_producing() {
            if let Some(handle) = self.recipe {
                let recipe = recipes.get(handle);
                if self.has_ingredients(recipe) {
                    self.production = ProductionState::Full;
                }
            }
        }
    }

    /// Advances a cycle in progress by one tick. When the cycle completes, each
    /// output slot receives what the recipe yields (what does not fit is dropped),
    /// the producer turns idle and at once attempts the next cycle.
    pub fn tick(&mut self, recipes: &Table<RecipeKind>)
        requires
            old(self).wf(recipes),
        ensures
            final(self).wf(recipes),
            final(self)@ == old(self)@.after_tick(recipes.entries()),
    {
        let (progress, time) = match &self.production {
            ProductionState::Producing { progress, time } => (*progress, *time),
            _ => return,
        };
        if progress + 1 < time {
            self.production = ProductionState::Producing { progress: progress + 1, time };
            return;
        }
        let handle = match self.recipe {
            Some(h) => h,
            None => return,
        };
        let recipe = recipes.get(handle);
        let ghost before = self@;
        let mut i: usize = 0;
        while i < self.output_slots.len()
            invariant
                before.bound_to(*recipe),
                forall|j: int| 0 <= j < before.outputs.len() ==> (#[trigger] before.outputs[j]).wf(),
                i <= self.output_slots@.len(),
                self.output_slots@.len() == before.outputs.len(),
                forall|j: int|
                    0 <= j < i ==> self.output_slots@[j] == (#[trigger] before.produced(*recipe)[j]),
                forall|j: int| i <= j < before.outputs.len() ==> self.output_slots@[j] == #[trigger] before.outputs[j],
                self.recipe == before.recipe,
                self.input_slots@ == before.inputs,
                self.production == before.state,
            decreases before.outputs.len() - i,
        {
            let stack = ItemStack::from_recipe_output(&recipe.output[i]);
            assert(self.output_slots@[i as int] == before.outputs[i as int]);
            assert(before.outputs[i as int].wf());
            let _ = self.output_slots[i].insert_item_stack(stack);
            i = i + 1;
        }
        assert(self.output_slots@ =~= before.produced(*recipe));
        self.production = ProductionState::Idle;
        proof {
            let c = before.produced(*recipe);
            assert forall|j: int| 0 <= j < c.len() implies (#[trigger] c[j]).wf() && c[j].capacity == before.outputs[j].capacity && c[j].filter == before.outputs[j].filter by {
                assert(before.outputs[j].wf());
            }
        }
        self.attempt_to_start_production(recipes);
    }
}

impl Producer {
    /// Inserts `stack` into the first input slot filtered to its kind; a
    /// `FilterError` hands it back when no input slot takes that kind.
    pub fn try_insert_ingredient(&mut self, stack: ItemStack) -> (r: InsertItemStackResult)
        requires
            old(self)@.slots_wf(),
        ensures
            final(self)@.slots_wf(),
            forall|recipes: Seq<RecipeKind>| old(self)@.wf(recipes) ==> final(self)@.wf(recipes),
            !r.changed() ==> r.remainder() == Some(stack) && final(self)@ == old(self)@,
            r is StackPartiallyConsumed ==> 0 < r.returned() < stack.quantity,
            (forall|i: int|
                0 <= i < old(self)@.inputs.len() ==> (#[trigger] old(self)@.inputs[i]).filter
                    != Some(stack.item)) ==> {
                &&& r == InsertItemStackResult::FilterError(stack)
                &&& final(self)@ == old(self)@
            },
            forall|i: int|
                old(self)@.is_ingredient_slot(i, stack.item) ==> {
                    &&& r == old(self)@.inputs[i].insert_result(stack)
                    &&& final(self)@ == (ProducerView {
                        inputs: old(self)@.inputs.update(i, old(self)@.inputs[i].after_insert(stack)),
                        ..old(self)@
                    })
                },
    {
        let mut i: usize = 0;
        while i < self.input_slots.len()
            invariant
                self@ == old(self)@,
                self@.slots_wf(),
                i <= self@.inputs.len(),
                forall|j: int| 0 <= j < i ==> (#[trigger] self@.inputs[j]).filter != Some(stack.item),
            decreases self@.inputs.len() - i,
        {
            let matches = match &self.input_slots[i].filter {
                Some(f) => f.same(&stack.item),
                None => false,
            };
            if matches {
                assert(self@.inputs[i as int].wf());
                let ghost before = self@;
                let r = self.input_slots[i].insert_item_stack(stack);
                proof {
                    if !r.changed() {
                        assert(self@.inputs =~= before.inputs);
                    }
                    assert(self@.inputs =~= before.inputs.update(i as int, before.inputs[i as int].after_insert(stack)));
                }
                return r;
            }
            i = i + 1;
        }
        InsertItemStackResult::FilterError(stack)
    }

    /// Take a single item from the first output slot that has an item in it.
    ///
    /// The producer must have output: call [`Producer::has_output`] first.
    pub fn take_single_item(&mut self) -> (r: ItemStack)
        requires
            old(self)@.slots_wf(),
            old(self)@.has_output(),
        ensures
            final(self)@.slots_wf(),
            forall|recipes: Seq<RecipeKind>| old(self)@.wf(recipes) ==> final(self)@.wf(recipes),
            forall|i: int|
                old(self)@.is_first_output(i) ==> {
                    &&& r == (ItemStack { item: old(self)@.outputs[i].stack->Some_0.item, quantity: 1 })
                    &&& final(self)@ == (ProducerView {
                        outputs: old(self)@.outputs.update(i, old(self)@.outputs[i].after_destroy(1)),
                        ..old(self)@
                    })
                },
    {
        let n = self.output_slots.len();
        let mut i: usize = 0;
        loop
            invariant
                n == self@.outputs.len(),
                self@ == old(self)@,
                self@.slots_wf(),
                self@.has_output(),
                i < self@.outputs.len(),
                forall|j: int| 0 <= j < i ==> (#[trigger] self@.outputs[j]).stack is None,
            decreases self@.outputs.len() - i,
        {
            if !self.output_slots[i].is_empty() {
                assert(self@.outputs[i as int].wf());
                let ghost before = self@;
                let taken = self.output_slots[i].take_single_item();
                proof {
                    assert(self@.outputs =~= before.outputs.update(i as int, before.outputs[i as int].after_destroy(1)));
                }
                return taken.unwrap();
            }
            proof {
                let k = choose|k: int| 0 <= k < self@.outputs.len() && (#[trigger] self@.outputs[k]).stack is Some;
                assert(k > i);
            }
            i = i + 1;
        }
    }
}

impl Default for Producer {
    fn default() -> (r: Self)
        ensures
            r@.recipe is None,
            r@.inputs.len() == 0,
            r@.outputs.len() == 0,
            r@.state is Idle,
    {
        Self::new()
    }
}

/// Queries
impl Producer {
    pub fn is_producing(&self) -> (r: bool)
        ensures
            r == (self@.state is Producing),
    {
        match &self.production {
            ProductionState::Producing { .. } => true,
            _ => false,
        }
    }

    /// Whether some output slot holds a stack.
    pub fn has_output(&self) -> (r: bool)
        ensures
            r == self@.has_output(),
    {
        let mut i: usize = 0;
        while i < self.output_slots.len()
            invariant
                i <= self@.outputs.len(),
                forall|j: int| 0 <= j < i ==> (#[trigger] self@.outputs[j]).stack is None,
            decreases self@.outputs.len() - i,
        {
            if !self.output_slots[i].is_empty() {
                return true;
            }
            i = i + 1;
        }
        false
    }

    /// Whether or not the producer has input items slots.
    ///
    /// If it doesn't, that means that the recipe will always run as long
    /// as there is output space available.
    pub fn takes_input(&self) -> (r: bool)
        ensures
            r == (self@.inputs.len() > 0),
    {
        !self.input_slots.is_empty()
    }

    /// Whether or not the producer has output item slots.
    ///
    /// If it doesn't, the recipe consumes the input items without actually
    /// producing anything useful. This is useful if you want a recipe
    /// that destroys something.
    pub fn gives_output(&self) -> (r: bool)
        ensures
            r == (self@.outputs.len() > 0),
    {
        !self.output_slots.is_empty()
    }

    pub fn status(&self) -> (r: ProductionStatus)
        ensures
            r == self@.status(),
    {
        match &self.production {
            ProductionState::Idle => ProductionStatus::Idle,
            ProductionState::Producing { .. } => ProductionStatus::Producing,
            ProductionState::Full => ProductionStatus::Full,
        }
    }

    /// The input slots, in the recipe's order.
    pub fn input_slots(&self) -> (r: &Vec<ItemSlot>)
        ensures
            r@ == self@.inputs,
    {
        &self.input_slots
    }

    /// The output slots, in the recipe's order.
    pub fn output_slots(&self) -> (r: &Vec<ItemSlot>)
        ensures
            r@ == self@.outputs,
    {
        &self.output_slots
    }

    /// Held quantity and capacity of each input slot, then of each output slot.
    pub fn item_counts(&self) -> (r: (
        Vec<(ItemStackQuanity, ItemStackQuanity)>,
        Vec<(ItemStackQuanity, ItemStackQuanity)>,
    ))
        ensures
            r.0@.len() == self@.inputs.len(),
            forall|i: int|
                0 <= i < self@.inputs.len() ==> #[trigger] r.0@[i] == (
                    self@.inputs[i].held() as u16,
                    self@.inputs[i].capacity,
                ),
            r.1@.len() == self@.outputs.len(),
            forall|i: int|
                0 <= i < self@.outputs.len() ==> #[trigger] r.1@[i] == (
                    self@.outputs[i].held() as u16,
                    self@.outputs[i].capacity,
                ),
    {
        (counts_of(&self.input_slots), counts_of(&self.output_slots))
    }
}

/// Held quantity and capacity of each slot.
fn counts_of(slots: &Vec<ItemSlot>) -> (r: Vec<(ItemStackQuanity, ItemStackQuanity)>)
    ensures
        r@.len() == slots@.len(),
        forall|i: int|
            0 <= i < slots@.len() ==> #[trigger] r@[i] == (
                slots@[i].held() as u16,
                slots@[i].capacity,
            ),
{
    let mut counts: Vec<(ItemStackQuanity, ItemStackQuanity)> = Vec::new();
    let mut i: usize = 0;
    while i < slots.len()
        invariant
            i <= slots@.len(),
            counts@.len() == i,
            forall|j: int|
                0 <= j < i ==> #[trigger] counts@[j] == (slots@[j].held() as u16, slots@[j].capacity),
        decreases slots@.len() - i,
    {
        counts.push((slots[i].quantity(), slots[i].capacity));
        i = i + 1;
    }
    counts
}

/// Starting a cycle uses up exactly the recipe's ingredients, slot by slot, and
/// nothing else: an attempt that does not start a cycle changes no slot, and no
/// attempt touches the output slots.
pub proof fn lemma_start_uses_ingredients(v: ProducerView, recipes: Seq<RecipeKind>)
    requires
        v.wf(recipes),
    ensures
        v.after_attempt(recipes).outputs == v.outputs,
        v.after_attempt(recipes).inputs.len() == v.inputs.len(),
        forall|i: int|
            0 <= i < v.inputs.len() ==> #[trigger] v.after_attempt(recipes).inputs[i].held() + (
            if !(v.state is Producing) && v.after_attempt(recipes).state is Producing {
                v.recipe_in(recipes).input_items@[i].quantity as nat
            } else {
                0
            }) == v.inputs[i].held(),
{
    let a = v.after_attempt(recipes);
    assert forall|i: int| 0 <= i < v.inputs.len() implies #[trigger] a.inputs[i].held() + (
    if !(v.state is Producing) && a.state is Producing {
        v.recipe_in(recipes).input_items@[i].quantity as nat
    } else {
        0
    }) == v.inputs[i].held() by {
        assert(v.inputs[i].wf());
    }
}

/// A completed cycle delivers its whole yield: each output slot gains exactly what
/// the recipe yields for it, since a cycle only starts when the yield fits.
pub proof fn lemma_completion_delivers_all(v: ProducerView, recipes: Seq<RecipeKind>)
    requires
        v.wf(recipes),
        v.state is Producing,
    ensures
        v.produced(v.recipe_in(recipes)).len() == v.outputs.len(),
        forall|i: int|
            0 <= i < v.outputs.len() ==> #[trigger] v.produced(v.recipe_in(recipes))[i].held()
                == v.outputs[i].held() + v.recipe_in(recipes).output@[i].quantity,
{
    let r = v.recipe_in(recipes);
    assert forall|i: int| 0 <= i < v.outputs.len() implies #[trigger] v.produced(r)[i].held()
        == v.outputs[i].held() + r.output@[i].quantity by {
        assert(v.outputs[i].wf());
        assert(v.outputs[i].room() >= r.output@[i].quantity);
    }
}

/// A producer's status depends on its fields alone: two producers with the same
/// fields report the same status, however often it is asked.
pub proof fn lemma_producer_status_of_fields(a: &Producer, b: &Producer)
    requires
        a@ == b@,
    ensures
        a@.status() == b@.status(),
{
}

} // verus!
