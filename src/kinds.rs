//! Immutable definitions of item kinds and recipes.
use crate::item_stack::ItemStackQuanity;
use crate::local_string::LocalString;
use crate::registry::Handle;
use crate::Time;
use vstd::prelude::*;

verus! {

/// Largest quantity a recipe entry may name: a slot bound to it holds twice as much.
pub const MAX_RECIPE_QUANTITY: u16 = 32767;

/// Definition of a kind of item.
#[derive(Debug)]
pub struct ItemKind {
    name: LocalString,
    stack_size: u16,
}

impl ItemKind {
    pub closed spec fn name_spec(&self) -> Seq<char> {
        self.name@
    }

    pub closed spec fn stack_size_spec(&self) -> u16 {
        self.stack_size
    }

    /// The display name.
    pub fn name(&self) -> (r: &LocalString)
        ensures
            r@ == self.name_spec(),
    {
        &self.name
    }

    /// The most items of this kind that one stack is meant to hold.
    pub fn stack_size(&self) -> (r: u16)
        ensures
            r == self.stack_size_spec(),
    {
        self.stack_size
    }
}

/// Builds an [`ItemKind`]; a name must be given before building.
pub struct ItemKindBuilder {
    name: Option<LocalString>,
    stack_size: u16,
}

impl ItemKindBuilder {
    pub closed spec fn name_spec(&self) -> Option<Seq<char>> {
        match self.name {
            Some(n) => Some(n@),
            None => None,
        }
    }

    pub closed spec fn stack_size_spec(&self) -> u16 {
        self.stack_size
    }

    /// A builder with no name and a stack size of 50.
    pub fn new() -> (r: Self)
        ensures
            r.name_spec() is None,
            r.stack_size_spec() == 50,
    {
        ItemKindBuilder { name: None, stack_size: 50 }
    }

    pub fn with_name(self, name: LocalString) -> (r: Self)
        ensures
            r.name_spec() == Some(name@),
            r.stack_size_spec() == self.stack_size_spec(),
    {
        ItemKindBuilder { name: Some(name), stack_size: self.stack_size }
    }

    /// The kind described so far; the builder must have a name.
    pub fn build(self) -> (r: ItemKind)
        requires
            self.name_spec() is Some,
        ensures
            r.name_spec() == self.name_spec()->Some_0,
            r.stack_size_spec() == self.stack_size_spec(),
    {
        match self.name {
            Some(name) => ItemKind { name, stack_size: self.stack_size },
            None => {
                proof {
                    assert(false);
                }
                ItemKind { name: LocalString::from_str(""), stack_size: self.stack_size }
            },
        }
    }
}

/// One ingredient of a recipe: a kind of item and how many units one cycle uses.
#[derive(Debug)]
pub struct RecipeInput {
    pub item: Handle<ItemKind>,
    pub quantity: ItemStackQuanity,
}

/// One product of a recipe: a kind of item and how many units one cycle yields.
#[derive(Debug)]
pub struct RecipeOutput {
    pub item: Handle<ItemKind>,
    pub quantity: ItemStackQuanity,
}

/// Definition of a recipe: what it consumes, what it yields and how long it takes.
#[derive(Debug)]
pub struct RecipeKind {
    pub name: LocalString,
    pub input_items: Vec<RecipeInput>,
    pub output: Vec<RecipeOutput>,
    pub time: Time,
}

impl RecipeKind {
    /// Every quantity is small enough that twice it fits a slot's capacity.
    pub open spec fn wf(&self) -> bool {
        &&& forall|i: int|
            0 <= i < self.input_items@.len() ==> #[trigger] self.input_items@[i].quantity
                <= MAX_RECIPE_QUANTITY
        &&& forall|i: int|
            0 <= i < self.output@.len() ==> #[trigger] self.output@[i].quantity
                <= MAX_RECIPE_QUANTITY
    }
}

} // verus!
