use open_factory::connector::{Connector, ConnectorStatus};
use open_factory::item_stack::ItemStack;
use open_factory::kinds::{ItemKind, ItemKindBuilder, RecipeInput, RecipeKind, RecipeOutput};
use open_factory::local_string::LocalString;
use open_factory::producer::{Producer, ProductionStatus};
use open_factory::registry::{Handle, Table};
use open_factory::transfer::{deliver_from_connector, give_to_connector};

fn make_item(items: &mut Table<ItemKind>, name: &str) -> Handle<ItemKind> {
    items.insert(ItemKindBuilder::new().with_name(LocalString::from_str(name)).build(), name.to_string())
}

struct World {
    copper: Handle<ItemKind>,
    tin: Handle<ItemKind>,
    recipes: Table<RecipeKind>,
    generate_copper: Handle<RecipeKind>,
    bronze: Handle<RecipeKind>,
}

fn world() -> World {
    let mut items = Table::new();
    let copper = make_item(&mut items, "copper");
    let tin = make_item(&mut items, "tin");
    let bronze_item = make_item(&mut items, "bronze");
    let mut recipes = Table::new();
    let generate_copper = recipes.insert(
        RecipeKind {
            name: LocalString::from_str("recipe:generate-copper"),
            input_items: vec![],
            output: vec![RecipeOutput { item: copper, quantity: 1 }],
            time: 2,
        },
        "generate-copper".to_string(),
    );
    let bronze = recipes.insert(
        RecipeKind {
            name: LocalString::from_str("recipe:bronze"),
            input_items: vec![
                RecipeInput { item: copper, quantity: 2 },
                RecipeInput { item: tin, quantity: 1 },
            ],
            output: vec![RecipeOutput { item: bronze_item, quantity: 3 }],
            time: 20,
        },
        "bronze".to_string(),
    );
    World { copper, tin, recipes, generate_copper, bronze }
}

#[test]
fn give_moves_one_unit_onto_waiting_connector() {
    let w = world();
    let mut source = Producer::new_with_recipe(w.recipes.get(w.generate_copper), w.generate_copper);
    let mut connector = Connector::new(10);
    assert!(!give_to_connector(&mut source, &mut connector));
    source.attempt_to_start_production(&w.recipes);
    source.tick(&w.recipes);
    source.tick(&w.recipes);
    assert_eq!(1, source.output_slots()[0].quantity());
    assert!(give_to_connector(&mut source, &mut connector));
    assert_eq!(0, source.output_slots()[0].quantity());
    assert_eq!(connector.status(), ConnectorStatus::Traveling);
    // A traveling connector takes nothing more.
    source.tick(&w.recipes);
    source.tick(&w.recipes);
    assert!(!give_to_connector(&mut source, &mut connector));
    assert_eq!(1, source.output_slots()[0].quantity());
}

#[test]
fn deliver_puts_stack_into_matching_input() {
    let w = world();
    let mut sink = Producer::new_with_recipe(w.recipes.get(w.bronze), w.bronze);
    let mut connector = Connector::new(0);
    let _ = connector.insert_stack(ItemStack { item: w.tin, quantity: 1 });
    assert_eq!(connector.status(), ConnectorStatus::WaitingOnOutput);
    assert!(deliver_from_connector(&mut connector, &mut sink));
    assert_eq!(1, sink.input_slots()[1].quantity());
    assert_eq!(0, sink.input_slots()[0].quantity());
    assert_eq!(connector.status(), ConnectorStatus::WaitingOnInput);
}

#[test]
fn deliver_keeps_stack_when_input_is_full() {
    let w = world();
    let mut sink = Producer::new_with_recipe(w.recipes.get(w.bronze), w.bronze);
    let _ = sink.try_insert_ingredient(ItemStack { item: w.tin, quantity: 2 });
    let mut connector = Connector::new(0);
    let _ = connector.insert_stack(ItemStack { item: w.tin, quantity: 1 });
    assert!(!deliver_from_connector(&mut connector, &mut sink));
    assert_eq!(2, sink.input_slots()[1].quantity());
    assert_eq!(connector.status(), ConnectorStatus::WaitingOnOutput);
}

#[test]
fn deliver_keeps_stack_of_unused_kind() {
    let w = world();
    let mut sink = Producer::new_with_recipe(w.recipes.get(w.generate_copper), w.generate_copper);
    let mut connector = Connector::new(0);
    let _ = connector.insert_stack(ItemStack { item: w.copper, quantity: 1 });
    assert!(!deliver_from_connector(&mut connector, &mut sink));
    assert_eq!(connector.status(), ConnectorStatus::WaitingOnOutput);
    assert_eq!(ProductionStatus::Idle, sink.status());
}

#[test]
fn copper_travels_from_generator_to_bronze_smelter() {
    let w = world();
    let mut source = Producer::new_with_recipe(w.recipes.get(w.generate_copper), w.generate_copper);
    let mut sink = Producer::new_with_recipe(w.recipes.get(w.bronze), w.bronze);
    let mut connector = Connector::new(10);
    let mut delivered = 0;
    for _ in 0..40 {
        source.attempt_to_start_production(&w.recipes);
        source.tick(&w.recipes);
        sink.attempt_to_start_production(&w.recipes);
        sink.tick(&w.recipes);
        let _ = give_to_connector(&mut source, &mut connector);
        if deliver_from_connector(&mut connector, &mut sink) {
            delivered += 1;
        }
        connector.tick();
    }
    assert!(delivered >= 2);
    assert_eq!(sink.input_slots()[0].quantity(), delivered);
}
