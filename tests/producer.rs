use open_factory::item_stack::{InsertItemStackResult, ItemStack};
use open_factory::kinds::{ItemKind, ItemKindBuilder, RecipeInput, RecipeKind, RecipeOutput};
use open_factory::local_string::LocalString;
use open_factory::producer::{Producer, ProductionStatus};
use open_factory::registry::{Handle, Table};

fn make_item(items: &mut Table<ItemKind>, name: &str) -> Handle<ItemKind> {
    items.insert(ItemKindBuilder::new().with_name(LocalString::from_str(name)).build(), name.to_string())
}

#[test]
fn assemble() {
    let mut items = Table::new();
    let iron_plate = make_item(&mut items, "iron-plate");
    let iron_pipe = make_item(&mut items, "iron-pipe");

    let mut recipes = Table::new();

    let make_iron_pipe = recipes.insert(
        RecipeKind {
            name: LocalString::from_str("iron-pipe"),
            input_items: vec![RecipeInput { item: iron_plate, quantity: 1 }],
            output: vec![RecipeOutput { item: iron_pipe, quantity: 1 }],
            time: 20,
        },
        "iron-pipe".to_string(),
    );

    let mut producer = Producer::new();
    producer.set_recipe(recipes.get(make_iron_pipe.clone()), make_iron_pipe);

    let iron_plate_stack = ItemStack { item: iron_plate, quantity: 1 };

    let insert_result = producer.try_insert_ingredient(iron_plate_stack);
    assert!(matches!(insert_result, InsertItemStackResult::StackConsumed));

    producer.attempt_to_start_production(&recipes);

    for _ in 0..19 {
        producer.tick(&recipes);
    }

    assert_eq!(0, producer.output_slots()[0].quantity());

    producer.tick(&recipes);

    assert_eq!(1, producer.output_slots()[0].quantity());
    assert!(!producer.is_producing());

    assert_eq!(ProductionStatus::Idle, producer.status());

    let iron_plate_stack = ItemStack { item: iron_plate, quantity: 1 };

    let insert_result = producer.try_insert_ingredient(iron_plate_stack);
    assert!(matches!(insert_result, InsertItemStackResult::StackConsumed));

    producer.attempt_to_start_production(&recipes);

    for _ in 0..20 {
        producer.tick(&recipes);
    }

    assert_eq!(2, producer.output_slots()[0].quantity());
    // The output is full, but with no plate left the producer is not ready for a
    // cycle either: it stays idle until an ingredient arrives.
    assert_eq!(ProductionStatus::Idle, producer.status());
}

#[test]
fn producer_without_inputs_does_not_take_input() {
    let mut items = Table::new();
    let test_item = make_item(&mut items, "test-item");

    let mut recipes = Table::new();

    let generate_test_item = recipes.insert(
        RecipeKind {
            name: LocalString::from_str("generate-test-item"),
            input_items: vec![],
            output: vec![RecipeOutput { item: test_item, quantity: 1 }],
            time: 20,
        },
        "generate-test-item".to_string(),
    );

    let producer = Producer::new_with_recipe(recipes.get(generate_test_item), generate_test_item);
    assert!(!producer.takes_input());
}

fn pipe_recipe() -> (Table<ItemKind>, Handle<ItemKind>, Handle<ItemKind>, Table<RecipeKind>, Handle<RecipeKind>) {
    let mut items = Table::new();
    let plate = make_item(&mut items, "iron-plate");
    let pipe = make_item(&mut items, "iron-pipe");
    let mut recipes = Table::new();
    let recipe = recipes.insert(
        RecipeKind {
            name: LocalString::from_str("iron-pipe"),
            input_items: vec![RecipeInput { item: plate, quantity: 1 }],
            output: vec![RecipeOutput { item: pipe, quantity: 1 }],
            time: 20,
        },
        "iron-pipe".to_string(),
    );
    (items, plate, pipe, recipes, recipe)
}

#[test]
fn production_cycle_takes_twenty_ticks() {
    let (_items, plate, _pipe, recipes, recipe) = pipe_recipe();
    let mut producer = Producer::new_with_recipe(recipes.get(recipe), recipe);
    let res = producer.try_insert_ingredient(ItemStack { item: plate, quantity: 1 });
    assert!(matches!(res, InsertItemStackResult::StackConsumed));
    for _ in 0..19 {
        producer.attempt_to_start_production(&recipes);
        producer.tick(&recipes);
    }
    assert_eq!(0, producer.output_slots()[0].quantity());
    assert_eq!(ProductionStatus::Producing, producer.status());
    producer.attempt_to_start_production(&recipes);
    producer.tick(&recipes);
    assert_eq!(1, producer.output_slots()[0].quantity());
    assert_eq!(ProductionStatus::Idle, producer.status());
    assert_eq!(0, producer.input_slots()[0].quantity());
}

#[test]
fn third_cycle_stalls_when_output_is_full() {
    let (_items, plate, pipe, recipes, recipe) = pipe_recipe();
    let mut producer = Producer::new_with_recipe(recipes.get(recipe), recipe);
    for _ in 0..2 {
        let _ = producer.try_insert_ingredient(ItemStack { item: plate, quantity: 1 });
        producer.attempt_to_start_production(&recipes);
        for _ in 0..20 {
            producer.tick(&recipes);
        }
    }
    assert_eq!(2, producer.output_slots()[0].quantity());
    let _ = producer.try_insert_ingredient(ItemStack { item: plate, quantity: 1 });
    producer.attempt_to_start_production(&recipes);
    assert_eq!(ProductionStatus::Full, producer.status());
    assert!(!producer.is_producing());
    for _ in 0..40 {
        producer.tick(&recipes);
    }
    assert_eq!(2, producer.output_slots()[0].quantity());
    assert_eq!(1, producer.input_slots()[0].quantity());

    // Freeing space lets the next attempt start the cycle.
    assert!(producer.has_output());
    let taken = producer.take_single_item();
    assert_eq!(taken.quantity, 1);
    assert!(taken.item == pipe);
    producer.attempt_to_start_production(&recipes);
    assert_eq!(ProductionStatus::Producing, producer.status());
    assert_eq!(0, producer.input_slots()[0].quantity());
}

#[test]
fn ingredient_of_unknown_kind_is_rejected() {
    let (_items, _plate, pipe, recipes, recipe) = pipe_recipe();
    let mut producer = Producer::new_with_recipe(recipes.get(recipe), recipe);
    let res = producer.try_insert_ingredient(ItemStack { item: pipe, quantity: 4 });
    match res {
        InsertItemStackResult::FilterError(stack) => assert_eq!(stack.quantity, 4),
        _ => panic!("expected a filter error"),
    }
    assert_eq!(0, producer.input_slots()[0].quantity());
}

#[test]
fn ingredient_beyond_capacity_is_partly_taken() {
    let (_items, plate, _pipe, recipes, recipe) = pipe_recipe();
    let mut producer = Producer::new_with_recipe(recipes.get(recipe), recipe);
    let res = producer.try_insert_ingredient(ItemStack { item: plate, quantity: 5 });
    match res {
        InsertItemStackResult::StackPartiallyConsumed(rest) => assert_eq!(rest.quantity, 3),
        _ => panic!("expected partial consumption"),
    }
    let (inputs, outputs) = producer.item_counts();
    assert_eq!(inputs, vec![(2, 2)]);
    assert_eq!(outputs, vec![(0, 2)]);
}

#[test]
fn generator_runs_from_time_alone() {
    let mut items = Table::new();
    let copper = make_item(&mut items, "copper");
    let mut recipes = Table::new();
    let generate = recipes.insert(
        RecipeKind {
            name: LocalString::from_str("generate-copper"),
            input_items: vec![],
            output: vec![RecipeOutput { item: copper, quantity: 1 }],
            time: 3,
        },
        "generate-copper".to_string(),
    );
    let mut producer = Producer::default();
    assert!(!producer.gives_output());
    producer.set_recipe(recipes.get(generate), generate);
    assert!(producer.gives_output());
    assert!(!producer.has_output());
    producer.attempt_to_start_production(&recipes);
    assert!(producer.is_producing());
    for _ in 0..3 {
        producer.tick(&recipes);
    }
    assert_eq!(1, producer.output_slots()[0].quantity());
    assert!(producer.is_producing());
    for _ in 0..3 {
        producer.tick(&recipes);
    }
    assert_eq!(2, producer.output_slots()[0].quantity());
    assert_eq!(ProductionStatus::Full, producer.status());
}

#[test]
fn destroy_recipe_consumes_input_without_output() {
    let mut items = Table::new();
    let bronze = make_item(&mut items, "bronze");
    let mut recipes = Table::new();
    let destroy = recipes.insert(
        RecipeKind {
            name: LocalString::from_str("destroy-bronze"),
            input_items: vec![RecipeInput { item: bronze, quantity: 2 }],
            output: vec![],
            time: 1,
        },
        "destroy-bronze".to_string(),
    );
    let mut producer = Producer::new_with_recipe(recipes.get(destroy), destroy);
    assert!(!producer.gives_output());
    let _ = producer.try_insert_ingredient(ItemStack { item: bronze, quantity: 3 });
    producer.attempt_to_start_production(&recipes);
    assert!(producer.is_producing());
    assert_eq!(1, producer.input_slots()[0].quantity());
    producer.tick(&recipes);
    assert_eq!(ProductionStatus::Idle, producer.status());
    assert_eq!(1, producer.input_slots()[0].quantity());
}

#[test]
fn producer_without_recipe_never_starts() {
    let (_items, _plate, _pipe, recipes, _recipe) = pipe_recipe();
    let mut producer = Producer::new();
    producer.attempt_to_start_production(&recipes);
    producer.tick(&recipes);
    assert_eq!(ProductionStatus::Idle, producer.status());
    assert!(!producer.takes_input());
}
