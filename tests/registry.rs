use open_factory::kinds::{ItemKind, ItemKindBuilder};
use open_factory::local_string::LocalString;
use open_factory::registry::Table;

fn kind(name: &str) -> ItemKind {
    ItemKindBuilder::new().with_name(LocalString::from_str(name)).build()
}

#[test]
fn handles_index_entries_in_insertion_order() {
    let mut items = Table::new();
    let copper = items.insert(kind("copper"), "copper".to_string());
    let tin = items.insert(kind("tin"), "tin".to_string());
    assert!(copper != tin);
    assert_eq!(items.get(copper).name().as_str(), "copper");
    assert_eq!(items.get(tin).name().as_str(), "tin");
    assert_eq!(items.name(&copper), "copper");
    assert_eq!(items.name(&tin), "tin");
}

#[test]
fn lookup_by_name_finds_handle_and_entry() {
    let mut items = Table::new();
    let _copper = items.insert(kind("copper"), "copper".to_string());
    let tin = items.insert(kind("tin"), "tin".to_string());
    assert!(items.get_handle_from_name("tin") == tin);
    let (entry, handle) = items.get_ref_and_handle_from_name("tin");
    assert!(handle == tin);
    assert!(handle.same(&tin));
    assert_eq!(entry.name().as_str(), "tin");
}

#[test]
fn repeated_name_resolves_to_latest_entry() {
    let mut items = Table::new();
    let first = items.insert(kind("old bronze"), "bronze".to_string());
    let second = items.insert(kind("new bronze"), "bronze".to_string());
    let found = items.get_handle_from_name("bronze");
    assert!(found == second);
    assert!(found != first);
    assert_eq!(items.get(found).name().as_str(), "new bronze");
}
