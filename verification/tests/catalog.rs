use prop_editor::catalog::{PropCatalog, PropTemplate};
use prop_editor::naming::prop_name_of;

fn template_names(catalog: &PropCatalog) -> Vec<String> {
    catalog.list().iter().map(|t| t.name.clone()).collect()
}

#[test]
fn template_keeps_its_three_texts() {
    let t = PropTemplate::new("tree", "models/tree.gltf", "textures/tree.png");
    assert_eq!(t.name, "tree");
    assert_eq!(t.model_path, "models/tree.gltf");
    assert_eq!(t.texture_path, "textures/tree.png");
}

#[test]
fn catalog_starts_empty() {
    let catalog = PropCatalog::new();
    assert!(catalog.list().is_empty());
    assert!(catalog.resolve("tree").is_none());
}

#[test]
fn catalog_add_appends_without_dedup() {
    let mut catalog = PropCatalog::new();
    catalog.add(PropTemplate::new("tree", "a", "b"));
    catalog.add(PropTemplate::new("rock", "c", "d"));
    catalog.add(PropTemplate::new("tree", "e", "f"));
    assert_eq!(template_names(&catalog), vec!["tree", "rock", "tree"]);
}

#[test]
fn catalog_resolve_takes_the_last_added() {
    let mut catalog = PropCatalog::new();
    catalog.add(PropTemplate::new("tree", "first", "x"));
    catalog.add(PropTemplate::new("rock", "r", "y"));
    catalog.add(PropTemplate::new("tree", "second", "z"));
    assert_eq!(catalog.resolve("tree").unwrap().model_path, "second");
    assert_eq!(catalog.resolve("rock").unwrap().model_path, "r");
    assert!(catalog.resolve("bush").is_none());
    assert!(catalog.resolve("").is_none());
}

#[test]
fn catalog_remove_takes_the_first_match() {
    let mut catalog = PropCatalog::new();
    catalog.add(PropTemplate::new("tree", "first", "x"));
    catalog.add(PropTemplate::new("rock", "r", "y"));
    catalog.add(PropTemplate::new("tree", "second", "z"));
    assert!(catalog.remove_by_name("tree"));
    assert_eq!(template_names(&catalog), vec!["rock", "tree"]);
    assert_eq!(catalog.list()[1].model_path, "second");
    assert!(catalog.remove_by_name("tree"));
    assert_eq!(template_names(&catalog), vec!["rock"]);
    assert!(!catalog.remove_by_name("tree"));
    assert_eq!(template_names(&catalog), vec!["rock"]);
}

#[test]
fn catalog_remove_of_an_unknown_name_changes_nothing() {
    let mut catalog = PropCatalog::new();
    assert!(!catalog.remove_by_name("tree"));
    catalog.add(PropTemplate::new("rock", "r", "y"));
    assert!(!catalog.remove_by_name("tree"));
    assert_eq!(template_names(&catalog), vec!["rock"]);
}

#[test]
fn prop_names_are_prefix_and_decimal_digits() {
    assert_eq!(prop_name_of(0), "prop0");
    assert_eq!(prop_name_of(1), "prop1");
    assert_eq!(prop_name_of(9), "prop9");
    assert_eq!(prop_name_of(10), "prop10");
    assert_eq!(prop_name_of(11), "prop11");
    assert_eq!(prop_name_of(100), "prop100");
    assert_eq!(prop_name_of(1234567890), "prop1234567890");
    assert_eq!(prop_name_of(usize::MAX), format!("prop{}", usize::MAX));
}

#[test]
fn prop_names_differ_for_different_counts() {
    let mut seen: Vec<String> = Vec::new();
    for n in 0..300usize {
        let name = prop_name_of(n);
        assert!(!seen.contains(&name));
        assert_eq!(name, format!("prop{}", n));
        seen.push(name);
    }
}
