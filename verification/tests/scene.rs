use prop_editor::object::{BodyHandle, MeshHandle, ObjectKind, SceneObject, TextureHandle};
use prop_editor::registry::{find_in, find_mut_in, remove_in, ObjectRegistry, RegistryError};
use prop_editor::text::same_text;
use prop_editor::vec3::Vec3;

fn cube(name: &str, id: u64) -> SceneObject {
    SceneObject::new(name, ObjectKind::Cube { mesh: MeshHandle { id } })
}

fn mesh_id(obj: &SceneObject) -> u64 {
    obj.kind.mesh().unwrap().id
}

fn names(objs: &Vec<SceneObject>) -> Vec<String> {
    objs.iter().map(|o| o.name.clone()).collect()
}

#[test]
fn vec3_zero_is_all_zero_bits() {
    let v = Vec3::zero();
    assert_eq!((v.x, v.y, v.z), (0, 0, 0));
    assert_eq!(f32::from_bits(v.x), 0.0);
}

#[test]
fn vec3_from_bits_keeps_each_component() {
    let v = Vec3::from_bits(1.5f32.to_bits(), (-2.0f32).to_bits(), 900.0f32.to_bits());
    assert_eq!(f32::from_bits(v.x), 1.5);
    assert_eq!(f32::from_bits(v.y), -2.0);
    assert_eq!(f32::from_bits(v.z), 900.0);
    assert_ne!(v, Vec3::zero());
}

#[test]
fn same_text_compares_characters() {
    assert!(same_text("tile", "tile"));
    assert!(same_text("", ""));
    assert!(!same_text("tile", "tilf"));
    assert!(!same_text("tile", "til"));
    assert!(!same_text("", "a"));
    assert!(same_text("pr\u{f6}p\u{1f600}", "pr\u{f6}p\u{1f600}"));
    assert!(!same_text("pr\u{f6}p", "prop"));
    assert!(!same_text("Tile", "tile"));
}

#[test]
fn new_object_is_bare() {
    let obj = SceneObject::new("thing", ObjectKind::UtilityRay { direction: Vec3::from_bits(1, 2, 3) });
    assert_eq!(obj.name(), "thing");
    assert_eq!(obj.position(), Vec3::zero());
    assert_eq!(obj.rotation(), Vec3::zero());
    assert_eq!(obj.physics_body, None);
    assert!(obj.children().is_empty());
    assert_eq!(obj.kind, ObjectKind::UtilityRay { direction: Vec3::from_bits(1, 2, 3) });
    assert_eq!(obj.kind.mesh(), None);
    assert_eq!(obj.kind.texture(), None);
}

#[test]
fn object_kind_reports_mesh_and_texture() {
    let mesh = MeshHandle { id: 4 };
    let texture = TextureHandle { id: 9 };
    assert_eq!(ObjectKind::Tile { mesh, texture: Some(texture) }.mesh(), Some(mesh));
    assert_eq!(ObjectKind::Tile { mesh, texture: Some(texture) }.texture(), Some(texture));
    assert_eq!(ObjectKind::Prop { mesh, texture: None }.mesh(), Some(mesh));
    assert_eq!(ObjectKind::Prop { mesh, texture: None }.texture(), None);
    assert_eq!(ObjectKind::Cube { mesh }.mesh(), Some(mesh));
    assert_eq!(ObjectKind::Cube { mesh }.texture(), None);
}

#[test]
fn object_setters_change_one_attribute() {
    let mut obj = cube("a", 1);
    obj.add_child(cube("b", 2));
    obj.set_position(Vec3::from_bits(7, 8, 9));
    assert_eq!(obj.position(), Vec3::from_bits(7, 8, 9));
    assert_eq!(obj.rotation(), Vec3::zero());
    obj.set_rotation(Vec3::from_bits(1, 1, 1));
    assert_eq!(obj.rotation(), Vec3::from_bits(1, 1, 1));
    assert_eq!(obj.position(), Vec3::from_bits(7, 8, 9));
    obj.set_physics_body(Some(BodyHandle { id: 5 }));
    assert_eq!(obj.physics_body, Some(BodyHandle { id: 5 }));
    assert_eq!(obj.name(), "a");
    assert_eq!(names(obj.children()), vec!["b"]);
    assert_eq!(obj.children()[0].position(), Vec3::zero());
}

#[test]
fn object_add_child_appends() {
    let mut obj = cube("a", 1);
    obj.add_child(cube("x", 2));
    obj.add_child(cube("y", 3));
    obj.add_child(cube("x", 4));
    assert_eq!(names(obj.children()), vec!["x", "y", "x"]);
    assert_eq!(mesh_id(&obj.children()[2]), 4);
}

#[test]
fn registry_starts_empty() {
    let reg = ObjectRegistry::new();
    assert!(reg.roots.is_empty());
    assert!(reg.find("anything").is_none());
}

#[test]
fn registry_add_appends_to_roots() {
    let mut reg = ObjectRegistry::new();
    reg.add(cube("a", 1));
    reg.add(cube("b", 2));
    reg.add(cube("a", 3));
    assert_eq!(names(&reg.roots), vec!["a", "b", "a"]);
    assert_eq!(mesh_id(&reg.roots[2]), 3);
}

#[test]
fn find_returns_first_root_of_that_name() {
    let mut reg = ObjectRegistry::new();
    reg.add(cube("a", 1));
    reg.add(cube("b", 2));
    reg.add(cube("a", 3));
    assert_eq!(mesh_id(reg.find("a").unwrap()), 1);
    assert_eq!(mesh_id(reg.find("b").unwrap()), 2);
    assert!(reg.find("c").is_none());
}

#[test]
fn find_descends_before_it_moves_on() {
    // a(1)[ x(2)[ t(3) ] ], t(4)
    let mut x = cube("x", 2);
    x.add_child(cube("t", 3));
    let mut a = cube("a", 1);
    a.add_child(x);
    let mut reg = ObjectRegistry::new();
    reg.add(a);
    reg.add(cube("t", 4));
    assert_eq!(mesh_id(reg.find("t").unwrap()), 3);
    assert_eq!(mesh_id(reg.find("x").unwrap()), 2);
}

#[test]
fn find_prefers_a_root_to_its_own_descendants() {
    // t(1)[ t(2) ]
    let mut t = cube("t", 1);
    t.add_child(cube("t", 2));
    let mut reg = ObjectRegistry::new();
    reg.add(t);
    assert_eq!(mesh_id(reg.find("t").unwrap()), 1);
}

#[test]
fn find_prefers_an_earlier_sibling_subtree() {
    // r[ a(1)[ n(2) ], n(3) ]
    let mut a = cube("a", 1);
    a.add_child(cube("n", 2));
    let mut r = cube("r", 0);
    r.add_child(a);
    r.add_child(cube("n", 3));
    let mut reg = ObjectRegistry::new();
    reg.add(r);
    assert_eq!(mesh_id(reg.find("n").unwrap()), 2);
}

#[test]
fn find_in_searches_a_plain_list() {
    let mut a = cube("a", 1);
    a.add_child(cube("b", 2));
    let objs = vec![a, cube("b", 3)];
    assert_eq!(mesh_id(find_in(&objs, "b").unwrap()), 2);
    assert!(find_in(&objs, "z").is_none());
    assert!(find_in(&Vec::new(), "a").is_none());
}

#[test]
fn find_mut_changes_the_first_match_only() {
    let mut a = cube("a", 1);
    a.add_child(cube("n", 2));
    let mut reg = ObjectRegistry::new();
    reg.add(a);
    reg.add(cube("n", 3));
    reg.find_mut("n").unwrap().set_position(Vec3::from_bits(5, 6, 7));
    assert_eq!(reg.roots[0].children[0].position(), Vec3::from_bits(5, 6, 7));
    assert_eq!(reg.roots[1].position(), Vec3::zero());
    assert_eq!(reg.roots[0].position(), Vec3::zero());
    assert!(reg.find_mut("zz").is_none());
    assert_eq!(names(&reg.roots), vec!["a", "n"]);
}

#[test]
fn find_mut_in_reaches_deep_objects() {
    let mut c = cube("c", 3);
    c.add_child(cube("d", 4));
    let mut b = cube("b", 2);
    b.add_child(c);
    let mut objs = vec![cube("a", 1), b];
    find_mut_in(&mut objs, "d").unwrap().set_physics_body(Some(BodyHandle { id: 77 }));
    assert_eq!(objs[1].children[0].children[0].physics_body, Some(BodyHandle { id: 77 }));
    assert_eq!(objs[1].children[0].physics_body, None);
    assert!(find_mut_in(&mut objs, "e").is_none());
}

#[test]
fn remove_root_takes_its_subtree() {
    let mut a = cube("a", 1);
    a.add_child(cube("b", 2));
    a.add_child(cube("c", 3));
    let mut reg = ObjectRegistry::new();
    reg.add(cube("z", 0));
    reg.add(a);
    reg.add(cube("y", 9));
    assert!(reg.remove("a"));
    assert_eq!(names(&reg.roots), vec!["z", "y"]);
    assert!(reg.find("b").is_none());
    assert!(reg.find("c").is_none());
}

#[test]
fn remove_nested_leaves_siblings_and_parent() {
    let mut a = cube("a", 1);
    a.add_child(cube("b", 2));
    a.add_child(cube("c", 3));
    a.add_child(cube("d", 4));
    let mut reg = ObjectRegistry::new();
    reg.add(a);
    assert!(reg.remove("c"));
    assert_eq!(names(&reg.roots), vec!["a"]);
    assert_eq!(names(&reg.roots[0].children), vec!["b", "d"]);
}

#[test]
fn remove_takes_only_the_first_match() {
    let mut a = cube("a", 1);
    a.add_child(cube("n", 2));
    let mut reg = ObjectRegistry::new();
    reg.add(a);
    reg.add(cube("n", 3));
    assert!(reg.remove("n"));
    assert!(reg.roots[0].children.is_empty());
    assert_eq!(mesh_id(reg.find("n").unwrap()), 3);
    assert!(reg.remove("n"));
    assert!(reg.find("n").is_none());
    assert_eq!(names(&reg.roots), vec!["a"]);
}

#[test]
fn remove_of_an_unknown_name_changes_nothing() {
    let mut a = cube("a", 1);
    a.add_child(cube("b", 2));
    let mut reg = ObjectRegistry::new();
    reg.add(a);
    assert!(!reg.remove("nobody"));
    assert_eq!(names(&reg.roots), vec!["a"]);
    assert_eq!(names(&reg.roots[0].children), vec!["b"]);
    let mut empty = ObjectRegistry::new();
    assert!(!empty.remove("a"));
    assert!(empty.roots.is_empty());
}

#[test]
fn remove_in_works_on_a_plain_list() {
    let mut b = cube("b", 2);
    b.add_child(cube("c", 3));
    let mut objs = vec![cube("a", 1), b];
    assert!(remove_in(&mut objs, "c"));
    assert!(objs[1].children.is_empty());
    assert!(!remove_in(&mut objs, "c"));
    assert_eq!(names(&objs), vec!["a", "b"]);
}

#[test]
fn add_child_appends_to_the_parent() {
    let mut reg = ObjectRegistry::new();
    reg.add(cube("tile", 1));
    assert_eq!(reg.add_child("tile", cube("p1", 2)), Ok(()));
    assert_eq!(reg.add_child("tile", cube("p2", 3)), Ok(()));
    assert_eq!(names(&reg.roots), vec!["tile"]);
    assert_eq!(names(&reg.roots[0].children), vec!["p1", "p2"]);
}

#[test]
fn add_child_goes_to_the_first_parent_of_that_name() {
    // holder[ tile(1) ], tile(2)
    let mut holder = cube("holder", 0);
    holder.add_child(cube("tile", 1));
    let mut reg = ObjectRegistry::new();
    reg.add(holder);
    reg.add(cube("tile", 2));
    assert_eq!(reg.add_child("tile", cube("p", 5)), Ok(()));
    assert_eq!(names(&reg.roots[0].children[0].children), vec!["p"]);
    assert!(reg.roots[1].children.is_empty());
}

#[test]
fn add_child_reports_a_missing_parent() {
    let mut reg = ObjectRegistry::new();
    reg.add(cube("a", 1));
    assert_eq!(reg.add_child("tile", cube("p", 2)), Err(RegistryError::ParentNotFound));
    assert_eq!(names(&reg.roots), vec!["a"]);
    assert!(reg.roots[0].children.is_empty());
    assert!(reg.find("p").is_none());
}

#[test]
fn add_child_then_remove_restores_the_scene() {
    let mut a = cube("a", 1);
    a.add_child(cube("b", 2));
    let mut reg = ObjectRegistry::new();
    reg.add(a);
    reg.add(cube("c", 3));
    assert_eq!(reg.add_child("b", cube("fresh", 4)), Ok(()));
    assert_eq!(mesh_id(reg.find("fresh").unwrap()), 4);
    assert!(reg.remove("fresh"));
    assert!(reg.find("fresh").is_none());
    assert_eq!(names(&reg.roots), vec!["a", "c"]);
    assert_eq!(names(&reg.roots[0].children), vec!["b"]);
    assert!(reg.roots[0].children[0].children.is_empty());
}
