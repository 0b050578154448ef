//! Lookups over a small scene: a root with children "HUD" and "Audio" of
//! different classes, a grandchild, and one node carrying a script class.

use scene_lookup::classes::ClassTable;
use scene_lookup::classes::NativeClassTable;
use scene_lookup::lookup::Engine;
use scene_lookup::lookup::MainLoopState;
use scene_lookup::lookup::NodeExt;
use scene_lookup::lookup::autoload;
use scene_lookup::tree::SceneTree;

struct Scene {
    tree: SceneTree,
    cls_node: usize,
    cls_a: usize,
    cls_b: usize,
    native_hud: usize,
    root: usize,
    hud: usize,
    audio: usize,
    health: usize,
}

/// Classes: 0 is the base, Node under it, A and B under Node.
/// Nodes: root "root" (Node), children "HUD" (A, script) and "Audio" (B),
/// and "Health" (B) under "HUD".
fn build_scene() -> Scene {
    let mut classes = ClassTable::new();
    let cls_node = classes.add_class(0);
    let cls_a = classes.add_class(cls_node);
    let cls_b = classes.add_class(cls_node);
    let mut natives = NativeClassTable::new();
    let native_hud = natives.add_native(cls_a);
    let mut tree = SceneTree::new(classes, natives);
    let root = tree.add_root("root".to_owned(), cls_node, None);
    let hud = tree.add_child(root, "HUD".to_owned(), cls_a, Some(native_hud));
    let audio = tree.add_child(root, "Audio".to_owned(), cls_b, None);
    let health = tree.add_child(hud, "Health".to_owned(), cls_b, None);
    Scene { tree, cls_node, cls_a, cls_b, native_hud, root, hud, audio, health }
}

fn engine_with(tree: SceneTree) -> Engine {
    Engine { main_loop: MainLoopState::Tree(tree) }
}

#[test]
fn autoload_finds_typed_child() {
    let s = build_scene();
    let e = engine_with(s.tree);
    assert_eq!(autoload(&e, "HUD", s.cls_a), Some(s.hud));
    assert_eq!(autoload(&e, "Audio", s.cls_b), Some(s.audio));
}

#[test]
fn autoload_accepts_cast_to_ancestor_class() {
    let s = build_scene();
    let e = engine_with(s.tree);
    assert_eq!(autoload(&e, "HUD", s.cls_node), Some(s.hud));
    assert_eq!(autoload(&e, "HUD", 0), Some(s.hud));
}

#[test]
fn autoload_cast_to_wrong_type_is_absent() {
    let s = build_scene();
    let e = engine_with(s.tree);
    assert_eq!(autoload(&e, "HUD", s.cls_b), None);
    assert_eq!(autoload(&e, "Audio", s.cls_a), None);
}

#[test]
fn autoload_missing_child_is_absent() {
    let s = build_scene();
    let cls_a = s.cls_a;
    let cls_b = s.cls_b;
    let e = engine_with(s.tree);
    assert_eq!(autoload(&e, "Missing", cls_a), None);
    assert_eq!(autoload(&e, "Missing", cls_b), None);
}

#[test]
fn autoload_without_scene_tree_is_absent() {
    let s = build_scene();
    let absent = Engine { main_loop: MainLoopState::Absent };
    assert_eq!(autoload(&absent, "HUD", s.cls_a), None);
    let other = Engine { main_loop: MainLoopState::NotSceneTree };
    assert_eq!(autoload(&other, "HUD", s.cls_a), None);
}

#[test]
fn autoload_without_root_is_absent() {
    let mut classes = ClassTable::new();
    let cls_node = classes.add_class(0);
    let empty = SceneTree::new(classes, NativeClassTable::new());
    let e = engine_with(empty);
    assert_eq!(autoload(&e, "HUD", cls_node), None);
}

#[test]
fn autoload_takes_full_paths() {
    let s = build_scene();
    let e = engine_with(s.tree);
    assert_eq!(autoload(&e, "HUD/Health", s.cls_b), Some(s.health));
    assert_eq!(autoload(&e, "/root/HUD", s.cls_a), Some(s.hud));
}

#[test]
fn autoload_is_idempotent() {
    let s = build_scene();
    let e = engine_with(s.tree);
    let first = autoload(&e, "HUD", s.cls_a);
    let second = autoload(&e, "HUD", s.cls_a);
    assert_eq!(first, second);
    let missing_first = autoload(&e, "Missing", s.cls_a);
    let missing_second = autoload(&e, "Missing", s.cls_a);
    assert_eq!(missing_first, missing_second);
}

#[test]
fn get_node_resolves_relative_paths() {
    let s = build_scene();
    let t = &s.tree;
    assert_eq!(t.get_node(s.root, "HUD"), Some(s.hud));
    assert_eq!(t.get_node(s.root, "HUD/Health"), Some(s.health));
    assert_eq!(t.get_node(s.hud, "Health"), Some(s.health));
    assert_eq!(t.get_node(s.hud, ".."), Some(s.root));
    assert_eq!(t.get_node(s.hud, "../Audio"), Some(s.audio));
    assert_eq!(t.get_node(s.health, "../../Audio"), Some(s.audio));
    assert_eq!(t.get_node(s.hud, "."), Some(s.hud));
    assert_eq!(t.get_node(s.hud, "./Health"), Some(s.health));
    assert_eq!(t.get_node(s.root, "HUD/.."), Some(s.root));
    assert_eq!(t.get_node(s.root, "Audio/Health"), None);
    assert_eq!(t.get_node(s.root, "Health"), None);
}

#[test]
fn get_node_resolves_absolute_paths() {
    let s = build_scene();
    let t = &s.tree;
    assert_eq!(t.get_node(s.audio, "/root"), Some(s.root));
    assert_eq!(t.get_node(s.audio, "/root/HUD/Health"), Some(s.health));
    assert_eq!(t.get_node(s.audio, "/HUD"), None);
    assert_eq!(t.get_node(s.audio, "/wrong/HUD"), None);
    assert_eq!(t.get_node(s.audio, "/"), None);
    assert_eq!(t.get_node(s.audio, "/./root"), None);
}

#[test]
fn get_node_skips_empty_segments() {
    let s = build_scene();
    let t = &s.tree;
    assert_eq!(t.get_node(s.root, "HUD//Health"), Some(s.health));
    assert_eq!(t.get_node(s.root, "HUD/"), Some(s.hud));
    assert_eq!(t.get_node(s.hud, ""), Some(s.hud));
    // A path of only slashes is absolute with no segments at all.
    assert_eq!(t.get_node(s.hud, "//"), None);
}

#[test]
fn get_node_parent_of_root_is_absent() {
    let s = build_scene();
    let t = &s.tree;
    assert_eq!(t.get_node(s.root, ".."), None);
    assert_eq!(t.get_node(s.hud, "../.."), None);
}

#[test]
fn get_node_as_checks_the_class() {
    let s = build_scene();
    let t = &s.tree;
    assert_eq!(t.get_node_as(s.root, "HUD", s.cls_a), Some(s.hud));
    assert_eq!(t.get_node_as(s.root, "HUD", s.cls_b), None);
    assert_eq!(t.get_node_as(s.root, "HUD/Health", s.cls_b), Some(s.health));
    assert_eq!(t.get_node_as(s.root, "HUD/Health", s.cls_a), None);
    assert_eq!(t.get_node_as(s.hud, "../Audio", s.cls_node), Some(s.audio));
}

#[test]
fn get_node_as_instance_checks_the_script() {
    let s = build_scene();
    let t = &s.tree;
    assert_eq!(t.get_node_as_instance(s.root, "HUD", s.native_hud), Some(s.hud));
    assert_eq!(t.get_node_as_instance(s.root, "Audio", s.native_hud), None);
    assert_eq!(t.get_node_as_instance(s.root, "HUD/Health", s.native_hud), None);
    assert_eq!(t.get_node_as_instance(s.root, "Missing", s.native_hud), None);
}

#[test]
fn find_child_takes_the_first_match() {
    let mut classes = ClassTable::new();
    let cls_node = classes.add_class(0);
    let mut tree = SceneTree::new(classes, NativeClassTable::new());
    let root = tree.add_root("root".to_owned(), cls_node, None);
    let first = tree.add_child(root, "Twin".to_owned(), cls_node, None);
    let _second = tree.add_child(root, "Twin".to_owned(), cls_node, None);
    assert_eq!(tree.find_child(root, "Twin"), Some(first));
    assert_eq!(tree.get_node(root, "Twin"), Some(first));
}

#[test]
fn single_segment_lookup_equals_child_lookup() {
    let s = build_scene();
    let t = &s.tree;
    assert_eq!(t.get_node(s.root, "HUD"), t.find_child(s.root, "HUD"));
    assert_eq!(t.get_node(s.root, "Audio"), t.find_child(s.root, "Audio"));
    assert_eq!(t.get_node(s.root, "Missing"), t.find_child(s.root, "Missing"));
}

#[test]
fn subclass_checks_follow_the_hierarchy() {
    let mut classes = ClassTable::new();
    let cls_node = classes.add_class(0);
    let cls_a = classes.add_class(cls_node);
    let cls_b = classes.add_class(cls_node);
    assert!(classes.is_subclass_of(cls_a, cls_a));
    assert!(classes.is_subclass_of(cls_a, cls_node));
    assert!(classes.is_subclass_of(cls_a, 0));
    assert!(!classes.is_subclass_of(cls_a, cls_b));
    assert!(!classes.is_subclass_of(cls_node, cls_a));
    assert!(!classes.is_subclass_of(0, cls_node));
}
