use std::rc::Rc;

use zipper::context::{Context, ContextType};
use zipper::loc::Loc;
use zipper::tree::Tree;

fn s(v: &str) -> String {
    v.to_string()
}

fn leaf(v: &str) -> Tree<String> {
    Tree::new(Rc::new(s(v)), Tree::Empty, Tree::Empty)
}

/// The tree `[a [b [] c] d]` with the cursor at its root.
fn sample() -> Loc<String> {
    let b = Tree::new(Rc::new(s("b")), Tree::Empty, leaf("c"));
    Loc::new(Context::Root, Tree::new(Rc::new(s("a")), b, leaf("d")))
}

fn same_node(x: &Tree<String>, y: &Tree<String>) -> bool {
    match (x, y) {
        (Tree::Empty, Tree::Empty) => true,
        (Tree::Node(p), Tree::Node(q)) => Rc::ptr_eq(p, q),
        _ => false,
    }
}

#[test]
fn empty_location_renders_root_and_empty_tree() {
    let loc: Loc<String> = Loc::default();
    assert_eq!(loc.render(), "* ^ []");
}

#[test]
fn scenario_descend_left() {
    let loc: Loc<String> = Loc::default();
    assert_eq!(loc.render(), "* ^ []");
    let loc = loc.set(s("A"));
    assert_eq!(loc.render(), "* ^ \"A\"");
    let loc = loc.left().unwrap();
    assert_eq!(loc.render(), "* ^ [\"A\" . []] ^ []");
    let loc = loc.set(s("B"));
    assert_eq!(loc.render(), "* ^ [\"A\" . []] ^ \"B\"");
    let loc = loc.up().unwrap();
    assert_eq!(loc.render(), "* ^ [\"A\" \"B\" []]");
    assert!(loc.up().is_none());
}

#[test]
fn scenario_descend_right() {
    let loc: Loc<String> = Loc::default();
    assert_eq!(loc.render(), "* ^ []");
    let loc = loc.set(s("A"));
    assert_eq!(loc.render(), "* ^ \"A\"");
    let loc = loc.right().unwrap();
    assert_eq!(loc.render(), "* ^ [\"A\" [] .] ^ []");
    let loc = loc.set(s("B"));
    assert_eq!(loc.render(), "* ^ [\"A\" [] .] ^ \"B\"");
    let loc = loc.up().unwrap();
    assert_eq!(loc.render(), "* ^ [\"A\" [] \"B\"]");
    assert!(loc.up().is_none());
}

#[test]
fn empty_location_cannot_move() {
    let loc: Loc<String> = Loc::default();
    assert!(loc.up().is_none());
    assert!(loc.left().is_none());
    assert!(loc.right().is_none());
}

#[test]
fn empty_focus_below_root_cannot_descend() {
    let loc = Loc::new(Context::Root, leaf("x"));
    let down = loc.left().unwrap();
    assert!(down.tree.is_empty());
    assert!(down.left().is_none());
    assert!(down.right().is_none());
    assert!(down.up().is_some());
}

#[test]
fn round_trip_left_gives_back_the_cursor() {
    let loc = sample();
    let back = loc.left().unwrap().up().unwrap();
    assert_eq!(back.render(), loc.render());
    assert!(matches!(back.context, Context::Root));
    match (&back.tree, &loc.tree) {
        (Tree::Node(p), Tree::Node(q)) => {
            assert_eq!(p.data, q.data);
            assert!(same_node(&p.left, &q.left));
            assert!(same_node(&p.right, &q.right));
        }
        _ => panic!("focus lost its node"),
    }
}

#[test]
fn round_trip_right_gives_back_the_cursor() {
    let inner = sample().left().unwrap();
    let back = inner.right().unwrap().up().unwrap();
    assert_eq!(back.render(), inner.render());
    assert_eq!(back.render(), "* ^ [\"a\" . \"d\"] ^ [\"b\" [] \"c\"]");
    match (&back.context, &inner.context) {
        (Context::Frame(p), Context::Frame(q)) => assert!(Rc::ptr_eq(p, q)),
        _ => panic!("path lost its frame"),
    }
}

#[test]
fn set_keeps_path_and_children() {
    let loc = sample().left().unwrap();
    let edited = loc.set(s("z"));
    match (&edited.context, &loc.context) {
        (Context::Frame(p), Context::Frame(q)) => assert!(Rc::ptr_eq(p, q)),
        _ => panic!("path changed"),
    }
    match (&edited.tree, &loc.tree) {
        (Tree::Node(p), Tree::Node(q)) => {
            assert_eq!(*p.data, "z");
            assert!(same_node(&p.left, &q.left));
            assert!(same_node(&p.right, &q.right));
        }
        _ => panic!("focus lost its node"),
    }
}

#[test]
fn edit_below_left_leaves_sibling_untouched() {
    let loc = sample();
    let rebuilt = loc.left().unwrap().set(s("q")).up().unwrap();
    assert_eq!(rebuilt.render(), "* ^ [\"a\" [\"q\" [] \"c\"] \"d\"]");
    match (&rebuilt.tree, &loc.tree) {
        (Tree::Node(p), Tree::Node(q)) => assert!(same_node(&p.right, &q.right)),
        _ => panic!("focus lost its node"),
    }
}

#[test]
fn edit_below_right_leaves_sibling_untouched() {
    let loc = sample();
    let rebuilt = loc.right().unwrap().set(s("q")).up().unwrap();
    assert_eq!(rebuilt.render(), "* ^ [\"a\" [\"b\" [] \"c\"] \"q\"]");
    match (&rebuilt.tree, &loc.tree) {
        (Tree::Node(p), Tree::Node(q)) => assert!(same_node(&p.left, &q.left)),
        _ => panic!("focus lost its node"),
    }
}

#[test]
fn render_twice_gives_same_text() {
    let loc = sample().left().unwrap().right().unwrap();
    let first = loc.render();
    let second = loc.render();
    assert_eq!(first, second);
    assert_eq!(first, "* ^ [\"a\" . \"d\"] ^ [\"b\" [] .] ^ \"c\"");
}

#[test]
fn render_plain_writes_values_as_they_are() {
    let loc = sample().left().unwrap().right().unwrap();
    assert_eq!(loc.render_plain(), "* ^ [a . d] ^ [b [] .] ^ c");
    assert_eq!(sample().render_plain(), "* ^ [a [b [] c] d]");
}

#[test]
fn render_escapes_values() {
    let loc = Loc::new(Context::Root, leaf("say \"hi\"\n"));
    assert_eq!(loc.render(), "* ^ \"say \\\"hi\\\"\\n\"");
    assert_eq!(loc.render_plain(), "* ^ say \"hi\"\n");
}

#[test]
fn tree_and_context_render_on_their_own() {
    assert_eq!(Tree::<String>::Empty.render(), "[]");
    assert_eq!(leaf("x").render(), "\"x\"");
    let t = Tree::new(Rc::new(s("p")), leaf("l"), Tree::Empty);
    assert_eq!(t.render(), "[\"p\" \"l\" []]");
    assert_eq!(Context::<String>::Root.render(), "*");
    let c = Context::left(Rc::new(s("v")), Context::Root, leaf("o"));
    assert_eq!(c.render(), "* ^ [\"v\" \"o\" .]");
    let c = Context::right(Rc::new(s("w")), c, Tree::Empty);
    assert_eq!(c.render(), "* ^ [\"v\" \"o\" .] ^ [\"w\" . []]");
    let c = Context::new(ContextType::Left, Rc::new(s("u")), c, Tree::Empty);
    assert_eq!(c.render(), "* ^ [\"v\" \"o\" .] ^ [\"w\" . []] ^ [\"u\" [] .]");
}

#[test]
fn whole_tree_survives_a_walk() {
    let loc = sample();
    let deep = loc.left().unwrap().right().unwrap();
    let top = deep.up().unwrap().up().unwrap();
    assert_eq!(top.render(), loc.render());
    assert!(top.up().is_none());
}

#[test]
fn defaults_are_empty() {
    assert!(Tree::<String>::default().is_empty());
    assert!(matches!(Context::<String>::default(), Context::Root));
    let loc = Loc::<String>::default().clone();
    assert_eq!(loc.render(), "* ^ []");
}
