use json_nav::commands::{interpret, Command, KeyInput, Viewer};
use json_nav::doc::Doc;
use json_nav::zipper::JsonPath;

/// The document `{"a": {"b": 1, "c": 2}, "d": 3}`.
fn doc_a() -> Doc {
    let mut d = Doc::new();
    let b = d.add_number("1".to_string());
    let c = d.add_number("2".to_string());
    let inner = d
        .add_object(vec![("b".to_string(), b), ("c".to_string(), c)])
        .unwrap();
    let three = d.add_number("3".to_string());
    d.add_object(vec![("a".to_string(), inner), ("d".to_string(), three)])
        .unwrap();
    d
}

#[test]
fn bindings() {
    assert_eq!(interpret(KeyInput::Char('q')), Command::Quit);
    assert_eq!(interpret(KeyInput::Esc), Command::Quit);
    assert_eq!(interpret(KeyInput::Char('j')), Command::MoveDown);
    assert_eq!(interpret(KeyInput::Char('k')), Command::MoveUp);
    assert_eq!(interpret(KeyInput::Char('l')), Command::Descend);
    assert_eq!(interpret(KeyInput::Char('h')), Command::Ascend);
    assert_eq!(interpret(KeyInput::Char('x')), Command::Ignore);
    assert_eq!(interpret(KeyInput::Char('Q')), Command::Ignore);
    assert_eq!(interpret(KeyInput::Other), Command::Ignore);
}

#[test]
fn walking_down_and_back_restores_the_selection() {
    let mut v = Viewer::new(JsonPath::new(doc_a()));
    // Select "d", descend onto the scalar 3, and come back: the selection
    // returns to 1.
    assert!(!v.apply(Command::MoveDown));
    assert_eq!(v.selection(), 1);
    assert!(!v.apply(Command::Descend));
    assert_eq!(v.engine.depth(), 1);
    assert_eq!(v.selection(), 0);
    assert_eq!(v.engine.field_count(), 0);
    assert!(!v.apply(Command::Ascend));
    assert_eq!(v.engine.depth(), 0);
    assert_eq!(v.selection(), 1);

    // Back to "a", descend into the inner object, move, and come back.
    assert!(!v.apply(Command::MoveUp));
    assert_eq!(v.selection(), 0);
    assert!(!v.apply(Command::Descend));
    assert_eq!(v.engine.depth(), 1);
    assert_eq!(v.selection(), 0);
    assert!(!v.apply(Command::MoveDown));
    assert_eq!(v.selection(), 1);
    assert!(!v.apply(Command::Ascend));
    assert_eq!(v.engine.depth(), 0);
    assert_eq!(v.selection(), 0);
}

#[test]
fn quit_and_ignore() {
    let mut v = Viewer::new(JsonPath::new(doc_a()));
    assert!(!v.apply(Command::Ignore));
    assert_eq!(v.selection(), 0);
    assert_eq!(v.engine.depth(), 0);
    assert!(v.apply(Command::Quit));
    assert_eq!(v.selection(), 0);
    assert_eq!(v.engine.depth(), 0);
}

#[test]
fn moving_clamps_at_the_edges() {
    let mut v = Viewer::new(JsonPath::new(doc_a()));
    assert!(!v.apply(Command::MoveUp));
    assert_eq!(v.selection(), 0);
    assert!(!v.apply(Command::MoveDown));
    assert!(!v.apply(Command::MoveDown));
    assert!(!v.apply(Command::MoveDown));
    assert_eq!(v.selection(), 1);
}

#[test]
fn ascend_at_root_changes_nothing() {
    let mut v = Viewer::new(JsonPath::new(doc_a()));
    let root = v.engine.cursor();
    for _ in 0..4 {
        assert!(!v.apply(Command::Ascend));
        assert_eq!(v.engine.cursor(), root);
        assert_eq!(v.engine.depth(), 0);
        assert_eq!(v.selection(), 0);
    }
}

/// Any finite command sequence is absorbed without a failure, and the
/// selection always stays within the current node's children.
#[test]
fn arbitrary_command_sequences_are_safe() {
    let commands = [
        Command::MoveDown,
        Command::Descend,
        Command::MoveUp,
        Command::Ascend,
        Command::Ignore,
    ];
    let mut v = Viewer::new(JsonPath::new(doc_a()));
    let mut x: u64 = 0x9e3779b97f4a7c15;
    for _ in 0..10_000 {
        x ^= x << 13;
        x ^= x >> 7;
        x ^= x << 17;
        let cmd = commands[(x % 5) as usize];
        assert!(!v.apply(cmd));
        let fc = v.engine.field_count();
        if fc > 0 {
            assert!(v.selection() < fc);
        } else {
            assert_eq!(v.selection(), 0);
        }
    }
}
