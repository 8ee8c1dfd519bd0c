use json_nav::doc::{Doc, Value};
use json_nav::zipper::JsonPath;

/// The document `{"a": {"b": 1, "c": 2}, "d": 3}`, built children-first.
fn doc_a() -> Doc {
    let mut d = Doc::new();
    let b = d.add_number("1".to_string());
    let c = d.add_number("2".to_string());
    let inner = d
        .add_object(vec![("b".to_string(), b), ("c".to_string(), c)])
        .unwrap();
    let three = d.add_number("3".to_string());
    d.add_object(vec![("a".to_string(), inner), ("d".to_string(), three)])
        .unwrap();
    d
}

/// The document `[10, 20, 30]`.
fn doc_b() -> Doc {
    let mut d = Doc::new();
    let x = d.add_number("10".to_string());
    let y = d.add_number("20".to_string());
    let z = d.add_number("30".to_string());
    d.add_array(vec![x, y, z]).unwrap();
    d
}

fn labels_of(p: &JsonPath) -> Vec<String> {
    p.children_labels().iter().map(|s| s.label_text()).collect()
}

#[test]
fn scenario_object_document() {
    let d = doc_a();
    assert!(d.is_well_formed());
    let mut p = JsonPath::new(d);
    assert_eq!(p.field_count(), 2);
    assert_eq!(labels_of(&p), vec!["a".to_string(), "d".to_string()]);
    let root = p.cursor();

    assert!(p.descend(0));
    assert_eq!(p.field_count(), 2);
    assert_eq!(labels_of(&p), vec!["b".to_string(), "c".to_string()]);

    let popped = p.ascend().unwrap();
    assert_eq!(popped.index(), 0);
    assert_eq!(p.cursor(), root);
    assert_eq!(p.depth(), 0);

    assert!(p.descend(1));
    assert_eq!(p.field_count(), 0);
    assert_eq!(p.cursor_text().unwrap(), "3");
}

#[test]
fn scenario_array_document() {
    let d = doc_b();
    assert!(d.is_well_formed());
    let mut p = JsonPath::new(d);
    assert_eq!(
        labels_of(&p),
        vec!["0".to_string(), "1".to_string(), "2".to_string()]
    );
    assert!(p.descend(2));
    assert_eq!(p.field_count(), 0);
    assert_eq!(p.cursor_text().unwrap(), "30");
}

#[test]
fn round_trip_restores_cursor_and_selection() {
    let mut p = JsonPath::new(doc_a());
    let root = p.cursor();
    for i in 0..p.field_count() {
        assert!(p.descend(i));
        let popped = p.ascend().unwrap();
        assert_eq!(popped.index(), i);
        assert_eq!(p.cursor(), root);
        assert_eq!(p.depth(), 0);
    }
}

#[test]
fn ascend_at_root_is_a_noop_any_number_of_times() {
    let mut p = JsonPath::new(doc_a());
    let root = p.cursor();
    for _ in 0..5 {
        assert!(p.ascend().is_none());
        assert_eq!(p.cursor(), root);
        assert_eq!(p.depth(), 0);
    }
}

#[test]
fn descend_on_scalar_always_fails() {
    let mut d = Doc::new();
    d.add_null();
    let mut p = JsonPath::new(d);
    assert_eq!(p.field_count(), 0);
    for i in [0usize, 1, 7, usize::MAX] {
        assert!(!p.descend(i));
        assert_eq!(p.depth(), 0);
    }

    let makes: [fn(&mut Doc); 3] = [
        |d: &mut Doc| {
            d.add_bool(true);
        },
        |d: &mut Doc| {
            d.add_number("12.5".to_string());
        },
        |d: &mut Doc| {
            d.add_text("hi".to_string());
        },
    ];
    for make in makes {
        let mut d = Doc::new();
        make(&mut d);
        let mut p = JsonPath::new(d);
        assert!(!p.descend(0));
        assert_eq!(p.field_count(), 0);
    }
}

#[test]
fn descend_out_of_range_is_a_noop() {
    let mut p = JsonPath::new(doc_b());
    assert!(!p.descend(3));
    assert_eq!(p.depth(), 0);
    assert_eq!(p.field_count(), 3);
}

#[test]
fn descend_into_empty_container_succeeds() {
    let mut d = Doc::new();
    let empty = d.add_array(vec![]).unwrap();
    d.add_array(vec![empty]).unwrap();
    let mut p = JsonPath::new(d);
    assert_eq!(p.field_count(), 1);
    assert!(p.descend(0));
    assert_eq!(p.field_count(), 0);
    assert!(p.children_labels().is_empty());
    assert!(p.cursor_text().is_none());
    assert!(!p.descend(0));
}

#[test]
fn empty_object_root() {
    let mut d = Doc::new();
    d.add_object(vec![]).unwrap();
    let mut p = JsonPath::new(d);
    assert_eq!(p.field_count(), 0);
    assert!(labels_of(&p).is_empty());
    assert!(!p.descend(0));
    assert!(p.ascend().is_none());
}

#[test]
fn move_selection_clamps_at_both_ends() {
    let p = JsonPath::new(doc_b());
    let k = p.field_count();
    assert_eq!(k, 3);
    assert_eq!(p.move_selection(0, -1), 0);
    assert_eq!(p.move_selection(k - 1, 1), k - 1);
    assert_eq!(p.move_selection(0, 1), 1);
    assert_eq!(p.move_selection(2, -1), 1);
}

#[test]
fn move_selection_with_no_children_stays_at_zero() {
    let mut d = Doc::new();
    d.add_null();
    let p = JsonPath::new(d);
    assert_eq!(p.move_selection(0, 1), 0);
    assert_eq!(p.move_selection(0, -1), 0);
}

#[test]
fn scalar_texts() {
    let cases: Vec<(fn(&mut Doc), &str)> = vec![
        (
            |d: &mut Doc| {
                d.add_null();
            },
            "null",
        ),
        (
            |d: &mut Doc| {
                d.add_bool(true);
            },
            "true",
        ),
        (
            |d: &mut Doc| {
                d.add_bool(false);
            },
            "false",
        ),
        (
            |d: &mut Doc| {
                d.add_number("3.25".to_string());
            },
            "3.25",
        ),
        (
            |d: &mut Doc| {
                d.add_text("hello".to_string());
            },
            "hello",
        ),
    ];
    for (make, expect) in cases {
        let mut d = Doc::new();
        make(&mut d);
        let p = JsonPath::new(d);
        assert_eq!(p.cursor_text().unwrap(), expect);
    }
}

#[test]
fn breadcrumb_reflects_the_path() {
    let mut p = JsonPath::new(doc_a());
    assert!(p.descend(0));
    assert!(p.descend(1));
    let crumbs: Vec<String> = p.names().iter().map(|s| s.breadcrumb_text()).collect();
    assert_eq!(crumbs, vec![".a".to_string(), ".c".to_string()]);

    let mut q = JsonPath::new(doc_b());
    assert!(q.descend(2));
    let crumbs: Vec<String> = q.names().iter().map(|s| s.breadcrumb_text()).collect();
    assert_eq!(crumbs, vec!["[2]".to_string()]);
}

#[test]
fn array_labels_are_decimal_positions() {
    let mut d = Doc::new();
    let mut ids = Vec::new();
    for _ in 0..12 {
        ids.push(d.add_null());
    }
    d.add_array(ids).unwrap();
    let p = JsonPath::new(d);
    let labels = labels_of(&p);
    assert_eq!(labels[0], "0");
    assert_eq!(labels[9], "9");
    assert_eq!(labels[10], "10");
    assert_eq!(labels[11], "11");
}

#[test]
fn adding_a_node_with_a_dangling_child_is_refused() {
    let mut d = Doc::new();
    let n = d.add_null();
    assert_eq!(d.add_array(vec![n, 5]), None);
    assert_eq!(d.len(), 1);
    assert_eq!(d.add_object(vec![("k".to_string(), 9)]), None);
    assert_eq!(d.len(), 1);
    assert!(d.add_array(vec![n]).is_some());
    assert_eq!(d.len(), 2);
}

#[test]
fn well_formedness_checker_accepts_and_rejects() {
    let d = doc_a();
    assert!(d.is_well_formed());
    let mut e = Doc::new();
    e.add_null();
    assert!(e.is_well_formed());
    // The builders never produce a dangling child index, but an arena put
    // together by hand can hold one, and the checker must see it.
    let dangling = Doc {
        nodes: vec![Value::Array(vec![3])],
    };
    assert!(!dangling.is_well_formed());
    let dangling_field = Doc {
        nodes: vec![Value::Object(vec![("k".to_string(), 7)])],
    };
    assert!(!dangling_field.is_well_formed());
}

#[test]
fn selector_clone_preserves_key_and_index() {
    let mut p = JsonPath::new(doc_a());
    assert!(p.descend(1));
    let names = p.names();
    let copy = names[0].clone();
    assert_eq!(copy.index(), 1);
    assert_eq!(copy.label_text(), "d");
    assert_eq!(copy.breadcrumb_text(), ".d");
}
