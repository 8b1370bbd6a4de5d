use tikv_node::range::{key_equal, key_less, to_bound_range, Bound, BoundRange};

fn key(text: &str) -> Vec<u8> {
    text.as_bytes().to_vec()
}

#[test]
fn builds_each_of_the_nine_combinations() {
    let a = || Some(key("a"));
    let z = || Some(key("z"));
    let included = |k: &str| Bound::Included(key(k));
    let excluded = |k: &str| Bound::Excluded(key(k));

    assert_eq!(
        to_bound_range(a(), z(), true, true),
        BoundRange { from: included("a"), to: included("z") }
    );
    assert_eq!(
        to_bound_range(a(), z(), true, false),
        BoundRange { from: included("a"), to: excluded("z") }
    );
    assert_eq!(
        to_bound_range(a(), z(), false, true),
        BoundRange { from: excluded("a"), to: included("z") }
    );
    assert_eq!(
        to_bound_range(a(), z(), false, false),
        BoundRange { from: excluded("a"), to: excluded("z") }
    );
    assert_eq!(
        to_bound_range(a(), None, true, false),
        BoundRange { from: included("a"), to: Bound::Unbounded }
    );
    assert_eq!(
        to_bound_range(a(), None, false, true),
        BoundRange { from: excluded("a"), to: Bound::Unbounded }
    );
    assert_eq!(
        to_bound_range(None, z(), false, true),
        BoundRange { from: Bound::Unbounded, to: included("z") }
    );
    assert_eq!(
        to_bound_range(None, z(), true, false),
        BoundRange { from: Bound::Unbounded, to: excluded("z") }
    );
    assert_eq!(
        to_bound_range(None, None, true, true),
        BoundRange { from: Bound::Unbounded, to: Bound::Unbounded }
    );
}

#[test]
fn an_absent_endpoint_ignores_its_flag() {
    assert_eq!(
        to_bound_range(None, None, false, false),
        to_bound_range(None, None, true, true)
    );
}

#[test]
fn excluded_start_leaves_out_the_start_itself() {
    let range = to_bound_range(Some(key("a")), Some(key("c")), false, true);
    assert!(!range.contains(&key("a")));
    assert!(range.contains(&key("a\0")));
    assert!(range.contains(&key("b")));
    assert!(range.contains(&key("c")));
    assert!(!range.contains(&key("c\0")));
}

#[test]
fn included_start_holds_the_start_itself() {
    let range = to_bound_range(Some(key("a")), Some(key("c")), true, false);
    assert!(range.contains(&key("a")));
    assert!(range.contains(&key("b")));
    assert!(!range.contains(&key("c")));
    assert!(!range.contains(&key("")));
}

#[test]
fn scan_from_a_to_c_exclusive_yields_a_and_b() {
    let range = to_bound_range(Some(key("a")), Some(key("c")), true, false);
    let stored = vec![key("a"), key("b"), key("c")];
    let found: Vec<Vec<u8>> = stored.into_iter().filter(|k| range.contains(k)).collect();
    assert_eq!(found, vec![key("a"), key("b")]);
}

#[test]
fn range_at_one_key_is_empty_unless_both_sides_include_it() {
    let probes = vec![key(""), key("a"), key("k"), key("k\0"), key("z")];
    for (include_start, include_end) in [(true, false), (false, true), (false, false)] {
        let range = to_bound_range(Some(key("k")), Some(key("k")), include_start, include_end);
        for probe in &probes {
            assert!(!range.contains(probe));
        }
    }
    let closed = to_bound_range(Some(key("k")), Some(key("k")), true, true);
    for probe in &probes {
        assert_eq!(closed.contains(probe), *probe == key("k"));
    }
}

#[test]
fn unbounded_range_holds_every_key() {
    let range = to_bound_range(None, None, false, false);
    assert!(range.contains(&key("")));
    assert!(range.contains(&key("anything")));
    assert!(range.contains(&vec![0xff, 0xff]));
}

#[test]
fn keys_are_ordered_as_byte_strings() {
    assert!(key_less(&key(""), &key("a")));
    assert!(!key_less(&key(""), &key("")));
    assert!(!key_less(&key("a"), &key("")));
    assert!(key_less(&key("a"), &key("ab")));
    assert!(!key_less(&key("ab"), &key("a")));
    assert!(key_less(&key("ab"), &key("b")));
    assert!(key_less(&vec![0x01, 0xff], &vec![0x02]));
    assert!(key_less(&vec![0x7f], &vec![0x80]));
    assert!(!key_less(&key("same"), &key("same")));
}

#[test]
fn key_order_agrees_with_slice_order() {
    let keys = vec![key(""), key("a"), key("a\0"), key("ab"), key("b"), vec![0xff], vec![0xff, 0x00]];
    for a in &keys {
        for b in &keys {
            assert_eq!(key_less(a, b), a < b);
            assert_eq!(key_equal(a, b), a == b);
        }
    }
}

#[test]
fn range_builder_is_reachable_beside_the_conversions() {
    assert_eq!(
        tikv_node::utils::to_bound_range(Some(key("a")), None, true, true),
        to_bound_range(Some(key("a")), None, true, false)
    );
}
