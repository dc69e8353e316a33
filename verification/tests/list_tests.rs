use linked_list_bench::list::{build_list, LinkedList};

#[test]
fn empty_list_traversal_visits_zero() {
    let list = LinkedList::<u64>::new();
    assert_eq!(list.traverse(), 0);
}

#[test]
fn n_prepends_yield_n_visited() {
    for n in [0usize, 1, 2, 3, 10, 1000] {
        let list = build_list(n);
        assert_eq!(list.traverse(), n);
    }
}

#[test]
fn manual_pushes_are_counted() {
    let mut list = LinkedList::new();
    list.push(42u64);
    list.push(7);
    list.push(7);
    assert_eq!(list.traverse(), 3);
}

#[test]
fn traversal_is_idempotent() {
    let list = build_list(7);
    let first = list.traverse();
    let second = list.traverse();
    assert_eq!(first, 7);
    assert_eq!(second, first);
}

#[test]
fn five_node_scenario_matches_expected_count() {
    let expected: usize = 5;
    let list = build_list(expected);
    let (visited, _elapsed) = list.traverse_and_time();
    assert_eq!(visited, expected);
}

#[test]
fn timed_traversal_of_empty_list() {
    let list = LinkedList::<usize>::new();
    let (visited, elapsed) = list.traverse_and_time();
    assert_eq!(visited, 0);
    let _nanos = elapsed.as_nanos();
}

#[test]
fn timed_traversal_agrees_with_plain_traversal() {
    let list = build_list(64);
    let (visited, _elapsed) = list.traverse_and_time();
    assert_eq!(visited, list.traverse());
}
