use graphile_worker::tasks::{identifier_not_after, sort_tasks, TaskDetails};

fn task(id: i32, identifier: &str) -> (i32, String) {
    (id, identifier.to_string())
}

#[test]
fn tasks_are_sorted_by_identifier() {
    let mut tasks = vec![task(1, "b"), task(2, "ab"), task(3, ""), task(4, "a"), task(5, "é")];
    let mut expected = tasks.clone();
    expected.sort_by(|left, right| left.1.as_str().partial_cmp(right.1.as_str()).unwrap());
    sort_tasks(&mut tasks);
    assert_eq!(tasks, expected);
    assert_eq!(tasks[0], task(3, ""));
    assert_eq!(tasks[4], task(5, "é"));
}

#[test]
fn tasks_with_the_same_identifier_keep_their_order() {
    let mut tasks = vec![task(2, "a"), task(9, "b"), task(1, "a"), task(3, "a")];
    sort_tasks(&mut tasks);
    assert_eq!(tasks, vec![task(2, "a"), task(1, "a"), task(3, "a"), task(9, "b")]);
}

#[test]
fn identifiers_are_compared_by_their_bytes() {
    assert!(identifier_not_after("a", "a"));
    assert!(identifier_not_after("a", "aa"));
    assert!(!identifier_not_after("aa", "a"));
    assert!(identifier_not_after("Z", "a"));
    assert!(identifier_not_after("", "a"));
}

#[test]
fn details_give_numbers_and_identifiers() {
    let details = TaskDetails { tasks: vec![task(4, "a"), task(2, "b")] };
    assert_eq!(details.task_ids(), vec![4, 2]);
    assert_eq!(details.entries(), vec![task(4, "a"), task(2, "b")]);
    assert_eq!(details.get_or_empty(2), "b");
    assert_eq!(details.get_or_empty(3), "");
}
