//! Registered tasks and the order in which a claim wave looks at them.

use vstd::prelude::*;

verus! {

/// The tasks that this process handles: number and identifier of each.
pub struct TaskDetails {
    pub tasks: Vec<(i32, String)>,
}

/// The numbers of tasks.
pub open spec fn ids(tasks: Seq<(i32, String)>) -> Seq<i32> {
    tasks.map_values(|task: (i32, String)| task.0)
}

/// The identifier of the task with this number, or the empty text if there is none.
pub open spec fn identifier_or_empty(tasks: Seq<(i32, String)>, task_id: i32) -> Seq<char>
    decreases tasks.len(),
{
    if tasks.len() == 0 {
        ""@
    } else if tasks[0].0 == task_id {
        tasks[0].1@
    } else {
        identifier_or_empty(tasks.skip(1), task_id)
    }
}

impl TaskDetails {
    /// The tasks, number and identifier of each.
    pub fn entries(&self) -> (entries: Vec<(i32, String)>)
        ensures
            entries@ == self.tasks@,
    {
        let mut entries: Vec<(i32, String)> = Vec::with_capacity(self.tasks.len());
        let mut i: usize = 0;
        while i < self.tasks.len()
            invariant
                i <= self.tasks@.len(),
                entries@ == self.tasks@.take(i as int),
            decreases self.tasks@.len() - i,
        {
            entries.push((self.tasks[i].0, self.tasks[i].1.clone()));
            i += 1;
            assert(entries@ =~= self.tasks@.take(i as int));
        }
        assert(self.tasks@.take(i as int) =~= self.tasks@);
        entries
    }

    /// The numbers of the tasks.
    pub fn task_ids(&self) -> (task_ids: Vec<i32>)
        ensures
            task_ids@ == ids(self.tasks@),
            task_ids@.len() == self.tasks@.len(),
            forall|i: int|
                0 <= i < task_ids@.len() ==> #[trigger] task_ids@[i] == self.tasks@[i].0,
    {
        let mut task_ids: Vec<i32> = Vec::with_capacity(self.tasks.len());
        let mut i: usize = 0;
        while i < self.tasks.len()
            invariant
                i <= self.tasks@.len(),
                task_ids@ == ids(self.tasks@.take(i as int)),
            decreases self.tasks@.len() - i,
        {
            task_ids.push(self.tasks[i].0);
            i += 1;
            assert(task_ids@ =~= ids(self.tasks@.take(i as int)));
        }
        assert(self.tasks@.take(i as int) =~= self.tasks@);
        task_ids
    }

    /// The identifier of a task, or an empty one if the task is not registered.
    pub fn get_or_empty(&self, task_id: i32) -> (identifier: String)
        ensures
            identifier@ == identifier_or_empty(self.tasks@, task_id),
            (exists|i: int|
                0 <= i < self.tasks@.len() && (#[trigger] self.tasks@[i]).0 == task_id
                    && identifier@ == self.tasks@[i].1@ && forall|k: int|
                    0 <= k < i ==> (#[trigger] self.tasks@[k]).0 != task_id) || (identifier@ == ""@
                && forall|i: int|
                0 <= i < self.tasks@.len() ==> (#[trigger] self.tasks@[i]).0 != task_id),
    {
        let mut i: usize = 0;
        assert(self.tasks@.skip(0) =~= self.tasks@);
        while i < self.tasks.len()
            invariant
                i <= self.tasks@.len(),
                forall|k: int| 0 <= k < i ==> (#[trigger] self.tasks@[k]).0 != task_id,
                identifier_or_empty(self.tasks@, task_id) == identifier_or_empty(
                    self.tasks@.skip(i as int),
                    task_id,
                ),
            decreases self.tasks@.len() - i,
        {
            assert(self.tasks@.skip(i as int)[0] == self.tasks@[i as int]);
            if self.tasks[i].0 == task_id {
                return self.tasks[i].1.clone();
            }
            assert(self.tasks@.skip(i as int).skip(1) =~= self.tasks@.skip(i + 1));
            i += 1;
        }
        "".to_string()
    }
}

/// Law: a registered number leads to its identifier. Looking up the number of any task
/// that is the first with this number gives the identifier of that task.
pub proof fn law_registered_tasks_are_found(tasks: Seq<(i32, String)>, index: int)
    requires
        0 <= index < tasks.len(),
        forall|k: int| 0 <= k < index ==> (#[trigger] tasks[k]).0 != tasks[index].0,
    ensures
        identifier_or_empty(tasks, tasks[index].0) == tasks[index].1@,
    decreases tasks.len(),
{
    if index > 0 {
        let rest = tasks.skip(1);
        assert(tasks[0].0 != tasks[index].0);
        assert(rest[index - 1] == tasks[index]);
        assert forall|k: int| 0 <= k < index - 1 implies (#[trigger] rest[k]).0
            != rest[index - 1].0 by {
            assert(rest[k] == tasks[k + 1]);
        }
        law_registered_tasks_are_found(rest, index - 1);
    }
}

/// Law: a number that no task has leads to the empty text.
pub proof fn law_unknown_tasks_have_no_identifier(tasks: Seq<(i32, String)>, task_id: i32)
    requires
        forall|i: int| 0 <= i < tasks.len() ==> (#[trigger] tasks[i]).0 != task_id,
    ensures
        identifier_or_empty(tasks, task_id) == ""@,
    decreases tasks.len(),
{
    if tasks.len() > 0 {
        let rest = tasks.skip(1);
        assert(tasks[0].0 != task_id);
        assert forall|i: int| 0 <= i < rest.len() implies (#[trigger] rest[i]).0 != task_id by {
            assert(rest[i] == tasks[i + 1]);
        }
        law_unknown_tasks_have_no_identifier(rest, task_id);
    }
}

/// Law: every task has its number in its place.
pub proof fn law_ids_are_those_of_the_tasks(tasks: Seq<(i32, String)>, index: int)
    ensures
        ids(tasks).len() == tasks.len(),
        0 <= index < tasks.len() ==> ids(tasks)[index] == tasks[index].0,
{
}

/// Byte-wise lexicographic order of two texts, given as their UTF-8 bytes: whether
/// `left` sorts before `right` or equals it.
pub open spec fn bytes_le(left: Seq<u8>, right: Seq<u8>) -> bool
    decreases left.len(),
{
    if left.len() == 0 {
        true
    } else if right.len() == 0 {
        false
    } else if left[0] != right[0] {
        left[0] < right[0]
    } else {
        bytes_le(left.skip(1), right.skip(1))
    }
}

/// The order of identifiers.
pub open spec fn identifier_le(left: Seq<char>, right: Seq<char>) -> bool {
    bytes_le(vstd::utf8::encode_utf8(left), vstd::utf8::encode_utf8(right))
}

/// Whether the identifier `left` sorts before `right` or equals it.
pub fn identifier_not_after(left: &str, right: &str) -> (result: bool)
    ensures
        result == identifier_le(left@, right@),
{
    let left_bytes: &[u8] = left.as_bytes();
    let right_bytes: &[u8] = right.as_bytes();
    let mut i: usize = 0;
    assert(left_bytes@.skip(0) =~= left_bytes@);
    assert(right_bytes@.skip(0) =~= right_bytes@);
    while i < left_bytes.len() && i < right_bytes.len()
        invariant
            i <= left_bytes@.len(),
            i <= right_bytes@.len(),
            bytes_le(left_bytes@, right_bytes@) == bytes_le(
                left_bytes@.skip(i as int),
                right_bytes@.skip(i as int),
            ),
            left_bytes@ == vstd::utf8::encode_utf8(left@),
            right_bytes@ == vstd::utf8::encode_utf8(right@),
        decreases left_bytes@.len() - i,
    {
        if left_bytes[i] != right_bytes[i] {
            return left_bytes[i] < right_bytes[i];
        }
        assert(left_bytes@.skip(i as int).skip(1) =~= left_bytes@.skip(i + 1));
        assert(right_bytes@.skip(i as int).skip(1) =~= right_bytes@.skip(i + 1));
        i += 1;
    }
    i == left_bytes.len()
}

/// Law: identifiers are ordered by the first byte in which they differ, and one that
/// another begins with comes before it. `same` is the length of what both begin with.
pub proof fn law_the_first_difference_orders(left: Seq<char>, right: Seq<char>, same: int)
    requires
        0 <= same <= vstd::utf8::encode_utf8(left).len(),
        same <= vstd::utf8::encode_utf8(right).len(),
        forall|i: int|
            0 <= i < same ==> #[trigger] vstd::utf8::encode_utf8(left)[i]
                == vstd::utf8::encode_utf8(right)[i],
    ensures
        ({
            let a = vstd::utf8::encode_utf8(left);
            let b = vstd::utf8::encode_utf8(right);
            &&& same < a.len() && same < b.len() && a[same] < b[same] ==> identifier_le(left, right)
                && !identifier_le(right, left)
            &&& same == a.len() ==> identifier_le(left, right)
            &&& same == a.len() && same < b.len() ==> !identifier_le(right, left)
        }),
{
    lemma_first_difference(
        vstd::utf8::encode_utf8(left),
        vstd::utf8::encode_utf8(right),
        same,
    );
}

/// The first byte in which two differ orders them.
proof fn lemma_first_difference(a: Seq<u8>, b: Seq<u8>, same: int)
    requires
        0 <= same <= a.len(),
        same <= b.len(),
        forall|i: int| 0 <= i < same ==> #[trigger] a[i] == b[i],
    ensures
        same < a.len() && same < b.len() && a[same] < b[same] ==> bytes_le(a, b) && !bytes_le(b, a),
        same == a.len() ==> bytes_le(a, b),
        same == a.len() && same < b.len() ==> !bytes_le(b, a),
    decreases same,
{
    if same > 0 {
        assert(a[0] == b[0]);
        assert forall|i: int| 0 <= i < same - 1 implies #[trigger] a.skip(1)[i] == b.skip(1)[i] by {
            assert(a[i + 1] == b[i + 1]);
        }
        lemma_first_difference(a.skip(1), b.skip(1), same - 1);
    }
}

/// Law: the order of identifiers is a total order. Any two are in order one way or the
/// other, each is in order with itself, and the order carries over.
pub proof fn law_identifiers_are_totally_ordered(a: Seq<char>, b: Seq<char>, c: Seq<char>)
    ensures
        identifier_le(a, a),
        identifier_le(a, b) || identifier_le(b, a),
        identifier_le(a, b) && identifier_le(b, c) ==> identifier_le(a, c),
{
    let x = vstd::utf8::encode_utf8(a);
    let y = vstd::utf8::encode_utf8(b);
    let z = vstd::utf8::encode_utf8(c);
    lemma_bytes_le_total(x, x);
    lemma_bytes_le_total(x, y);
    if bytes_le(x, y) && bytes_le(y, z) {
        lemma_bytes_le_transitive(x, y, z);
    }
}

/// Whether tasks stand in the order of their identifiers.
pub open spec fn tasks_sorted(tasks: Seq<(i32, String)>) -> bool {
    forall|i: int, j: int|
        0 <= i < j < tasks.len() ==> identifier_le(
            (#[trigger] tasks[i]).1@,
            (#[trigger] tasks[j]).1@,
        )
}

/// Where a task with that identifier goes among tasks in order: behind every task
/// that does not sort after it.
pub open spec fn insertion_point(tasks: Seq<(i32, String)>, identifier: Seq<char>) -> int
    decreases tasks.len(),
{
    if tasks.len() == 0 {
        0
    } else if identifier_le(tasks.last().1@, identifier) {
        tasks.len() as int
    } else {
        insertion_point(tasks.drop_last(), identifier)
    }
}

/// Tasks in the order of their identifiers. Tasks under one identifier keep the
/// order they had.
pub open spec fn in_identifier_order(tasks: Seq<(i32, String)>) -> Seq<(i32, String)>
    decreases tasks.len(),
{
    if tasks.len() == 0 {
        tasks
    } else {
        let sorted = in_identifier_order(tasks.drop_last());
        sorted.insert(insertion_point(sorted, tasks.last().1@), tasks.last())
    }
}

/// Puts tasks in the order of their identifiers.
pub fn sort_tasks(tasks: &mut Vec<(i32, String)>)
    ensures
        final(tasks)@ == in_identifier_order(old(tasks)@),
        final(tasks)@.to_multiset() == old(tasks)@.to_multiset(),
        forall|i: int, j: int|
            0 <= i < j < final(tasks)@.len() ==> identifier_le(
                (#[trigger] final(tasks)@[i]).1@,
                (#[trigger] final(tasks)@[j]).1@,
            ),
{
    let ghost given = tasks@;
    let count: usize = tasks.len();
    let mut sorted: usize = 0;
    assert(given.take(0) =~= Seq::<(i32, String)>::empty());
    assert(given.skip(0) =~= given);
    assert(in_identifier_order(given.take(0)) + given.skip(0) =~= given);
    while sorted < count
        invariant
            sorted <= count,
            count == given.len(),
            tasks@ == in_identifier_order(given.take(sorted as int)) + given.skip(sorted as int),
        decreases count - sorted,
    {
        let ghost prefix = in_identifier_order(given.take(sorted as int));
        proof {
            law_order_is_a_rearrangement(given.take(sorted as int));
            assert(given.take(sorted + 1).drop_last() =~= given.take(sorted as int));
        }
        let task: (i32, String) = tasks.remove(sorted);
        assert(task == given[sorted as int]);
        let ghost rest = given.skip(sorted + 1);
        assert(tasks@ =~= prefix + rest);
        let mut point: usize = sorted;
        assert(prefix.take(point as int) =~= prefix);
        while point > 0 && !identifier_not_after(tasks[point - 1].1.as_str(), task.1.as_str())
            invariant
                point <= sorted,
                sorted == prefix.len(),
                tasks@ == prefix + rest,
                insertion_point(prefix, task.1@) == insertion_point(
                    prefix.take(point as int),
                    task.1@,
                ),
            decreases point,
        {
            assert(prefix.take(point as int).drop_last() =~= prefix.take(point - 1));
            point -= 1;
        }
        proof {
            let taken = prefix.take(point as int);
            if point > 0 {
                assert(taken.last() == tasks@[point - 1]);
            }
            assert(insertion_point(prefix, task.1@) == point);
        }
        tasks.insert(point, task);
        assert(tasks@ =~= prefix.insert(point as int, task) + rest);
        sorted += 1;
    }
    assert(given.take(sorted as int) =~= given);
    assert(tasks@ =~= in_identifier_order(given));
    proof {
        law_order_is_sorted(given);
        law_order_is_a_rearrangement(given);
    }
}

/// Law: sorted tasks stand in the order of their identifiers.
pub proof fn law_order_is_sorted(tasks: Seq<(i32, String)>)
    ensures
        tasks_sorted(in_identifier_order(tasks)),
        forall|i: int, j: int|
            0 <= i < j < in_identifier_order(tasks).len() ==> identifier_le(
                (#[trigger] in_identifier_order(tasks)[i]).1@,
                (#[trigger] in_identifier_order(tasks)[j]).1@,
            ),
    decreases tasks.len(),
{
    if tasks.len() > 0 {
        let sorted = in_identifier_order(tasks.drop_last());
        let task = tasks.last();
        law_order_is_sorted(tasks.drop_last());
        lemma_insertion_point(sorted, task.1@);
        let point = insertion_point(sorted, task.1@);
        let result = sorted.insert(point, task);
        assert forall|i: int, j: int| 0 <= i < j < result.len() implies identifier_le(
            (#[trigger] result[i]).1@,
            (#[trigger] result[j]).1@,
        ) by {
            if i < point && j == point {
                assert(result[i] == sorted[i]);
            } else if i == point {
                assert(result[j] == sorted[j - 1]);
                assert(!identifier_le(sorted[j - 1].1@, task.1@));
                lemma_bytes_le_total(
                    vstd::utf8::encode_utf8(sorted[j - 1].1@),
                    vstd::utf8::encode_utf8(task.1@),
                );
            } else {
                let a = if i < point {
                    i
                } else {
                    i - 1
                };
                let b = if j < point {
                    j
                } else {
                    j - 1
                };
                assert(result[i] == sorted[a]);
                assert(result[j] == sorted[b]);
            }
        }
    }
}

/// Law: sorting keeps every task, as often as it was there.
pub proof fn law_order_is_a_rearrangement(tasks: Seq<(i32, String)>)
    ensures
        in_identifier_order(tasks).len() == tasks.len(),
        in_identifier_order(tasks).to_multiset() == tasks.to_multiset(),
    decreases tasks.len(),
{
    broadcast use vstd::seq_lib::group_to_multiset_ensures;

    if tasks.len() > 0 {
        let sorted = in_identifier_order(tasks.drop_last());
        let task = tasks.last();
        law_order_is_a_rearrangement(tasks.drop_last());
        lemma_insertion_point_bounds(sorted, task.1@);
        assert(tasks =~= tasks.drop_last().push(task));
        vstd::seq_lib::to_multiset_insert(sorted, insertion_point(sorted, task.1@), task);
    }
}

/// Law: tasks under one identifier keep the order they had.
pub proof fn law_order_is_stable(tasks: Seq<(i32, String)>, identifier: Seq<char>)
    ensures
        in_identifier_order(tasks).filter(|task: (i32, String)| task.1@ == identifier)
            == tasks.filter(|task: (i32, String)| task.1@ == identifier),
    decreases tasks.len(),
{
    let same = |task: (i32, String)| task.1@ == identifier;
    if tasks.len() > 0 {
        let sorted = in_identifier_order(tasks.drop_last());
        let task = tasks.last();
        let point = insertion_point(sorted, task.1@);
        law_order_is_sorted(tasks.drop_last());
        law_order_is_stable(tasks.drop_last(), identifier);
        lemma_insertion_point(sorted, task.1@);
        let before = sorted.take(point);
        let behind = sorted.skip(point);
        let middle = Seq::<(i32, String)>::empty().push(task);
        assert(sorted =~= before + behind);
        assert(sorted.insert(point, task) =~= before + middle + behind);
        Seq::filter_distributes_over_add(before, behind, same);
        Seq::filter_distributes_over_add(before + middle, behind, same);
        Seq::filter_distributes_over_add(before, middle, same);
        Seq::<(i32, String)>::empty().lemma_filter_push(task, same);
        assert(Seq::<(i32, String)>::empty().filter(same) =~= Seq::<(i32, String)>::empty()) by {
            Seq::<(i32, String)>::empty().lemma_filter_len(same);
        }
        tasks.drop_last().lemma_filter_push(task, same);
        assert(tasks =~= tasks.drop_last().push(task));
        if same(task) {
            assert forall|i: int| 0 <= i < behind.len() implies !same(#[trigger] behind[i]) by {
                assert(behind[i] == sorted[point + i]);
                lemma_bytes_le_total(
                    vstd::utf8::encode_utf8(identifier),
                    vstd::utf8::encode_utf8(identifier),
                );
            }
            behind.lemma_all_neg_filter_empty(same);
            assert(behind.filter(same) =~= Seq::<(i32, String)>::empty()) by {
                assert(behind.filter(same).len() == 0);
            }
            assert(in_identifier_order(tasks).filter(same) =~= sorted.filter(same).push(task));
        } else {
            assert(middle.filter(same) =~= Seq::<(i32, String)>::empty());
            assert(in_identifier_order(tasks).filter(same) =~= sorted.filter(same));
        }
    }
}

proof fn lemma_insertion_point_bounds(tasks: Seq<(i32, String)>, identifier: Seq<char>)
    ensures
        0 <= insertion_point(tasks, identifier) <= tasks.len(),
    decreases tasks.len(),
{
    if tasks.len() > 0 {
        lemma_insertion_point_bounds(tasks.drop_last(), identifier);
    }
}

/// Among tasks in order, those before the insertion point do not sort after the
/// identifier, and those behind it do.
proof fn lemma_insertion_point(tasks: Seq<(i32, String)>, identifier: Seq<char>)
    requires
        tasks_sorted(tasks),
    ensures
        0 <= insertion_point(tasks, identifier) <= tasks.len(),
        forall|i: int|
            0 <= i < insertion_point(tasks, identifier) ==> identifier_le(
                (#[trigger] tasks[i]).1@,
                identifier,
            ),
        forall|i: int|
            insertion_point(tasks, identifier) <= i < tasks.len() ==> !identifier_le(
                (#[trigger] tasks[i]).1@,
                identifier,
            ),
    decreases tasks.len(),
{
    if tasks.len() > 0 {
        if identifier_le(tasks.last().1@, identifier) {
            assert forall|i: int| 0 <= i < tasks.len() implies identifier_le(
                (#[trigger] tasks[i]).1@,
                identifier,
            ) by {
                if i < tasks.len() - 1 {
                    lemma_bytes_le_transitive(
                        vstd::utf8::encode_utf8(tasks[i].1@),
                        vstd::utf8::encode_utf8(tasks.last().1@),
                        vstd::utf8::encode_utf8(identifier),
                    );
                }
            }
        } else {
            let front = tasks.drop_last();
            lemma_insertion_point(front, identifier);
            assert forall|i: int| 0 <= i < insertion_point(tasks, identifier) implies identifier_le(
                (#[trigger] tasks[i]).1@,
                identifier,
            ) by {
                assert(front[i] == tasks[i]);
            }
            assert forall|i: int|
                insertion_point(tasks, identifier) <= i < tasks.len() implies !identifier_le(
                (#[trigger] tasks[i]).1@,
                identifier,
            ) by {
                if i < tasks.len() - 1 {
                    assert(front[i] == tasks[i]);
                }
            }
        }
    }
}

proof fn lemma_bytes_le_total(left: Seq<u8>, right: Seq<u8>)
    ensures
        bytes_le(left, right) || bytes_le(right, left),
    decreases left.len(),
{
    if left.len() > 0 && right.len() > 0 && left[0] == right[0] {
        lemma_bytes_le_total(left.skip(1), right.skip(1));
    }
}

proof fn lemma_bytes_le_transitive(a: Seq<u8>, b: Seq<u8>, c: Seq<u8>)
    requires
        bytes_le(a, b),
        bytes_le(b, c),
    ensures
        bytes_le(a, c),
    decreases a.len(),
{
    if a.len() > 0 && b.len() > 0 && c.len() > 0 && a[0] == b[0] && b[0] == c[0] {
        lemma_bytes_le_transitive(a.skip(1), b.skip(1), c.skip(1));
    }
}

} // verus!
