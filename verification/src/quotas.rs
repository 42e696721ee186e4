//! How one claim wave divides its capacity over the registered task queues.
//!
//! A wave starts at the queue the rotation points to and visits the queues in
//! cyclic order. Each visited queue gets an equal share of the capacity, and the
//! slots that do not divide evenly go to the queues visited first. The rotation
//! then moves on, so that no queue keeps the advantage.

use vstd::prelude::*;

verus! {

/// Number of queues a wave visits.
pub open spec fn visited_queues(queue_count: int, capacity: int) -> int {
    if queue_count <= capacity {
        queue_count
    } else {
        capacity
    }
}

/// Quota of the queue that a wave visits as number `offset`, counted from zero.
pub open spec fn quota_at(queue_count: int, capacity: int, offset: int) -> int {
    capacity / queue_count + (if offset < capacity % queue_count {
        1int
    } else {
        0
    })
}

/// The whole allocation of a wave: queue index and quota, in the order of the visit.
pub open spec fn allocation(queue_count: int, capacity: int, start: int) -> Seq<(int, int)> {
    Seq::new(
        visited_queues(queue_count, capacity) as nat,
        |offset: int|
            ((start + offset) % queue_count, quota_at(queue_count, capacity, offset)),
    )
}

/// An allocation in machine integers, read as one in mathematical integers.
pub open spec fn allocation_view(slots: Seq<(usize, usize)>) -> Seq<(int, int)> {
    slots.map_values(|slot: (usize, usize)| (slot.0 as int, slot.1 as int))
}

/// How far the rotation moves after a wave.
pub open spec fn rotation_advance(queue_count: int, capacity: int) -> int {
    if capacity < queue_count {
        capacity
    } else {
        1
    }
}

/// Where the rotation stands after a wave that started at `start`.
pub open spec fn rotation_after(queue_count: int, capacity: int, start: int) -> int {
    (start + rotation_advance(queue_count, capacity)) % queue_count
}

/// Divides `capacity` over `queue_count` queues, visiting them from `start` on.
///
/// Each entry of the result is the index of a queue and its quota.
pub fn allocate_quotas(queue_count: usize, capacity: usize, start: usize) -> (slots: Vec<
    (usize, usize),
>)
    requires
        queue_count > 0,
        start + visited_queues(queue_count as int, capacity as int) <= usize::MAX + 1,
    ensures
        allocation_view(slots@) == allocation(queue_count as int, capacity as int, start as int),
        slots@.len() <= queue_count && slots@.len() <= capacity,
        slots@.len() == queue_count || slots@.len() == capacity,
        forall|i: int|
            0 <= i < slots@.len() ==> {
                &&& (#[trigger] slots@[i]).0 == (start + i) % queue_count as int
                &&& slots@[i].1 == capacity as int / queue_count as int + (if i < capacity as int
                    % queue_count as int {
                    1int
                } else {
                    0
                })
            },
{
    let visited: usize = if queue_count < capacity {
        queue_count
    } else {
        capacity
    };
    let base: usize = capacity / queue_count;
    let remainder: usize = capacity % queue_count;
    let mut slots: Vec<(usize, usize)> = Vec::with_capacity(visited);
    let mut offset: usize = 0;
    while offset < visited
        invariant
            queue_count > 0,
            visited == visited_queues(queue_count as int, capacity as int),
            base == capacity / queue_count,
            remainder == capacity % queue_count,
            start + visited <= usize::MAX + 1,
            offset <= visited,
            slots@.len() == offset,
            forall|i: int|
                0 <= i < offset ==> {
                    &&& (#[trigger] slots@[i]).0 == (start + i) % queue_count as int
                    &&& slots@[i].1 == quota_at(queue_count as int, capacity as int, i)
                },
        decreases visited - offset,
    {
        let task_index: usize = (start + offset) % queue_count;
        let quota: usize = if capacity < queue_count {
            proof {
                vstd::arithmetic::div_mod::lemma_small_mod(capacity as nat, queue_count as nat);
                vstd::arithmetic::div_mod::lemma_basic_div(capacity as int, queue_count as int);
            }
            1
        } else if offset < remainder {
            proof {
                lemma_base_below_capacity(queue_count as int, capacity as int);
            }
            base + 1
        } else {
            base
        };
        slots.push((task_index, quota));
        offset += 1;
    }
    assert(allocation_view(slots@) =~= allocation(
        queue_count as int,
        capacity as int,
        start as int,
    ));
    slots
}

/// Moves the rotation on after a wave.
pub fn next_rotation(queue_count: usize, capacity: usize, start: usize) -> (rotation: usize)
    requires
        queue_count > 0,
        start + rotation_advance(queue_count as int, capacity as int) <= usize::MAX,
    ensures
        rotation == rotation_after(queue_count as int, capacity as int, start as int),
        capacity < queue_count ==> rotation == (start + capacity) % queue_count as int,
        capacity >= queue_count ==> rotation == (start + 1) % queue_count as int,
{
    let advance: usize = if capacity < queue_count {
        capacity
    } else {
        1
    };
    (start + advance) % queue_count
}

/// A share with one slot on top fits the capacity whenever a slot is left over.
proof fn lemma_base_below_capacity(queue_count: int, capacity: int)
    requires
        queue_count > 0,
        capacity >= 0,
        capacity % queue_count > 0,
    ensures
        capacity / queue_count + 1 <= capacity,
{
    vstd::arithmetic::div_mod::lemma_fundamental_div_mod(capacity, queue_count);
    assert(capacity / queue_count >= 0) by {
        vstd::arithmetic::div_mod::lemma_div_pos_is_pos(capacity, queue_count);
    }
    assert(queue_count * (capacity / queue_count) >= capacity / queue_count) by (nonlinear_arith)
        requires
            queue_count > 0,
            capacity / queue_count >= 0,
    ;
}

/// Sum of the quotas in an allocation.
pub open spec fn quota_total(slots: Seq<(int, int)>) -> int
    decreases slots.len(),
{
    if slots.len() == 0 {
        0
    } else {
        quota_total(slots.drop_last()) + slots.last().1
    }
}

/// Quota that the queue with index `queue` gets in a wave that starts at `start`.
pub open spec fn quota_of_queue(queue_count: int, capacity: int, start: int, queue: int) -> int {
    let offset = (queue - start) % queue_count;
    if offset < visited_queues(queue_count, capacity) {
        quota_at(queue_count, capacity, offset)
    } else {
        0
    }
}

/// Where the rotation stands after `waves` waves of the same capacity.
pub open spec fn rotation_after_waves(
    queue_count: int,
    capacity: int,
    start: int,
    waves: nat,
) -> int
    decreases waves,
{
    if waves == 0 {
        start
    } else {
        rotation_after(
            queue_count,
            capacity,
            rotation_after_waves(queue_count, capacity, start, (waves - 1) as nat),
        )
    }
}

/// Slots that the queue with index `queue` gets over `waves` waves of the same capacity.
pub open spec fn slots_over_waves(
    queue_count: int,
    capacity: int,
    start: int,
    queue: int,
    waves: nat,
) -> int
    decreases waves,
{
    if waves == 0 {
        0
    } else {
        slots_over_waves(queue_count, capacity, start, queue, (waves - 1) as nat) + quota_of_queue(
            queue_count,
            capacity,
            rotation_after_waves(queue_count, capacity, start, (waves - 1) as nat),
            queue,
        )
    }
}

/// Law: the slots of a sequence are those of its parts, and one slot counts as itself.
pub proof fn law_quota_total_adds_up(left: Seq<(int, int)>, right: Seq<(int, int)>)
    ensures
        quota_total(left + right) == quota_total(left) + quota_total(right),
        left.len() == 1 ==> quota_total(left) == left[0].1,
    decreases right.len(),
{
    if right.len() == 0 {
        assert(left + right =~= left);
    } else {
        law_quota_total_adds_up(left, right.drop_last());
        assert((left + right).drop_last() =~= left + right.drop_last());
    }
    if left.len() == 1 {
        assert(left.drop_last() =~= Seq::<(int, int)>::empty());
        assert(quota_total(left.drop_last()) == 0);
    }
}

/// Law: a wave begins at `start` and goes from each queue to the one behind it. It
/// visits as many queues as there are, or as it has slots if that is fewer, and no
/// queue gets more than one that comes before it.
pub proof fn law_allocation_goes_round(queue_count: int, capacity: int, start: int, i: int, j: int)
    requires
        queue_count > 0,
        capacity >= 0,
        0 <= i <= j < allocation(queue_count, capacity, start).len(),
    ensures
        allocation(queue_count, capacity, start).len() == queue_count || allocation(
            queue_count,
            capacity,
            start,
        ).len() == capacity,
        allocation(queue_count, capacity, start).len() <= queue_count,
        allocation(queue_count, capacity, start).len() <= capacity,
        allocation(queue_count, capacity, start)[i].0 == (start + i) % queue_count,
        allocation(queue_count, capacity, start)[j].1 <= allocation(
            queue_count,
            capacity,
            start,
        )[i].1,
{
}

/// Law: after a wave the rotation stands where the next wave begins: behind the last
/// visited queue if some were left out, and otherwise one queue further.
pub proof fn law_rotation_moves_on(queue_count: int, capacity: int, start: int)
    requires
        queue_count > 0,
        capacity >= 0,
    ensures
        0 <= rotation_after(queue_count, capacity, start) < queue_count,
        capacity < queue_count ==> rotation_after(queue_count, capacity, start) == (start
            + capacity) % queue_count,
        capacity >= queue_count ==> rotation_after(queue_count, capacity, start) == (start + 1)
            % queue_count,
        rotation_after_waves(queue_count, capacity, start, 0) == start,
        rotation_after_waves(queue_count, capacity, start, 1) == rotation_after(
            queue_count,
            capacity,
            start,
        ),
{
    vstd::arithmetic::div_mod::lemma_mod_bound(
        start + rotation_advance(queue_count, capacity),
        queue_count,
    );
    reveal_with_fuel(rotation_after_waves, 2);
}

/// Law: a wave hands out exactly its capacity, no slot more and no slot less.
pub proof fn law_quotas_spend_the_capacity(queue_count: int, capacity: int, start: int)
    requires
        queue_count > 0,
        capacity >= 0,
    ensures
        quota_total(allocation(queue_count, capacity, start)) == capacity,
{
    let slots = allocation(queue_count, capacity, start);
    let visited = visited_queues(queue_count, capacity);
    lemma_quota_total(queue_count, capacity, start, visited as nat);
    assert(slots.take(visited) =~= slots);
    vstd::arithmetic::div_mod::lemma_fundamental_div_mod(capacity, queue_count);
    vstd::arithmetic::div_mod::lemma_mod_bound(capacity, queue_count);
    if capacity < queue_count {
        vstd::arithmetic::div_mod::lemma_small_mod(capacity as nat, queue_count as nat);
        vstd::arithmetic::div_mod::lemma_basic_div(capacity, queue_count);
        assert(visited * 0 == 0) by (nonlinear_arith);
    }
}

/// Law: the allocation of a wave visits each queue at most once, gives every
/// visited queue at least one slot, and no two visited queues differ by more than
/// one slot.
pub proof fn law_allocation_is_even(queue_count: int, capacity: int, start: int, i: int, j: int)
    requires
        queue_count > 0,
        capacity >= 0,
        0 <= i < allocation(queue_count, capacity, start).len(),
        0 <= j < allocation(queue_count, capacity, start).len(),
    ensures
        0 <= allocation(queue_count, capacity, start)[i].0 < queue_count,
        i != j ==> allocation(queue_count, capacity, start)[i].0 != allocation(
            queue_count,
            capacity,
            start,
        )[j].0,
        allocation(queue_count, capacity, start)[i].1 >= 1,
        allocation(queue_count, capacity, start)[i].1 <= allocation(
            queue_count,
            capacity,
            start,
        )[j].1 + 1,
{
    vstd::arithmetic::div_mod::lemma_mod_bound(start + i, queue_count);
    if i != j {
        lemma_offsets_differ(queue_count, start, i, j);
    }
    vstd::arithmetic::div_mod::lemma_fundamental_div_mod(capacity, queue_count);
    vstd::arithmetic::div_mod::lemma_mod_bound(capacity, queue_count);
    if capacity < queue_count {
        vstd::arithmetic::div_mod::lemma_small_mod(capacity as nat, queue_count as nat);
        vstd::arithmetic::div_mod::lemma_basic_div(capacity, queue_count);
    } else {
        assert(capacity / queue_count >= 1) by (nonlinear_arith)
            requires
                capacity == queue_count * (capacity / queue_count) + capacity % queue_count,
                0 <= capacity % queue_count < queue_count,
                capacity >= queue_count,
                queue_count > 0,
        ;
    }
}

/// Law: a wave whose capacity reaches the number of queues visits every queue.
pub proof fn law_full_capacity_visits_every_queue(
    queue_count: int,
    capacity: int,
    start: int,
    queue: int,
)
    requires
        0 <= queue < queue_count <= capacity,
    ensures
        exists|i: int|
            0 <= i < allocation(queue_count, capacity, start).len() && (#[trigger] allocation(
                queue_count,
                capacity,
                start,
            )[i]).0 == queue,
{
    let offset = (queue - start) % queue_count;
    lemma_offset_reaches_queue(queue_count, start, queue);
    assert(allocation(queue_count, capacity, start)[offset].0 == queue);
}

/// Law: `quota_of_queue` is what the allocation says. The queue stands in the
/// allocation with that quota, or it does not stand in it and the quota is zero.
pub proof fn law_quota_of_queue_is_allocated(
    queue_count: int,
    capacity: int,
    start: int,
    queue: int,
)
    requires
        0 <= queue < queue_count,
        capacity >= 0,
    ensures
        quota_of_queue(queue_count, capacity, start, queue) == 0 <==> forall|i: int|
            0 <= i < allocation(queue_count, capacity, start).len() ==> (#[trigger] allocation(
                queue_count,
                capacity,
                start,
            )[i]).0 != queue,
        forall|i: int|
            0 <= i < allocation(queue_count, capacity, start).len() && (#[trigger] allocation(
                queue_count,
                capacity,
                start,
            )[i]).0 == queue ==> allocation(queue_count, capacity, start)[i].1 == quota_of_queue(
                queue_count,
                capacity,
                start,
                queue,
            ),
{
    let slots = allocation(queue_count, capacity, start);
    let offset = (queue - start) % queue_count;
    lemma_offset_reaches_queue(queue_count, start, queue);
    assert forall|i: int| 0 <= i < slots.len() && (#[trigger] slots[i]).0 == queue implies i
        == offset by {
        if i != offset {
            lemma_offsets_differ(queue_count, start, i, offset);
        }
    }
    if offset < visited_queues(queue_count, capacity) {
        assert(slots[offset].0 == queue);
        law_allocation_is_even(queue_count, capacity, start, offset, offset);
    }
}

/// Law: a wave too small to visit every queue leaves off exactly where the next
/// one starts.
pub proof fn law_next_wave_continues(queue_count: int, capacity: int, start: int)
    requires
        0 <= capacity < queue_count,
    ensures
        rotation_after(queue_count, capacity, start) == (start + allocation(
            queue_count,
            capacity,
            start,
        ).len()) % queue_count,
{
}

/// Law: over as many waves as there are queues, every queue gets exactly as many
/// slots as one wave has. No queue is favoured or starved, whatever the capacity
/// and wherever the rotation starts.
pub proof fn law_full_turn_is_fair(queue_count: int, capacity: int, start: int, queue: int)
    requires
        0 <= queue < queue_count,
        capacity >= 0,
    ensures
        slots_over_waves(queue_count, capacity, start, queue, queue_count as nat) == capacity,
{
    let x = queue - start;
    let remainder = capacity % queue_count;
    vstd::arithmetic::div_mod::lemma_fundamental_div_mod(capacity, queue_count);
    vstd::arithmetic::div_mod::lemma_mod_bound(capacity, queue_count);
    if capacity < queue_count {
        vstd::arithmetic::div_mod::lemma_small_mod(capacity as nat, queue_count as nat);
        vstd::arithmetic::div_mod::lemma_basic_div(capacity, queue_count);
        lemma_slots_of_small_waves(queue_count, capacity, start, queue, queue_count as nat);
        assert((x - queue_count * capacity) / queue_count == x / queue_count - capacity) by {
            lemma_div_shift(x, queue_count, -capacity);
            assert(x + queue_count * (-capacity) == x - queue_count * capacity)
                by (nonlinear_arith);
        }
    } else {
        lemma_slots_of_large_waves(queue_count, capacity, start, queue, queue_count as nat);
        lemma_div_run_shift(queue_count, x, remainder as nat);
    }
}

/// Law: waves of a positive capacity reach every queue within as many waves as it
/// takes their capacities to add up to the number of queues.
pub proof fn law_every_queue_is_reached(
    queue_count: int,
    capacity: int,
    start: int,
    queue: int,
    waves: nat,
)
    requires
        0 <= queue < queue_count,
        capacity > 0,
        waves * capacity >= queue_count,
    ensures
        exists|wave: nat|
            wave < waves && #[trigger] quota_of_queue(
                queue_count,
                capacity,
                rotation_after_waves(queue_count, capacity, start, wave),
                queue,
            ) > 0,
{
    let offset = (queue - start) % queue_count;
    vstd::arithmetic::div_mod::lemma_mod_bound(queue - start, queue_count);
    vstd::arithmetic::div_mod::lemma_fundamental_div_mod(capacity, queue_count);
    vstd::arithmetic::div_mod::lemma_mod_bound(capacity, queue_count);
    if capacity >= queue_count {
        assert(waves > 0) by (nonlinear_arith)
            requires
                waves * capacity >= queue_count,
                queue_count > 0,
        ;
        law_full_capacity_visits_every_queue(queue_count, capacity, start, queue);
        law_quota_of_queue_is_allocated(queue_count, capacity, start, queue);
        lemma_quota_of_queue(queue_count, capacity, start, queue);
        assert(capacity / queue_count >= 0) by {
            vstd::arithmetic::div_mod::lemma_div_pos_is_pos(capacity, queue_count);
        }
        assert(quota_of_queue(
            queue_count,
            capacity,
            rotation_after_waves(queue_count, capacity, start, 0),
            queue,
        ) > 0);
    } else {
        let wave = (offset / capacity) as nat;
        vstd::arithmetic::div_mod::lemma_fundamental_div_mod(offset, capacity);
        vstd::arithmetic::div_mod::lemma_mod_bound(offset, capacity);
        vstd::arithmetic::div_mod::lemma_div_pos_is_pos(offset, capacity);
        assert(wave < waves) by (nonlinear_arith)
            requires
                offset == capacity * (offset / capacity) + offset % capacity,
                0 <= offset % capacity,
                wave == offset / capacity,
                offset < queue_count,
                waves * capacity >= queue_count,
                capacity > 0,
        ;
        let rotation = rotation_after_waves(queue_count, capacity, start, wave);
        lemma_rotation_congruent(queue_count, capacity, start, wave);
        lemma_small_mod_of_difference(queue_count, queue, start, rotation, wave * capacity);
        assert((queue - rotation) % queue_count == offset % capacity) by {
            assert(wave * capacity == capacity * (offset / capacity)) by (nonlinear_arith)
                requires
                    wave == offset / capacity,
            ;
            vstd::arithmetic::div_mod::lemma_fundamental_div_mod(queue - start, queue_count);
            let turns = (queue - start) / queue_count;
            assert(queue_count * turns == turns * queue_count) by (nonlinear_arith);
            vstd::arithmetic::div_mod::lemma_fundamental_div_mod_converse(
                queue - start - wave * capacity,
                queue_count,
                turns,
                offset % capacity,
            );
        }
        vstd::arithmetic::div_mod::lemma_small_mod(capacity as nat, queue_count as nat);
        lemma_quota_of_queue(queue_count, capacity, rotation, queue);
        vstd::arithmetic::div_mod::lemma_basic_div(capacity, queue_count);
        assert(quota_of_queue(
            queue_count,
            capacity,
            rotation_after_waves(queue_count, capacity, start, wave),
            queue,
        ) > 0);
    }
}

/// Sum of the quotas of the first queues that a wave visits.
proof fn lemma_quota_total(queue_count: int, capacity: int, start: int, visits: nat)
    requires
        queue_count > 0,
        capacity >= 0,
        visits <= visited_queues(queue_count, capacity),
    ensures
        quota_total(allocation(queue_count, capacity, start).take(visits as int)) == visits * (
        capacity / queue_count) + (if visits < capacity % queue_count {
            visits as int
        } else {
            capacity % queue_count
        }),
    decreases visits,
{
    let slots = allocation(queue_count, capacity, start);
    vstd::arithmetic::div_mod::lemma_mod_bound(capacity, queue_count);
    if visits > 0 {
        lemma_quota_total(queue_count, capacity, start, (visits - 1) as nat);
        assert(slots.take(visits as int).drop_last() =~= slots.take(visits - 1));
        let base = capacity / queue_count;
        assert(visits * base == (visits - 1) * base + base) by (nonlinear_arith);
    } else {
        assert(visits * (capacity / queue_count) == 0) by (nonlinear_arith)
            requires
                visits == 0,
        ;
    }
}

/// Two visits of one wave go to different queues.
proof fn lemma_offsets_differ(queue_count: int, start: int, i: int, j: int)
    requires
        queue_count > 0,
        0 <= i < queue_count,
        0 <= j < queue_count,
        i != j,
    ensures
        (start + i) % queue_count != (start + j) % queue_count,
{
    if (start + i) % queue_count == (start + j) % queue_count {
        vstd::arithmetic::div_mod::lemma_fundamental_div_mod(start + i, queue_count);
        vstd::arithmetic::div_mod::lemma_fundamental_div_mod(start + j, queue_count);
        let a = (start + i) / queue_count;
        let b = (start + j) / queue_count;
        assert(i - j == queue_count * (a - b)) by (nonlinear_arith)
            requires
                start + i == queue_count * a + (start + i) % queue_count,
                start + j == queue_count * b + (start + j) % queue_count,
                (start + i) % queue_count == (start + j) % queue_count,
        ;
        assert(a == b) by (nonlinear_arith)
            requires
                i - j == queue_count * (a - b),
                -queue_count < i - j < queue_count,
                queue_count > 0,
        ;
    }
}

/// The offset of a queue from the start of a wave leads to that queue.
proof fn lemma_offset_reaches_queue(queue_count: int, start: int, queue: int)
    requires
        0 <= queue < queue_count,
    ensures
        0 <= (queue - start) % queue_count < queue_count,
        (start + (queue - start) % queue_count) % queue_count == queue,
{
    let offset = (queue - start) % queue_count;
    vstd::arithmetic::div_mod::lemma_mod_bound(queue - start, queue_count);
    vstd::arithmetic::div_mod::lemma_fundamental_div_mod(queue - start, queue_count);
    let turns = (queue - start) / queue_count;
    assert(start + offset == queue_count * (-turns) + queue) by (nonlinear_arith)
        requires
            queue - start == queue_count * turns + offset,
    ;
    vstd::arithmetic::div_mod::lemma_fundamental_div_mod_converse(
        start + offset,
        queue_count,
        -turns,
        queue,
    );
}

/// Closed form of `quota_of_queue`.
proof fn lemma_quota_of_queue(queue_count: int, capacity: int, start: int, queue: int)
    requires
        0 <= queue < queue_count,
        capacity >= 0,
    ensures
        quota_of_queue(queue_count, capacity, start, queue) == capacity / queue_count + (if (queue
            - start) % queue_count < capacity % queue_count {
            1int
        } else {
            0
        }),
{
    vstd::arithmetic::div_mod::lemma_mod_bound(queue - start, queue_count);
    if capacity < queue_count {
        vstd::arithmetic::div_mod::lemma_small_mod(capacity as nat, queue_count as nat);
        vstd::arithmetic::div_mod::lemma_basic_div(capacity, queue_count);
    }
}

/// The rotation after some waves, up to whole turns.
proof fn lemma_rotation_congruent(queue_count: int, capacity: int, start: int, waves: nat)
    requires
        queue_count > 0,
    ensures
        rotation_after_waves(queue_count, capacity, start, waves) % queue_count == (start + waves
            * rotation_advance(queue_count, capacity)) % queue_count,
    decreases waves,
{
    let advance = rotation_advance(queue_count, capacity);
    if waves == 0 {
        assert(waves * advance == 0) by (nonlinear_arith)
            requires
                waves == 0,
        ;
    } else {
        let before = (waves - 1) as nat;
        let rotation = rotation_after_waves(queue_count, capacity, start, before);
        lemma_rotation_congruent(queue_count, capacity, start, before);
        assert(waves * advance == before * advance + advance) by (nonlinear_arith)
            requires
                before == waves - 1,
        ;
        vstd::arithmetic::div_mod::lemma_add_mod_noop(rotation, advance, queue_count);
        vstd::arithmetic::div_mod::lemma_add_mod_noop(
            start + before * advance,
            advance,
            queue_count,
        );
        vstd::arithmetic::div_mod::lemma_mod_twice(rotation + advance, queue_count);
    }
}

/// Moving the start by something congruent to `shift` moves the offset by `shift`.
proof fn lemma_small_mod_of_difference(
    queue_count: int,
    queue: int,
    start: int,
    rotation: int,
    shift: int,
)
    requires
        queue_count > 0,
        rotation % queue_count == (start + shift) % queue_count,
    ensures
        (queue - rotation) % queue_count == (queue - start - shift) % queue_count,
{
    vstd::arithmetic::div_mod::lemma_sub_mod_noop(queue, rotation, queue_count);
    vstd::arithmetic::div_mod::lemma_sub_mod_noop(queue, start + shift, queue_count);
}

/// Whether a remainder lies below a bound, as a difference of two quotients.
proof fn lemma_indicator(x: int, queue_count: int, bound: int)
    requires
        queue_count > 0,
        0 <= bound < queue_count,
    ensures
        (if x % queue_count < bound {
            1int
        } else {
            0
        }) == x / queue_count - (x - bound) / queue_count,
{
    vstd::arithmetic::div_mod::lemma_fundamental_div_mod(x, queue_count);
    vstd::arithmetic::div_mod::lemma_mod_bound(x, queue_count);
    let turns = x / queue_count;
    let rest = x % queue_count;
    if rest < bound {
        assert(x - bound == queue_count * (turns - 1) + (rest - bound + queue_count))
            by (nonlinear_arith)
            requires
                x == queue_count * turns + rest,
        ;
        vstd::arithmetic::div_mod::lemma_fundamental_div_mod_converse(
            x - bound,
            queue_count,
            turns - 1,
            rest - bound + queue_count,
        );
    } else {
        assert(x - bound == turns * queue_count + (rest - bound)) by (nonlinear_arith)
            requires
                x == queue_count * turns + rest,
        ;
        vstd::arithmetic::div_mod::lemma_fundamental_div_mod_converse(
            x - bound,
            queue_count,
            turns,
            rest - bound,
        );
    }
}

/// Adding whole turns adds them to the quotient.
proof fn lemma_div_shift(x: int, queue_count: int, turns: int)
    requires
        queue_count > 0,
    ensures
        (x + queue_count * turns) / queue_count == x / queue_count + turns,
{
    vstd::arithmetic::div_mod::lemma_fundamental_div_mod(x, queue_count);
    vstd::arithmetic::div_mod::lemma_mod_bound(x, queue_count);
    assert(x + queue_count * turns == queue_count * (x / queue_count + turns) + x % queue_count)
        by (nonlinear_arith)
        requires
            x == queue_count * (x / queue_count) + x % queue_count,
    ;
    vstd::arithmetic::div_mod::lemma_fundamental_div_mod_converse(
        x + queue_count * turns,
        queue_count,
        x / queue_count + turns,
        x % queue_count,
    );
}

/// Waves too small to visit every queue: the slots of one queue telescope.
proof fn lemma_slots_of_small_waves(
    queue_count: int,
    capacity: int,
    start: int,
    queue: int,
    waves: nat,
)
    requires
        0 <= queue < queue_count,
        0 <= capacity < queue_count,
    ensures
        slots_over_waves(queue_count, capacity, start, queue, waves) == (queue - start)
            / queue_count - (queue - start - waves * capacity) / queue_count,
    decreases waves,
{
    if waves == 0 {
        assert(waves * capacity == 0) by (nonlinear_arith)
            requires
                waves == 0,
        ;
    } else {
        let before = (waves - 1) as nat;
        let rotation = rotation_after_waves(queue_count, capacity, start, before);
        lemma_slots_of_small_waves(queue_count, capacity, start, queue, before);
        lemma_quota_of_queue(queue_count, capacity, rotation, queue);
        vstd::arithmetic::div_mod::lemma_small_mod(capacity as nat, queue_count as nat);
        vstd::arithmetic::div_mod::lemma_basic_div(capacity, queue_count);
        lemma_rotation_congruent(queue_count, capacity, start, before);
        lemma_small_mod_of_difference(queue_count, queue, start, rotation, before * capacity);
        lemma_indicator(queue - start - before * capacity, queue_count, capacity);
        assert(waves * capacity == before * capacity + capacity) by (nonlinear_arith)
            requires
                before == waves - 1,
        ;
    }
}

/// Sum of `length` consecutive quotients, going down from `x`.
spec fn div_run(queue_count: int, x: int, length: nat) -> int
    decreases length,
{
    if length == 0 {
        0
    } else {
        div_run(queue_count, x, (length - 1) as nat) + (x - (length - 1)) / queue_count
    }
}

/// Waves that visit every queue: what is left over goes round by one queue a wave.
proof fn lemma_slots_of_large_waves(
    queue_count: int,
    capacity: int,
    start: int,
    queue: int,
    waves: nat,
)
    requires
        0 <= queue < queue_count <= capacity,
    ensures
        slots_over_waves(queue_count, capacity, start, queue, waves) == waves * (capacity
            / queue_count) + div_run(queue_count, queue - start, waves) - div_run(
            queue_count,
            queue - start - capacity % queue_count,
            waves,
        ),
    decreases waves,
{
    let base = capacity / queue_count;
    let remainder = capacity % queue_count;
    vstd::arithmetic::div_mod::lemma_mod_bound(capacity, queue_count);
    if waves == 0 {
        assert(waves * base == 0) by (nonlinear_arith)
            requires
                waves == 0,
        ;
    } else {
        let before = (waves - 1) as nat;
        let rotation = rotation_after_waves(queue_count, capacity, start, before);
        lemma_slots_of_large_waves(queue_count, capacity, start, queue, before);
        lemma_quota_of_queue(queue_count, capacity, rotation, queue);
        lemma_rotation_congruent(queue_count, capacity, start, before);
        let advance = rotation_advance(queue_count, capacity);
        assert(before * advance == before) by (nonlinear_arith)
            requires
                advance == 1,
        ;
        lemma_small_mod_of_difference(queue_count, queue, start, rotation, before as int);
        lemma_indicator(queue - start - before, queue_count, remainder);
        assert(waves * base == before * base + base) by (nonlinear_arith)
            requires
                before == waves - 1,
        ;
    }
}

/// A run as long as there are queues, moved down by one, loses exactly one.
proof fn lemma_div_run_step(queue_count: int, x: int, length: nat)
    requires
        queue_count > 0,
    ensures
        div_run(queue_count, x, length) - div_run(queue_count, x - 1, length) == x / queue_count - (
        x - length) / queue_count,
    decreases length,
{
    if length > 0 {
        lemma_div_run_step(queue_count, x, (length - 1) as nat);
    }
}

proof fn lemma_div_run_shift(queue_count: int, x: int, shift: nat)
    requires
        queue_count > 0,
    ensures
        div_run(queue_count, x, queue_count as nat) - div_run(
            queue_count,
            x - shift,
            queue_count as nat,
        ) == shift,
    decreases shift,
{
    if shift > 0 {
        lemma_div_run_shift(queue_count, x, (shift - 1) as nat);
        let y = x - (shift - 1);
        lemma_div_run_step(queue_count, y, queue_count as nat);
        lemma_div_shift(y, queue_count, -1);
        assert(y + queue_count * (-1) == y - queue_count);
    }
}

} // verus!
