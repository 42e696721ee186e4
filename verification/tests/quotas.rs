use graphile_worker::quotas::{allocate_quotas, next_rotation};

#[test]
fn small_capacity_rotates_across_queues() {
    assert_eq!(allocate_quotas(3, 2, 0), vec![(0, 1), (1, 1)]);
    assert_eq!(next_rotation(3, 2, 0), 2);
    assert_eq!(allocate_quotas(3, 2, 2), vec![(2, 1), (0, 1)]);
}

#[test]
fn remainder_slot_rotates_without_redistribution() {
    assert_eq!(allocate_quotas(3, 5, 0), vec![(0, 2), (1, 2), (2, 1)]);
    assert_eq!(allocate_quotas(3, 5, 1), vec![(1, 2), (2, 2), (0, 1)]);
}

#[test]
fn quotas_add_up_to_the_capacity() {
    for queue_count in 1..8usize {
        for capacity in 0..20usize {
            for start in 0..queue_count {
                let slots = allocate_quotas(queue_count, capacity, start);
                let total: usize = slots.iter().map(|slot| slot.1).sum();
                assert_eq!(total, capacity);
            }
        }
    }
}

#[test]
fn quotas_of_one_wave_differ_by_at_most_one() {
    let slots = allocate_quotas(4, 11, 2);
    assert_eq!(slots, vec![(2, 3), (3, 3), (0, 3), (1, 2)]);
}

#[test]
fn a_full_turn_gives_every_queue_the_same() {
    for capacity in 1..12usize {
        let mut rotation = 1;
        let mut slots_of = vec![0usize; 5];
        for _ in 0..5 {
            for (queue, quota) in allocate_quotas(5, capacity, rotation) {
                slots_of[queue] += quota;
            }
            rotation = next_rotation(5, capacity, rotation);
        }
        assert_eq!(slots_of, vec![capacity; 5]);
    }
}

#[test]
fn small_waves_reach_every_queue() {
    let mut rotation = 0;
    let mut visited = Vec::new();
    for _ in 0..3 {
        visited.extend(allocate_quotas(6, 2, rotation).into_iter().map(|slot| slot.0));
        rotation = next_rotation(6, 2, rotation);
    }
    assert_eq!(visited, vec![0, 1, 2, 3, 4, 5]);
}

#[test]
fn a_wave_without_capacity_visits_nothing_and_stays_where_it_is() {
    assert_eq!(allocate_quotas(3, 0, 1), vec![]);
    assert_eq!(next_rotation(3, 0, 1), 1);
}

#[test]
fn a_large_wave_moves_the_rotation_by_one() {
    assert_eq!(next_rotation(3, 3, 0), 1);
    assert_eq!(next_rotation(3, 100, 2), 0);
}
