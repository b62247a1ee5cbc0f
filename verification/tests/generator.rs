use snowflake::clock::{millis_to_timestamp, now_millis};
use snowflake::generator::settle_wait;
use snowflake::{Attempt, ClockFault, Snowflake};

const EPOCH: i64 = 1646875384850;

fn minted(attempt: Attempt) -> u64 {
    match attempt {
        Attempt::Minted(id) => id,
        other => panic!("no identifier: {:?}", other),
    }
}

#[test]
fn test_generate_id() {
    let mut snowflake = Snowflake::new(1, 1, 0).build().unwrap();
    println!("{}", snowflake.generate_id().unwrap());
}

#[test]
fn first_id_packs_the_four_fields() {
    let mut g = Snowflake::new(1, 1, 0).build().unwrap();
    assert_eq!(g.generate_id_at(EPOCH + 1), Attempt::Minted(4329472));
    let mut h = Snowflake::new(31, 30, 0).build().unwrap();
    assert_eq!(
        h.generate_id_at(EPOCH + 1000),
        Attempt::Minted((1000 << 22) | (31 << 17) | (30 << 12))
    );
}

#[test]
fn ids_in_one_millisecond_count_up_by_one() {
    let mut g = Snowflake::new(3, 7, 0).build().unwrap();
    let t = EPOCH + 123456;
    let first = minted(g.generate_id_at(t));
    assert_eq!(first & 4095, 0);
    let mut previous = first;
    for k in 1..4096u64 {
        let id = minted(g.generate_id_at(t));
        assert_eq!(id, previous + 1);
        assert_eq!(id & 4095, k);
        assert_eq!(id >> 12, first >> 12);
        previous = id;
    }
}

#[test]
fn exhausted_millisecond_mints_nothing_until_the_clock_moves() {
    let mut g = Snowflake::new(1, 2, 0).with_sequence_bits(2).with_epoch(0).build().unwrap();
    let shift = 12;
    let mut last = 0;
    for k in 0..4u64 {
        last = minted(g.generate_id_at(50));
        assert_eq!(last & 3, k);
    }
    assert_eq!(g.generate_id_at(50), Attempt::Exhausted);
    assert_eq!(g.generate_id_at(50), Attempt::Exhausted);
    let next = minted(g.generate_id_at(51));
    assert_eq!(next & 3, 0);
    assert_eq!(next >> shift, 51);
    assert!(next >> shift > last >> shift);
    assert!(next > last);
}

#[test]
fn later_millisecond_starts_again_at_zero() {
    let mut g = Snowflake::new(1, 1, 0).build().unwrap();
    let a = minted(g.generate_id_at(EPOCH + 10));
    let b = minted(g.generate_id_at(EPOCH + 10));
    let c = minted(g.generate_id_at(EPOCH + 11));
    assert_eq!(a & 4095, 0);
    assert_eq!(b & 4095, 1);
    assert_eq!(c & 4095, 0);
    assert_eq!(c >> 22, 11);
}

#[test]
fn ids_increase_under_a_clock_that_does_not_run_backwards() {
    let mut g = Snowflake::new(2, 5, 0).with_sequence_bits(3).build().unwrap();
    let readings = [5i64, 5, 5, 6, 6, 9, 9, 9, 9, 9, 9, 9, 9, 9, 10, 4000, 4000];
    let mut ids: Vec<u64> = Vec::new();
    for r in readings {
        if let Attempt::Minted(id) = g.generate_id_at(EPOCH + r) {
            ids.push(id);
        }
    }
    assert_eq!(ids.len(), 16);
    for pair in ids.windows(2) {
        assert!(pair[0] < pair[1]);
    }
}

#[test]
fn fields_decode_through_shift_and_mask() {
    let mut g = Snowflake::new(21, 13, 0).build().unwrap();
    let t = EPOCH + 987654321;
    let _ = g.generate_id_at(t);
    let _ = g.generate_id_at(t);
    let id = minted(g.generate_id_at(t));
    assert_eq!(id & 4095, 2);
    assert_eq!((id >> 12) & 31, 13);
    assert_eq!((id >> 17) & 31, 21);
    assert_eq!(id >> 22, 987654321);
    assert_eq!(id >> 63, 0);
}

#[test]
fn clock_running_backwards_is_refused_and_changes_nothing() {
    let mut g = Snowflake::new(1, 1, 0).build().unwrap();
    let first = minted(g.generate_id_at(EPOCH + 100));
    assert_eq!(g.generate_id_at(EPOCH + 99), Attempt::ClockRegressed);
    assert_eq!(g.generate_id_at(i64::MIN), Attempt::ClockRegressed);
    assert_eq!(g.generate_id_at(EPOCH + 100), Attempt::Minted(first + 1));
}

#[test]
fn a_fresh_generator_refuses_readings_before_minus_one() {
    let mut g = Snowflake::new(1, 1, 0).build().unwrap();
    assert_eq!(g.generate_id_at(-2), Attempt::ClockRegressed);
}

#[test]
fn same_assignment_gives_the_same_ids() {
    let mut a = Snowflake::new(4, 9, 0).build().unwrap();
    let mut b = Snowflake::new(4, 9, 0).build().unwrap();
    for r in [1i64, 1, 1, 2, 7, 7] {
        let x = a.generate_id_at(EPOCH + r);
        assert_eq!(x, b.generate_id_at(EPOCH + r));
        assert!(matches!(x, Attempt::Minted(_)));
    }
    let mut c = Snowflake::new(4, 10, 0).build().unwrap();
    assert_ne!(a.generate_id_at(EPOCH + 8), c.generate_id_at(EPOCH + 8));
}

#[test]
fn starting_sequence_is_dropped_by_the_first_later_millisecond() {
    let mut g = Snowflake::new(1, 1, 77).build().unwrap();
    assert_eq!(minted(g.generate_id_at(EPOCH)) & 4095, 0);
}

#[test]
fn starting_sequence_out_of_range_is_masked_in_its_own_millisecond() {
    let mut g = Snowflake::new(0, 0, 5000).with_epoch(-1).build().unwrap();
    assert_eq!(g.generate_id_at(-1), Attempt::Minted(905));
    assert_eq!(g.generate_id_at(-1), Attempt::Minted(906));
    let mut h = Snowflake::new(0, 0, 4095).with_epoch(-1).build().unwrap();
    assert_eq!(h.generate_id_at(-1), Attempt::Exhausted);
    assert_eq!(h.generate_id_at(0), Attempt::Minted(1 << 22));
    let mut k = Snowflake::new(0, 0, u64::MAX).with_epoch(-1).build().unwrap();
    assert_eq!(k.generate_id_at(-1), Attempt::Exhausted);
}

#[test]
fn timestamp_before_the_epoch_wraps_in_the_word() {
    let mut g = Snowflake::new(0, 0, 0).with_epoch(10).build().unwrap();
    assert_eq!(g.generate_id_at(9), Attempt::Minted(u64::MAX << 22));
}

#[test]
fn fields_wider_than_the_word_are_shifted_out() {
    let mut g = Snowflake::new(1, 1, 0)
        .with_epoch(0)
        .with_sequence_bits(60)
        .with_worker_id_bits(4)
        .with_datacenter_id_bits(4)
        .build()
        .unwrap();
    assert_eq!(g.generate_id_at(3), Attempt::Minted(1 << 60));
    assert_eq!(g.generate_id_at(3), Attempt::Minted((1 << 60) | 1));
}

#[test]
fn wall_clock_ids_are_distinct_and_increasing() {
    let mut g = Snowflake::new(1, 1, 0).build().unwrap();
    let mut previous = g.generate_id().unwrap();
    for _ in 0..20000 {
        let id = g.generate_id().unwrap();
        assert!(id > previous);
        assert_eq!((id >> 12) & 31, 1);
        assert_eq!((id >> 17) & 31, 1);
        previous = id;
    }
}

#[test]
fn wall_clock_id_carries_the_current_time() {
    let before = now_millis().unwrap();
    let mut g = Snowflake::new(0, 0, 0).with_epoch(0).build().unwrap();
    let id = g.generate_id().unwrap();
    let after = now_millis().unwrap();
    let stamped = (id >> 22) as i64;
    assert!(before <= stamped && stamped <= after);
    assert!(before > 1646875384850);
}

#[test]
fn wall_clock_behind_the_last_id_is_a_fault() {
    let mut g = Snowflake::new(1, 1, 0).build().unwrap();
    let _ = g.generate_id_at(i64::MAX);
    assert_eq!(g.generate_id(), Err(ClockFault::MovedBackwards));
    assert_eq!(g.generate_id_at(i64::MAX), Attempt::Minted(((i64::MAX - 1646875384850) as u64) << 22 | (1 << 17) | (1 << 12) | 1));
}

#[test]
fn milliseconds_become_a_timestamp_as_they_are_while_they_fit() {
    assert_eq!(millis_to_timestamp(0), 0);
    assert_eq!(millis_to_timestamp(1646875384850), 1646875384850);
    assert_eq!(millis_to_timestamp(i64::MAX as u128), i64::MAX);
}

#[test]
fn milliseconds_past_the_word_keep_their_low_bits() {
    assert_eq!(millis_to_timestamp(1u128 << 63), i64::MIN);
    assert_eq!(millis_to_timestamp((1u128 << 64) + 5), 5);
    assert_eq!(millis_to_timestamp(u128::MAX), -1);
}

#[test]
fn only_a_later_reading_ends_the_wait() {
    assert_eq!(settle_wait(Some(11), 10), Some(Ok(11)));
    assert_eq!(settle_wait(Some(i64::MAX), -1), Some(Ok(i64::MAX)));
    assert_eq!(settle_wait(Some(10), 10), None);
    assert_eq!(settle_wait(Some(9), 10), None);
    assert_eq!(settle_wait(Some(i64::MIN), i64::MAX), None);
    assert_eq!(settle_wait(None, 10), Some(Err(ClockFault::BeforeUnixEpoch)));
}
