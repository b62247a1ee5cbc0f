use snowflake::bits::{add_widths, bits_needed, max_for_bits, shift_left};
use snowflake::{Attempt, Snowflake, SnowflakeError};

const EPOCH: i64 = 1646875384850;

#[test]
fn test_generate_id_with_builder() {
    assert_eq!(
        Snowflake::new(0, 255, 0).build().unwrap_err().to_string(),
        format!("worker_id (255) out of range (31), recommend using 8 bits")
    );
    assert_eq!(
        Snowflake::new(256, 0, 0).build().unwrap_err().to_string(),
        format!("datacenter_id (256) out of range (31), recommend using 9 bits")
    );
}

#[test]
fn worker_id_out_of_range_carries_given_max_and_width() {
    match Snowflake::new(0, 255, 0).build() {
        Err(SnowflakeError::WorkerIDOutOfRange(e)) => assert_eq!(e, (255, 31, 8)),
        other => panic!("unexpected {:?}", other),
    }
}

#[test]
fn datacenter_id_out_of_range_carries_given_max_and_width() {
    match Snowflake::new(256, 0, 0).build() {
        Err(SnowflakeError::DatacenterIDOutOfRange(e)) => assert_eq!(e, (256, 31, 9)),
        other => panic!("unexpected {:?}", other),
    }
}

#[test]
fn datacenter_id_is_checked_before_worker_id() {
    match Snowflake::new(32, 32, 0).build() {
        Err(SnowflakeError::DatacenterIDOutOfRange(e)) => assert_eq!(e, (32, 31, 6)),
        other => panic!("unexpected {:?}", other),
    }
}

#[test]
fn largest_ids_of_the_default_widths_are_accepted() {
    assert!(Snowflake::new(31, 31, 0).build().is_ok());
    assert!(Snowflake::new(32, 31, 0).build().is_err());
    assert!(Snowflake::new(31, 32, 0).build().is_err());
}

#[test]
fn widths_set_later_are_the_ones_checked() {
    assert!(Snowflake::new(0, 255, 0).with_worker_id_bits(8).build().is_ok());
    assert!(Snowflake::new(256, 0, 0).with_datacenter_id_bits(9).build().is_ok());
    assert_eq!(
        Snowflake::new(0, 256, 0).with_worker_id_bits(8).build().unwrap_err().to_string(),
        "worker_id (256) out of range (255), recommend using 9 bits"
    );
    assert_eq!(
        Snowflake::new(5, 0, 0).with_datacenter_id_bits(2).build().unwrap_err().to_string(),
        "datacenter_id (5) out of range (3), recommend using 3 bits"
    );
}

#[test]
fn a_field_of_no_bits_holds_only_zero() {
    assert!(Snowflake::new(0, 0, 0).with_datacenter_id_bits(0).with_worker_id_bits(0).build().is_ok());
    assert_eq!(
        Snowflake::new(1, 0, 0).with_datacenter_id_bits(0).build().unwrap_err().to_string(),
        "datacenter_id (1) out of range (0), recommend using 1 bits"
    );
}

#[test]
fn a_field_of_the_whole_word_holds_every_id() {
    assert!(Snowflake::new(u64::MAX, 0, 0).with_datacenter_id_bits(64).build().is_ok());
    assert!(Snowflake::new(0, u64::MAX, 0).with_worker_id_bits(u64::MAX).build().is_ok());
    assert_eq!(
        Snowflake::new(u64::MAX, 0, 0).build().unwrap_err().to_string(),
        "datacenter_id (18446744073709551615) out of range (31), recommend using 64 bits"
    );
    assert_eq!(
        Snowflake::new(0, 1 << 63, 0).with_worker_id_bits(63).build().unwrap_err().to_string(),
        "worker_id (9223372036854775808) out of range (9223372036854775807), recommend using 64 bits"
    );
}

#[test]
fn shifts_follow_the_widths_set_before_build() {
    let mut g = Snowflake::new(3, 2, 0)
        .with_epoch(0)
        .with_sequence_bits(4)
        .with_worker_id_bits(3)
        .with_datacenter_id_bits(2)
        .build()
        .unwrap();
    assert_eq!(g.generate_id_at(1), Attempt::Minted((1 << 9) | (3 << 7) | (2 << 4)));
    assert_eq!(g.generate_id_at(1), Attempt::Minted((1 << 9) | (3 << 7) | (2 << 4) | 1));
}

#[test]
fn epoch_is_subtracted_from_the_timestamp() {
    let mut g = Snowflake::new(0, 0, 0).with_epoch(1000).build().unwrap();
    assert_eq!(g.generate_id_at(1005), Attempt::Minted(5 << 22));
    let mut h = Snowflake::new(0, 0, 0).build().unwrap();
    assert_eq!(h.generate_id_at(EPOCH + 7), Attempt::Minted(7 << 22));
}

#[test]
fn builder_is_a_value_that_can_be_built_from_twice() {
    let base = Snowflake::new(1, 1, 0);
    let wide = base.with_worker_id_bits(8);
    assert!(base.build().is_ok());
    assert!(wide.build().is_ok());
    let mut a = base.build().unwrap();
    let mut b = wide.build().unwrap();
    assert_eq!(a.generate_id_at(EPOCH), Attempt::Minted((1 << 17) | (1 << 12)));
    assert_eq!(b.generate_id_at(EPOCH), Attempt::Minted((1 << 20) | (1 << 12)));
}

#[test]
fn field_masks() {
    assert_eq!(max_for_bits(0), 0);
    assert_eq!(max_for_bits(5), 31);
    assert_eq!(max_for_bits(12), 4095);
    assert_eq!(max_for_bits(63), u64::MAX >> 1);
    assert_eq!(max_for_bits(64), u64::MAX);
    assert_eq!(max_for_bits(200), u64::MAX);
}

#[test]
fn shifts_past_the_word_leave_nothing() {
    assert_eq!(shift_left(1, 0), 1);
    assert_eq!(shift_left(3, 62), 3 << 62);
    assert_eq!(shift_left(3, 63), 1 << 63);
    assert_eq!(shift_left(u64::MAX, 64), 0);
    assert_eq!(shift_left(1, u64::MAX), 0);
}

#[test]
fn widths_add_up_to_at_most_the_word() {
    assert_eq!(add_widths(12, 5), 17);
    assert_eq!(add_widths(0, 0), 0);
    assert_eq!(add_widths(60, 3), 63);
    assert_eq!(add_widths(60, 4), 64);
    assert_eq!(add_widths(u64::MAX, u64::MAX), 64);
}

#[test]
fn bits_needed_is_the_position_of_the_highest_set_bit() {
    assert_eq!(bits_needed(0), 0);
    assert_eq!(bits_needed(1), 1);
    assert_eq!(bits_needed(255), 8);
    assert_eq!(bits_needed(256), 9);
    assert_eq!(bits_needed(u64::MAX), 64);
}
