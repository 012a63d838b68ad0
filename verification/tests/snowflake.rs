//! Tests of the snowflake identifier generator.

use forum::utils::snowflake::Snowflake;
use forum::utils::snowflake::SnowflakeBuilder;
use forum::utils::snowflake::EPOCH;

#[test]
fn build_packs_the_four_fields() {
    let mut b = SnowflakeBuilder::new(0, 1, 1);
    // first call: the millisecond bucket (1) differs from the initial
    // bucket (0), so the sequence resets to zero
    let id = b.build(1);
    assert_eq!(id, Snowflake((1 << 22) | (1 << 17) | (1 << 12)));
}

#[test]
fn sequence_increments_within_a_millisecond() {
    let mut b = SnowflakeBuilder::new(0, 0, 0);
    let first = b.build(5);
    let second = b.build(5);
    let third = b.build(5);
    assert_eq!(second.0, first.0 + 1);
    assert_eq!(third.0, first.0 + 2);
}

#[test]
fn sequence_resets_on_a_new_millisecond() {
    let mut b = SnowflakeBuilder::new(0, 0, 0);
    let _ = b.build(5);
    let _ = b.build(5);
    let next = b.build(6);
    assert_eq!(next.0, 6 << 22);
}

#[test]
fn sequential_ids_strictly_increase() {
    let mut b = SnowflakeBuilder::new(EPOCH, 3, 7);
    let mut now = EPOCH + 1_000;
    let mut last = b.build(now);
    for i in 0..500 {
        if i % 3 == 0 {
            now += 1;
        }
        let id = b.build(now);
        assert!(id.0 > last.0, "ids must strictly increase");
        last = id;
    }
}

#[test]
fn timestamp_component_never_decreases() {
    let mut b = SnowflakeBuilder::new(EPOCH, 3, 7);
    let mut now = EPOCH;
    let mut last_ts = b.build(now).0 >> 22;
    for i in 0..200 {
        if i % 2 == 0 {
            now += 10;
        }
        let ts = b.build(now).0 >> 22;
        assert!(ts >= last_ts);
        assert_eq!(ts as u64, now - EPOCH);
        last_ts = ts;
    }
}

#[test]
fn distinct_workers_never_collide() {
    let mut a = SnowflakeBuilder::new(EPOCH, 1, 4);
    let mut b = SnowflakeBuilder::new(EPOCH, 2, 4);
    let now = EPOCH + 12345;
    for _ in 0..100 {
        let ia = a.build(now);
        let ib = b.build(now);
        assert_ne!(ia, ib);
    }
}

#[test]
fn sequence_wraps_modulo_4096() {
    let mut b = SnowflakeBuilder::new(0, 0, 0);
    let first = b.build(9);
    let mut last = first;
    for _ in 0..4095 {
        last = b.build(9);
    }
    // 4096 calls in one millisecond: the counter has wrapped to its start
    let wrapped = b.build(9);
    assert_eq!(wrapped, first);
    assert!(last.0 > first.0);
}
