use hub::clock::{
    chrono_arguments, millis_measured, seconds_measured, time_from_reading, unix_now,
    unix_now_millis, EpochOffset,
};
use hub::counting::{CountingActor, SampleNumberInput, SampleSchema, CLICK_STEP};
use hub::registry::StringMap;
use hub::text::push_decimal;

fn decimal_string(n: u64) -> String {
    let mut s = String::new();
    push_decimal(&mut s, n);
    s
}
use hub::{MyActor, Sum};

#[test]
fn decimal_numerals() {
    assert_eq!(decimal_string(0), "0");
    assert_eq!(decimal_string(7), "7");
    assert_eq!(decimal_string(10), "10");
    assert_eq!(decimal_string(1234567890), "1234567890");
    assert_eq!(decimal_string(u64::MAX), "18446744073709551615");
    for n in [9u64, 99, 100, 101, 909, 1000, 65535, 4294967296] {
        assert_eq!(decimal_string(n), n.to_string());
    }
}

#[test]
fn decimal_is_appended_to_what_is_there() {
    let mut s = String::from("n=");
    push_decimal(&mut s, 42);
    push_decimal(&mut s, 0);
    assert_eq!(s, "n=420");
}

#[test]
fn my_actor_counts_and_sums() {
    let mut actor = MyActor::new();
    assert_eq!(actor.count, 0);
    assert_eq!(actor.notify(Sum(10, 5)), (15, 1));
    assert_eq!(actor.notify(Sum(0, 0)), (0, 2));
    assert_eq!(actor.count, 2);
}

#[test]
fn counting_actor_steps_by_seven() {
    let mut actor = CountingActor::new();
    assert_eq!(actor.count(), 0);
    let input = SampleNumberInput {
        letter: "a".to_string(),
        dummy_one: 1,
        dummy_two: SampleSchema { sample_field_one: true, sample_field_two: false },
        dummy_three: vec![1],
    };
    let out = actor.notify(&input);
    assert_eq!(out.current_number, 7);
    assert_eq!(out.dummy_one, 11);
    assert_eq!(out.dummy_two, None);
    assert_eq!(out.dummy_three, vec![22, 33, 44, 55]);
    let out = actor.notify(&input);
    assert_eq!(out.current_number, 14);
    assert_eq!(actor.count(), 14);
    assert_eq!(CLICK_STEP, 7);
}

#[test]
fn string_map_keeps_one_value_per_key() {
    let mut map: StringMap<u32> = StringMap::new();
    assert_eq!(map.len(), 0);
    map.insert("a".to_string(), 1);
    map.insert("b".to_string(), 2);
    map.insert("a".to_string(), 3);
    assert_eq!(map.len(), 2);
    assert_eq!(map.get(&"a".to_string()), Some(&3));
    assert_eq!(map.get(&"b".to_string()), Some(&2));
    assert_eq!(map.get(&"c".to_string()), None);
    assert!(map.contains_key(&"b".to_string()));
    assert_eq!(map.position(&"a".to_string()), Some(0));
    assert_eq!(map.position(&"b".to_string()), Some(1));
    assert_eq!(map.key_at(1), "b");
    assert_eq!(*map.value_at(0), 3);
}

#[test]
fn string_map_removes_by_key_and_by_position() {
    let mut map: StringMap<u32> = StringMap::new();
    map.insert("a".to_string(), 1);
    map.insert("b".to_string(), 2);
    map.insert("c".to_string(), 3);
    assert_eq!(map.remove(&"b".to_string()), Some(2));
    assert_eq!(map.remove(&"b".to_string()), None);
    assert_eq!(map.len(), 2);
    assert_eq!(map.key_at(1), "c");
    assert_eq!(map.remove_at(0), ("a".to_string(), 1));
    assert_eq!(map.len(), 1);
    assert_eq!(map.get(&"c".to_string()), Some(&3));
}

const LATEST: u64 = i64::MAX as u64;

#[test]
fn a_count_of_chrono_is_the_time_and_the_epoch_where_it_is_negative() {
    assert_eq!(time_from_reading(5, Some(1_700_000_000)), 1_700_000_000);
    assert_eq!(time_from_reading(5, Some(0)), 0);
    assert_eq!(time_from_reading(5, Some(-1)), 0);
    assert_eq!(time_from_reading(5, Some(i64::MIN)), 0);
    assert_eq!(time_from_reading(5, Some(i64::MAX)), LATEST);
}

#[test]
fn where_chrono_has_no_count_the_time_is_the_measure() {
    assert_eq!(time_from_reading(5, None), 5);
    assert_eq!(time_from_reading(0, None), 0);
    assert_eq!(time_from_reading(1 << 53, None), 1 << 53);
    assert_eq!(time_from_reading(LATEST, None), LATEST);
    assert_eq!(time_from_reading(u64::MAX, None), LATEST);
}

#[test]
fn chrono_is_asked_about_instants_after_the_epoch_only() {
    assert_eq!(chrono_arguments(EpochOffset::After { secs: 7, nanos: 9 }), Some((7, 9)));
    assert_eq!(
        chrono_arguments(EpochOffset::After { secs: LATEST, nanos: 0 }),
        Some((i64::MAX, 0))
    );
    assert_eq!(chrono_arguments(EpochOffset::After { secs: LATEST + 1, nanos: 0 }), None);
    assert_eq!(chrono_arguments(EpochOffset::Before { secs: 7, nanos: 9 }), None);
    assert_eq!(chrono_arguments(EpochOffset::Before { secs: 0, nanos: 1 }), None);
}

#[test]
fn std_measures_seconds_and_milliseconds_from_the_epoch() {
    let at = EpochOffset::After { secs: 12, nanos: 345_678_901 };
    assert_eq!(seconds_measured(at), 12);
    assert_eq!(millis_measured(at), 12_345);
    let early = EpochOffset::Before { secs: 12, nanos: 345_678_901 };
    assert_eq!(seconds_measured(early), 0);
    assert_eq!(millis_measured(early), 0);
    let far = EpochOffset::After { secs: u64::MAX, nanos: 999_999_999 };
    assert_eq!(seconds_measured(far), LATEST);
    assert_eq!(millis_measured(far), LATEST);
    let edge = EpochOffset::After { secs: LATEST / 1000, nanos: 807_000_000 };
    assert_eq!(millis_measured(edge), LATEST);
    let below = EpochOffset::After { secs: LATEST / 1000, nanos: 806_999_999 };
    assert_eq!(millis_measured(below), LATEST - 1);
    let out_of_chrono = EpochOffset::After { secs: 1 << 53, nanos: 0 };
    assert_eq!(seconds_measured(out_of_chrono), 1 << 53);
    assert_eq!(time_from_reading(seconds_measured(out_of_chrono), None), 1 << 53);
}

#[test]
fn the_clock_reads_seconds_and_milliseconds() {
    let seconds = unix_now();
    let millis = unix_now_millis();
    assert!(seconds > 1_577_836_800);
    assert!(millis / 1000 >= seconds);
    assert!(millis / 1000 - seconds < 5);
}
