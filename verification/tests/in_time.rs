use bi5::{compare_in_time, zero_timestamp, Timestamp};
use std::cmp::Ordering;

fn at(year: i32, month: u32, day: u32, hour: u32, minute: u32, second: u32, nanosecond: u32) -> Timestamp {
    Timestamp { year, month, day, hour, minute, second, nanosecond }
}

#[test]
fn comparison_follows_time() {
    let all = [
        at(-1, 12, 31, 23, 59, 59, 0),
        zero_timestamp(),
        at(2020, 1, 15, 7, 0, 0, 0),
        at(2020, 1, 15, 7, 0, 0, 1),
        at(2020, 1, 15, 7, 0, 1, 0),
        at(2020, 1, 15, 7, 1, 0, 0),
        at(2020, 1, 15, 8, 0, 0, 0),
        at(2020, 1, 16, 0, 0, 0, 0),
        at(2020, 2, 1, 0, 0, 0, 0),
        at(2021, 1, 1, 0, 0, 0, 0),
    ];
    for i in 0..all.len() {
        for j in 0..all.len() {
            let expected = if i < j {
                Ordering::Less
            } else if i > j {
                Ordering::Greater
            } else {
                Ordering::Equal
            };
            assert_eq!(compare_in_time(&all[i], &all[j]), expected);
            assert_eq!(all[i].cmp(&all[j]), expected);
        }
    }
}

#[test]
fn comparison_sorts_a_list() {
    let mut list = vec![
        at(2020, 1, 15, 8, 0, 0, 0),
        zero_timestamp(),
        at(2021, 1, 1, 0, 0, 0, 0),
        at(2020, 1, 15, 7, 0, 0, 0),
        zero_timestamp(),
    ];
    list.sort_by(compare_in_time);
    assert_eq!(
        list,
        vec![
            zero_timestamp(),
            zero_timestamp(),
            at(2020, 1, 15, 7, 0, 0, 0),
            at(2020, 1, 15, 8, 0, 0, 0),
            at(2021, 1, 1, 0, 0, 0, 0),
        ]
    );
}
