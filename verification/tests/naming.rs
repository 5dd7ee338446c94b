use today_tmp::backup::rename_to_avoid_collision;
use today_tmp::date::{backup_stamp, today_dir_name, LocalStamp};

fn stamp(year: u32, month: u32, day: u32, hour: u32, minute: u32, second: u32) -> LocalStamp {
    LocalStamp { year, month, day, hour, minute, second }
}

#[test]
fn today_dir_name_fixed_date() {
    let now = stamp(2023, 3, 7, 11, 22, 33);
    assert_eq!(today_dir_name(&now), "2023-03-07");
}

#[test]
fn today_dir_name_pads_every_field() {
    let now = stamp(7, 1, 2, 0, 0, 0);
    assert_eq!(today_dir_name(&now), "0007-01-02");
}

#[test]
fn today_dir_name_widest_date() {
    let now = stamp(9999, 12, 31, 23, 59, 59);
    assert_eq!(today_dir_name(&now), "9999-12-31");
}

#[test]
fn backup_stamp_is_colon_free() {
    let now = stamp(2023, 3, 7, 4, 5, 9);
    assert_eq!(backup_stamp(&now), "2023-03-07T04_05_09");
}

#[test]
fn backup_name_without_collision() {
    let existing: Vec<String> = Vec::new();
    let name = rename_to_avoid_collision("today", "2023-03-07T04_05_09", &existing);
    assert_eq!(name, "today-2023-03-07T04_05_09");
}

#[test]
fn backup_name_ignores_unrelated_entries() {
    let existing = vec![
        String::from("2023-03-07"),
        String::from("today"),
        String::from("today-2023-03-07T04_05_08"),
    ];
    let name = rename_to_avoid_collision("today", "2023-03-07T04_05_09", &existing);
    assert_eq!(name, "today-2023-03-07T04_05_09");
}

#[test]
fn backup_name_first_suffix() {
    let existing = vec![String::from("today-2023-03-07T04_05_09")];
    let name = rename_to_avoid_collision("today", "2023-03-07T04_05_09", &existing);
    assert_eq!(name, "today-2023-03-07T04_05_09-1");
}

#[test]
fn backup_name_suffixes_grow_monotonically() {
    let mut existing: Vec<String> = Vec::new();
    let first = rename_to_avoid_collision("today", "2023-03-07T04_05_09", &existing);
    assert_eq!(first, "today-2023-03-07T04_05_09");
    existing.push(first);
    let second = rename_to_avoid_collision("today", "2023-03-07T04_05_09", &existing);
    assert_eq!(second, "today-2023-03-07T04_05_09-1");
    existing.push(second);
    let third = rename_to_avoid_collision("today", "2023-03-07T04_05_09", &existing);
    assert_eq!(third, "today-2023-03-07T04_05_09-2");
}

#[test]
fn backup_name_fills_smallest_gap() {
    let existing = vec![
        String::from("today-2023-03-07T04_05_09"),
        String::from("today-2023-03-07T04_05_09-1"),
        String::from("today-2023-03-07T04_05_09-3"),
    ];
    let name = rename_to_avoid_collision("today", "2023-03-07T04_05_09", &existing);
    assert_eq!(name, "today-2023-03-07T04_05_09-2");
}

#[test]
fn backup_name_never_among_existing() {
    let mut existing: Vec<String> = Vec::new();
    for _ in 0..5 {
        let name = rename_to_avoid_collision("notes.txt", "2023-03-07T04_05_09", &existing);
        assert!(existing.iter().all(|e| e != &name));
        existing.push(name);
    }
}
