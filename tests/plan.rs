use backedup::{BackupEntry, Config, Period, Plan, SlotConfig};
use chrono::NaiveDate;

fn create_test_data(fmt: &str, start: NaiveDate, days: usize, extension: &str) -> Vec<String> {
    let mut result = Vec::new();
    let fmt = format!("{}{}", fmt, extension);
    let mut day = start;
    for _ in 0..days {
        result.push(day.format(&fmt).to_string());
        day = day.pred_opt().unwrap();
    }
    result
}

fn start() -> NaiveDate {
    NaiveDate::from_ymd_opt(2015, 1, 1).unwrap()
}

fn backups() -> Vec<String> {
    let fmt = "%Y-%m-%d";
    let mut parsed_backups = create_test_data(fmt, start(), 400, "");
    parsed_backups.append(&mut create_test_data(fmt, start(), 30, ".log"));
    parsed_backups
}

fn plan_for(names: &[String], slots: (usize, usize, usize, usize, usize), pattern: &[String]) -> Plan {
    let slot_config = SlotConfig::new(slots.0, slots.1, slots.2, slots.3, slots.4).unwrap();
    let config = Config::new(slot_config, pattern, None).unwrap();
    Plan::from(&config, names)
}

fn names(v: &[&str]) -> Vec<String> {
    v.iter().map(|s| s.to_string()).collect()
}

#[test]
fn test_make_plan() {
    let parsed_backups = backups();

    let plan = plan_for(&parsed_backups, (3, 0, 0, 0, 0), &[]);
    assert_eq!(plan.to_keep.len(), 3);

    let plan = plan_for(&parsed_backups, (3, 13, 0, 0, 0), &[]);
    assert_eq!(plan.to_keep.len(), 14);

    // The newest day of each month and year represents it, so the yearly and
    // monthly picks 2015-01-01 and 2014-12-31 are among the 30 newest days.
    let plan = plan_for(&parsed_backups, (3, 13, 30, 0, 0), &[]);
    assert_eq!(plan.to_keep.len(), 42);

    let plan = plan_for(&parsed_backups, (3, 13, 30, 0, 0), &["*.log".to_string()]);
    assert_eq!(plan.to_keep.len(), 30);
}

#[test]
fn test_custom_regex() {
    let fmt = "%y%m%d";
    let parsed_backups = create_test_data(fmt, start(), 400, "");
    let slot_config = SlotConfig::new(3, 13, 30, 0, 0).unwrap();
    let re_str = r"(?P<year>\d{2})(?P<month>\d{2})(?P<day>\d{2})";
    let config = Config::new(slot_config, &vec![], Some(re_str)).unwrap();
    let plan = Plan::from(&config, &parsed_backups);
    assert_eq!(plan.to_keep.len(), 42);
}

#[test]
fn yearly_picks_newest_file_of_each_year() {
    let plan = plan_for(&backups(), (3, 0, 0, 0, 0), &[]);
    assert_eq!(plan.to_keep, names(&["2015-01-01", "2014-12-31", "2013-12-31"]));
}

#[test]
fn every_valid_name_is_kept_or_removed_once() {
    let all = backups();
    let plan = plan_for(&all, (3, 13, 30, 0, 0), &[]);
    assert_eq!(plan.to_keep.len() + plan.to_remove.len(), all.len());
    for k in &plan.to_keep {
        assert!(!plan.to_remove.contains(k));
    }
}

#[test]
fn tier_without_slots_names_no_file() {
    let plan = plan_for(&backups(), (3, 0, 30, 0, 0), &[]);
    for i in 0..plan.to_keep.len() {
        let periods = plan.periods(i).unwrap();
        assert!(!periods.is_empty());
        assert!(!periods.contains(&Period::Months));
        assert!(!periods.contains(&Period::Hours));
    }
    assert!(plan.periods(plan.to_keep.len()).is_none());
}

#[test]
fn more_slots_keep_a_superset() {
    let all = backups();
    let fewer = plan_for(&all, (3, 13, 0, 0, 0), &[]);
    let more = plan_for(&all, (3, 13, 30, 0, 0), &[]);
    for k in &fewer.to_keep {
        assert!(more.to_keep.contains(k));
    }
    assert!(more.to_keep.len() > fewer.to_keep.len());
}

#[test]
fn rejected_names_are_left_alone() {
    let all = names(&["2020-01-02.log", "2020-01-03.txt", "notes.log", "2020-01-01.log"]);
    let plan = plan_for(&all, (0, 0, 1, 0, 0), &["*.log".to_string()]);
    assert_eq!(plan.to_keep, names(&["2020-01-02.log"]));
    assert_eq!(plan.to_remove, names(&["2020-01-01.log"]));
}

#[test]
fn planning_twice_gives_the_same_plan() {
    let all = backups();
    let a = plan_for(&all, (3, 13, 30, 0, 0), &[]);
    let b = plan_for(&all, (3, 13, 30, 0, 0), &[]);
    assert_eq!(a.to_keep, b.to_keep);
    assert_eq!(a.to_remove, b.to_remove);
    for i in 0..a.to_keep.len() {
        assert_eq!(a.periods(i), b.periods(i));
    }
}

#[test]
fn newest_file_of_a_month_represents_it() {
    let all = names(&["2020-05-01", "2020-05-31", "2020-04-15", "2020-05-20"]);
    let plan = plan_for(&all, (0, 1, 0, 0, 0), &[]);
    assert_eq!(plan.to_keep, names(&["2020-05-31"]));
    assert_eq!(plan.to_remove, names(&["2020-05-01", "2020-04-15", "2020-05-20"]));
    assert_eq!(plan.periods(0).unwrap(), &vec![Period::Months]);
}

#[test]
fn equal_timestamps_keep_the_first_name() {
    let all = names(&["2020-05-01", "2020-05-01.bak"]);
    let plan = plan_for(&all, (1, 1, 1, 1, 1), &[]);
    assert_eq!(plan.to_keep, names(&["2020-05-01"]));
    assert_eq!(plan.to_remove, names(&["2020-05-01.bak"]));
    assert_eq!(
        plan.periods(0).unwrap(),
        &vec![Period::Years, Period::Months, Period::Days, Period::Hours, Period::Minutes]
    );
}

#[test]
fn hours_and_minutes_split_buckets() {
    let all = names(&["2020-05-01_10-30", "2020-05-01_10-45", "2020-05-01_09-59"]);
    let plan = plan_for(&all, (0, 0, 0, 2, 0), &[]);
    assert_eq!(plan.to_keep, names(&["2020-05-01_10-45", "2020-05-01_09-59"]));
    let plan = plan_for(&all, (0, 0, 0, 0, 2), &[]);
    assert_eq!(plan.to_keep, names(&["2020-05-01_10-30", "2020-05-01_10-45"]));
}

#[test]
fn month_thirteen_sorts_after_december() {
    let all = names(&["2020-13-01", "2020-12-31"]);
    let plan = plan_for(&all, (0, 1, 0, 0, 0), &[]);
    assert_eq!(plan.to_keep, names(&["2020-13-01"]));
}

#[test]
fn slots_beyond_the_buckets_keep_everything() {
    let all = names(&["2020-01-01", "2021-01-01"]);
    let plan = plan_for(&all, (usize::MAX, 0, 0, 0, 0), &[]);
    assert_eq!(plan.to_keep, names(&["2020-01-01", "2021-01-01"]));
    assert!(plan.to_remove.is_empty());
}

#[test]
fn empty_input_gives_empty_plan() {
    let plan = plan_for(&[], (1, 1, 1, 1, 1), &[]);
    assert!(plan.to_keep.is_empty());
    assert!(plan.to_remove.is_empty());
}

#[test]
fn plan_from_entries_uses_given_timestamps() {
    let entries = vec![
        BackupEntry { year: 2001, month: 1, day: 1, hour: 0, minute: 0, path: "a".to_string() },
        BackupEntry { year: 2001, month: 2, day: 1, hour: 0, minute: 0, path: "b".to_string() },
        BackupEntry { year: 2000, month: 12, day: 31, hour: 23, minute: 59, path: "c".to_string() },
    ];
    let slots = SlotConfig::new(2, 0, 0, 0, 0).unwrap();
    let plan = Plan::from_entries(&entries, &slots);
    assert_eq!(plan.to_keep, names(&["b", "c"]));
    assert_eq!(plan.to_remove, names(&["a"]));
}

#[test]
fn recorded_directory_is_returned() {
    let mut plan = plan_for(&names(&["2020-01-01"]), (1, 0, 0, 0, 0), &[]);
    assert_eq!(plan.dir(), None);
    plan.set_dir("/backups");
    assert_eq!(plan.dir(), Some("/backups"));
    assert_eq!(plan.to_keep, names(&["2020-01-01"]));
}
