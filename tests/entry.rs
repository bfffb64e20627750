use backedup::{name_passes, parse_number, BackupEntry, Grammar, Period, DEFAULT_GRAMMAR};

fn default_grammar() -> Grammar {
    Grammar::new(DEFAULT_GRAMMAR).unwrap()
}

#[test]
fn numbers_read_like_str_parse() {
    assert_eq!(parse_number("12", 255), Some(12));
    assert_eq!(parse_number("+12", 255), Some(12));
    assert_eq!(parse_number("007", 255), Some(7));
    assert_eq!(parse_number("255", 255), Some(255));
    assert_eq!(parse_number("256", 255), None);
    assert_eq!(parse_number("65535", 65535), Some(65535));
    assert_eq!(parse_number("99999999999999999999", 65535), None);
    assert_eq!(parse_number("", 255), None);
    assert_eq!(parse_number("+", 255), None);
    assert_eq!(parse_number("-1", 255), None);
    assert_eq!(parse_number("1a", 255), None);
    assert_eq!(parse_number("١٢", 255), None);
}

#[test]
fn wildcards_match_whole_names() {
    let p = vec!["*.log".to_string()];
    assert!(name_passes(&p, "2020-01-01.log"));
    assert!(!name_passes(&p, "2020-01-01.log.gz"));
    let p = vec!["backup-????".to_string(), "*.tar".to_string()];
    assert!(name_passes(&p, "backup-2020"));
    assert!(!name_passes(&p, "backup-20201"));
    assert!(name_passes(&p, "x.tar"));
    assert!(name_passes(&[], "anything"));
}

#[test]
fn entry_from_default_grammar() {
    let e = BackupEntry::new("db-2021-04-11_13-45.sql", &[], &default_grammar()).unwrap();
    assert_eq!(e.get_ordering_tuple(), (2021, 4, 11, 13, 45));
    assert_eq!(e.path, "db-2021-04-11_13-45.sql");
    let e = BackupEntry::new("20210411", &[], &default_grammar()).unwrap();
    assert_eq!(e.get_ordering_tuple(), (2021, 4, 11, 0, 0));
}

#[test]
fn names_without_timestamp_are_skipped() {
    assert_eq!(BackupEntry::new("notes.txt", &[], &default_grammar()), None);
    assert_eq!(BackupEntry::new("2021-04", &[], &default_grammar()), None);
}

#[test]
fn filtered_names_are_skipped() {
    let p = vec!["*.log".to_string()];
    assert_eq!(BackupEntry::new("2021-04-11.txt", &p, &default_grammar()), None);
    assert!(BackupEntry::new("2021-04-11.log", &p, &default_grammar()).is_some());
}

#[test]
fn required_fields_must_fit() {
    let g = Grammar::new(r"(?P<year>\d+)-(?P<month>\d+)-(?P<day>\d+)(-(?P<hour>\d+))?").unwrap();
    assert_eq!(BackupEntry::new("2020-300-01", &[], &g), None);
    assert_eq!(BackupEntry::new("70000-01-01", &[], &g), None);
    let e = BackupEntry::new("2020-01-02-999", &[], &g).unwrap();
    assert_eq!(e.get_ordering_tuple(), (2020, 1, 2, 0, 0));
}

#[test]
fn fields_from_captured_texts() {
    let e = BackupEntry::from_captures("f", Some("2000"), Some("2"), Some("3"), Some("4"), None).unwrap();
    assert_eq!(e.get_ordering_tuple(), (2000, 2, 3, 4, 0));
    assert_eq!(BackupEntry::from_captures("f", Some("2000"), None, Some("3"), None, None), None);
    assert_eq!(BackupEntry::from_captures("f", Some("x"), Some("2"), Some("3"), None, None), None);
}

#[test]
fn keys_truncate_to_the_tier() {
    let a = BackupEntry { year: 2020, month: 5, day: 1, hour: 10, minute: 30, path: "a".into() };
    let b = BackupEntry { year: 2020, month: 5, day: 2, hour: 0, minute: 0, path: "b".into() };
    assert_eq!(a.key(Period::Months), b.key(Period::Months));
    assert!(a.key(Period::Days) < b.key(Period::Days));
    assert!(a.key(Period::Minutes) < b.key(Period::Minutes));
    assert_eq!(a.key(Period::Years), 2020u64 << 32);
}

#[test]
fn period_names() {
    assert_eq!(Period::Years.to_string(), "Years");
    assert_eq!(Period::Months.to_string(), "Months");
    assert_eq!(Period::Days.to_string(), "Days");
    assert_eq!(Period::Hours.to_string(), "Hours");
    assert_eq!(Period::Minutes.to_string(), "Minutes");
}
