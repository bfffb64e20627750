use backedup::{ArgParser, BackedUpError, Config, Grammar, Period, SlotConfig, DEFAULT_GRAMMAR};

#[test]
fn test_no_slot() {
    let slot_config = SlotConfig::new(0, 0, 0, 0, 0);
    assert_eq!(BackedUpError::NoSlot, slot_config.err().unwrap());
}

#[test]
fn test_missing_named_group() {
    let slot_config = SlotConfig::new(1, 0, 0, 0, 0).unwrap();
    let re_str = r"(?P<month>\d{2})(?P<day>\d{2})";

    let config = Config::new(slot_config, &vec![], Some(re_str));
    assert_eq!(BackedUpError::MissingCaptureGroup("year"), config.err().unwrap());

    let re_str = r"(?P<year>\d{2})(?P<day>\d{2})";
    let config = Config::new(slot_config, &vec![], Some(re_str));
    assert_eq!(BackedUpError::MissingCaptureGroup("month"), config.err().unwrap());

    let re_str = r"(?P<year>\d{2})(?P<month>\d{2})";
    let config = Config::new(slot_config, &vec![], Some(re_str));
    assert_eq!(BackedUpError::MissingCaptureGroup("day"), config.err().unwrap());
}

#[test]
fn test_invalid_regex() {
    let re_str = r"/(notaregex";
    let slot_config = SlotConfig::new(1, 0, 0, 0, 0).unwrap();
    let config = Config::new(slot_config, &vec![], Some(re_str));
    assert!(matches!(config.err().unwrap(), BackedUpError::InvalidRegex(_)))
}

#[test]
fn missing_year_is_reported_before_other_groups() {
    let slot_config = SlotConfig::new(1, 0, 0, 0, 0).unwrap();
    let config = Config::new(slot_config, &vec![], Some(r"(?P<hour>\d{2})"));
    assert_eq!(BackedUpError::MissingCaptureGroup("year"), config.err().unwrap());
}

#[test]
fn any_positive_slot_is_enough() {
    for i in 0..5 {
        let mut counts = [0usize; 5];
        counts[i] = 1;
        let s = SlotConfig::new(counts[0], counts[1], counts[2], counts[3], counts[4]);
        assert!(s.is_ok());
    }
}

#[test]
fn slot_counts_are_kept() {
    let s = SlotConfig::new(1, 2, 3, 4, 5).unwrap();
    assert_eq!(s.slot(Period::Years), 1);
    assert_eq!(s.slot(Period::Months), 2);
    assert_eq!(s.slot(Period::Days), 3);
    assert_eq!(s.slot(Period::Hours), 4);
    assert_eq!(s.slot(Period::Minutes), 5);
}

#[test]
fn config_keeps_its_parts() {
    let slot_config = SlotConfig::new(0, 0, 7, 0, 0).unwrap();
    let patterns = vec!["*.log".to_string(), "*.tar".to_string()];
    let config = Config::new(slot_config, &patterns, None).unwrap();
    assert_eq!(config.pattern(), &patterns[..]);
    assert_eq!(config.slots().slot(Period::Days), 7);
    assert!(config.grammar().has_group("second"));
}

#[test]
fn default_grammar_compiles_with_all_groups() {
    let g = Grammar::new(DEFAULT_GRAMMAR).unwrap();
    assert_eq!(g.group_names(), vec!["year", "month", "day", "hour", "minute", "second"]);
    assert!(g.has_group("year"));
    assert!(!g.has_group("week"));
}

#[test]
fn grammar_captures_named_groups() {
    let g = Grammar::new(r"(?P<year>\d{4})-(?P<month>\d{2})").unwrap();
    assert_eq!(g.capture("x2021-07y", "year"), Some("2021"));
    assert_eq!(g.capture("x2021-07y", "month"), Some("07"));
    assert_eq!(g.capture("x2021-07y", "day"), None);
    assert_eq!(g.capture("nothing", "year"), None);
    assert!(Grammar::new("(").is_err());
}

fn args(yearly: usize, regex: Option<&str>) -> ArgParser {
    ArgParser {
        path: ".".to_string(),
        config: None,
        pattern: vec![],
        yearly,
        monthly: 0,
        daily: 0,
        hourly: 0,
        minutely: 0,
        regex: regex.map(|s| s.to_string()),
        execute: false,
    }
}

#[test]
fn command_line_without_slots_is_refused() {
    assert_eq!(args(0, None).to_config().err().unwrap(), BackedUpError::NoSlot);
}

#[test]
fn command_line_grammar_is_checked() {
    let err = args(1, Some(r"(?P<year>\d{4})")).to_config().err().unwrap();
    assert_eq!(err, BackedUpError::MissingCaptureGroup("month"));
    let config = args(2, None).to_config().unwrap();
    assert_eq!(config.slots().slot(Period::Years), 2);
}
