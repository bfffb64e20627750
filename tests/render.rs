use backedup::{Config, Plan, SlotConfig};

fn plan_for(names: &[&str], yearly: usize, monthly: usize) -> Plan {
    let slot_config = SlotConfig::new(yearly, monthly, 0, 0, 0).unwrap();
    let config = Config::new(slot_config, &[], None).unwrap();
    let names: Vec<String> = names.iter().map(|s| s.to_string()).collect();
    Plan::from(&config, &names)
}

#[test]
fn empty_plan_says_nothing_to_do() {
    let plan = plan_for(&["readme"], 1, 0);
    assert_eq!(plan.render(), "Plan to:\n\n\tDo nothing: no valid timestamps\n");
}

#[test]
fn report_lists_kept_and_removed_files() {
    let plan = plan_for(&["2020-05-31", "2020-05-01", "2019-01-01"], 1, 2);
    let expected = "Plan to:\n\n\t\x1b[38;5;2mKeep 2 file(s) matching \x1b[mperiod(s)\n\
        \t\t\x1b[38;5;2m2020-05-31 \x1b[m-> (Years,Months)\n\
        \t\t\x1b[38;5;2m2019-01-01 \x1b[m-> (Months)\n\
        \n\t\x1b[38;5;1mRemove 1 file(s) not matching periods\n\
        \t\t2020-05-01\n";
    assert_eq!(plan.render(), expected);
}
