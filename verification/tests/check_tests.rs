use icingaplugin_rs::check::{CheckResult, Metric, PerfData, State};

#[test]
fn state_from_exit_code() {
    assert_eq!(State::from_exit_code(0), State::OK);
    assert_eq!(State::from_exit_code(1), State::Warning);
    assert_eq!(State::from_exit_code(2), State::Critical);
    assert_eq!(State::from_exit_code(3), State::Unknown);
    assert_eq!(State::from_exit_code(115), State::Unknown);
}

#[test]
fn state_round_trip() {
    assert_eq!(State::from_exit_code(0).exit_code(), 0);
    assert_eq!(State::from_exit_code(1).exit_code(), 1);
    assert_eq!(State::from_exit_code(2).exit_code(), 2);
    assert_eq!(State::from_exit_code(3).exit_code(), 3);
    assert_eq!(State::from_exit_code(12345).exit_code(), 3);
}

#[test]
fn state_text_forms() {
    assert_eq!(State::OK.text(), "OK");
    assert_eq!(State::Warning.text(), "WARNING");
    assert_eq!(State::Critical.text(), "CRITICAL");
    assert_eq!(State::Unknown.text(), "UNKNOWN");
}

#[test]
fn metric_renders_without_thresholds() {
    let metric = Metric::new(String::from("label"), String::from("value"));
    assert_eq!(metric.render(), "'label'=value;;;;");
}

#[test]
fn metric_renders_each_annotation() {
    let warn = Metric::new(String::from("label"), String::from("value")).warning(5.to_string());
    assert_eq!(warn.render(), "'label'=value;5;;;");
    let crit = Metric::new(String::from("label"), String::from("value")).critical(5.to_string());
    assert_eq!(crit.render(), "'label'=value;;5;;");
    let min = Metric::new(String::from("label"), String::from("value")).min(5.to_string());
    assert_eq!(min.render(), "'label'=value;;;5;");
    let max = Metric::new(String::from("label"), String::from("value")).max(5.to_string());
    assert_eq!(max.render(), "'label'=value;;;;5");
}

#[test]
fn metric_renders_full_chain() {
    let metric = Metric::new(String::from("time"), String::from("0.5s"))
        .warning(String::from("1"))
        .critical(String::from("2"))
        .min(String::from("0"))
        .max(String::from("10"));
    assert_eq!(metric.render(), "'time'=0.5s;1;2;0;10");
}

#[test]
fn metric_setter_overwrites() {
    let metric = Metric::new(String::from("label"), String::from("value"))
        .warning(String::from("5"))
        .warning(String::from("6"));
    assert_eq!(metric.render(), "'label'=value;6;;;");
}

#[test]
fn perf_data_from_single_metric() {
    let metric = Metric::new(String::from("label"), String::from("value"));
    let pd = PerfData::from_metric(metric);
    assert_eq!(pd.render(), "'label'=value;;;; ");
}

#[test]
fn perf_data_from_two_metrics() {
    let metrics = vec![
        Metric::new(String::from("label1"), String::from("value1")),
        Metric::new(String::from("label2"), String::from("value2")),
    ];
    let pd = PerfData::from_metrics(metrics);
    assert_eq!(pd.render(), "'label1'=value1;;;; 'label2'=value2;;;; ");
}

#[test]
fn perf_data_from_empty_collection() {
    let pd = PerfData::from_metrics(Vec::new());
    assert_eq!(pd.render(), "");
}

#[test]
fn result_renders_bare_state() {
    assert_eq!(CheckResult::new(State::OK).render(), "OK");
    assert_eq!(CheckResult::new(State::Unknown).render(), "UNKNOWN");
}

#[test]
fn result_renders_with_info() {
    let cr = CheckResult::new(State::OK).set_info(String::from("Everything fine."));
    assert_eq!(cr.render(), "OK - Everything fine.");
}

#[test]
fn result_renders_with_perf_data() {
    let cr = CheckResult::from_exit_code(0).set_perf_data(PerfData::from_metric(Metric::new(
        String::from("label"),
        String::from("value"),
    )));
    assert_eq!(cr.render(), "OK | 'label'=value;;;; ");
}

#[test]
fn result_renders_with_info_and_perf_data() {
    let cr = CheckResult::new(State::Critical)
        .set_info(String::from("Disk nearly full."))
        .set_perf_data(PerfData::from_metric(Metric::new(
            String::from("disk"),
            String::from("97%"),
        )));
    assert_eq!(cr.render(), "CRITICAL - Disk nearly full. | 'disk'=97%;;;; ");
}

#[test]
fn result_from_exit_code() {
    assert_eq!(CheckResult::from_exit_code(0).state(), State::OK);
    assert_eq!(CheckResult::from_exit_code(115).state(), State::Unknown);
}

#[test]
fn result_state_accessor() {
    let cr = CheckResult::new(State::Warning).set_info(String::from("load high"));
    assert_eq!(cr.state(), State::Warning);
    assert_eq!(cr.exit_code(), 1);
}
