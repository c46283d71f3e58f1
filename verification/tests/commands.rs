use perf_events::do_stat;
use perf_events::StatArgs;

#[test]
fn stat_accepts_an_event_argument() {
    assert!(do_stat(StatArgs {
        event: Some("cpu-cycles:P".to_string())
    })
    .is_ok());
    assert!(do_stat(StatArgs { event: None }).is_ok());
}

#[test]
fn listing_categories_report_success() {
    assert!(perf_events::print_cache_events().is_ok());
    assert!(perf_events::print_pmu_events().is_ok());
    assert!(perf_events::print_sdt_events().is_ok());
    assert!(perf_events::print_metric_events().is_ok());
    assert!(perf_events::print_metric_group_events().is_ok());
    assert!(perf_events::print_event_glob_events().is_ok());
    assert!(perf_events::print_pfm_events().is_ok());
}
