use maple_ingest::usage::{
    is_success, AggregatorAction, AggregatorEvent, FlushOutcome, TrackRequest, UsageAggregator,
    UsageEvent,
};

fn event(org_id: &str, feature_id: &'static str, value_bytes: u64) -> UsageEvent {
    UsageEvent { org_id: org_id.to_string(), feature_id, value_bytes }
}

fn outcomes(requests: &[TrackRequest], status: Option<u16>) -> Vec<FlushOutcome> {
    requests
        .iter()
        .map(|r| FlushOutcome {
            customer_id: r.customer_id.clone(),
            feature_id: r.feature_id,
            status,
        })
        .collect()
}

fn aggregator(flush_interval_secs: u64) -> UsageAggregator {
    UsageAggregator::new("am_sk_test".to_string(), "https://api.useautumn.com/", flush_interval_secs)
}

fn keys(requests: &[TrackRequest]) -> Vec<(String, &'static str, u64)> {
    requests.iter().map(|r| (r.customer_id.clone(), r.feature_id, r.value_bytes)).collect()
}

#[test]
fn critical_threshold_is_five_minutes_of_failures() {
    assert_eq!(aggregator(1).critical_threshold(), 300);
    assert_eq!(aggregator(0).critical_threshold(), 300);
    assert_eq!(aggregator(7).critical_threshold(), 42);
    assert_eq!(aggregator(60).critical_threshold(), 5);
    assert_eq!(aggregator(300).critical_threshold(), 1);
    assert_eq!(aggregator(301).critical_threshold(), 1);
    assert_eq!(aggregator(u64::MAX).critical_threshold(), 1);
}

#[test]
fn a_new_aggregator_is_empty() {
    let aggregator = aggregator(1);
    assert_eq!(aggregator.pending_entries(), 0);
    assert_eq!(aggregator.pending_bytes(), 0);
    assert_eq!(aggregator.consecutive_failures(), 0);
    assert!(aggregator.plan_flush().is_empty());
}

#[test]
fn usage_is_summed_by_tenant_and_signal() {
    let mut aggregator = aggregator(1);
    aggregator.record(event("org_a", "traces", 100));
    aggregator.record(event("org_b", "traces", 5));
    aggregator.record(event("org_a", "logs", 7));
    aggregator.record(event("org_a", "traces", 23));
    assert_eq!(aggregator.pending_entries(), 3);
    assert_eq!(aggregator.pending_bytes(), 135);
    assert_eq!(
        keys(&aggregator.plan_flush()),
        vec![
            ("org_a".to_string(), "traces", 123),
            ("org_b".to_string(), "traces", 5),
            ("org_a".to_string(), "logs", 7),
        ]
    );
}

#[test]
fn a_bucket_saturates() {
    let mut aggregator = aggregator(1);
    aggregator.record(event("org_a", "traces", u64::MAX - 1));
    aggregator.record(event("org_a", "traces", 5));
    aggregator.record(event("org_b", "traces", u64::MAX));
    assert_eq!(keys(&aggregator.plan_flush())[0].2, u64::MAX);
    assert_eq!(aggregator.pending_bytes(), 2 * (u64::MAX as u128));
}

#[test]
fn a_flush_asks_once_per_bucket() {
    let mut aggregator = aggregator(1);
    aggregator.record(event("org_a", "traces", 1));
    aggregator.record(event("org_a", "logs", 2));
    aggregator.record(event("org_a", "traces", 3));
    let requests = aggregator.plan_flush();
    assert_eq!(requests.len(), 2);
    for request in &requests {
        assert_eq!(request.url, "https://api.useautumn.com/v1/track");
        assert_eq!(request.authorization, "Bearer am_sk_test");
        assert_eq!(request.idempotency_key.len(), 36);
    }
    assert_ne!(requests[0].idempotency_key, requests[1].idempotency_key);
    let again = aggregator.plan_flush();
    assert_ne!(requests[0].idempotency_key, again[0].idempotency_key);
    assert_eq!(aggregator.pending_entries(), 2);
}

#[test]
fn trailing_slashes_of_the_api_url_are_dropped() {
    let mut aggregator = UsageAggregator::new("k".to_string(), "http://m.example.com//", 1);
    aggregator.record(event("o", "logs", 1));
    assert_eq!(aggregator.plan_flush()[0].url, "http://m.example.com/v1/track");
}

#[test]
fn only_2xx_counts_as_success() {
    assert!(is_success(Some(200)));
    assert!(is_success(Some(204)));
    assert!(is_success(Some(299)));
    assert!(!is_success(Some(199)));
    assert!(!is_success(Some(300)));
    assert!(!is_success(Some(500)));
    assert!(!is_success(None));
}

#[test]
fn flushed_buckets_are_removed_and_failed_ones_kept() {
    let mut aggregator = aggregator(1);
    aggregator.record(event("org_a", "traces", 10));
    aggregator.record(event("org_b", "logs", 20));
    aggregator.record(event("org_c", "metrics", 30));
    let requests = aggregator.plan_flush();
    let mut results = outcomes(&requests, Some(200));
    results[1].status = Some(500);
    let report = aggregator.complete_flush(&results);
    assert!(!report.all_ok);
    assert_eq!(report.consecutive_failures, 1);
    assert!(!report.critical);
    assert_eq!(report.pending_entries, 1);
    assert_eq!(report.pending_bytes, 20);
    assert_eq!(keys(&aggregator.plan_flush()), vec![("org_b".to_string(), "logs", 20)]);

    aggregator.record(event("org_b", "logs", 5));
    let requests = aggregator.plan_flush();
    assert_eq!(keys(&requests), vec![("org_b".to_string(), "logs", 25)]);
    let report = aggregator.complete_flush(&outcomes(&requests, Some(201)));
    assert!(report.all_ok);
    assert_eq!(report.consecutive_failures, 0);
    assert_eq!(report.pending_entries, 0);
    assert_eq!(report.pending_bytes, 0);
    assert_eq!(aggregator.pending_entries(), 0);
}

#[test]
fn transport_errors_keep_the_bucket() {
    let mut aggregator = aggregator(1);
    aggregator.record(event("org_a", "traces", 10));
    let requests = aggregator.plan_flush();
    let report = aggregator.complete_flush(&outcomes(&requests, None));
    assert!(!report.all_ok);
    assert_eq!(report.pending_entries, 1);
    assert_eq!(report.pending_bytes, 10);
}

#[test]
fn outcomes_for_other_keys_remove_nothing() {
    let mut aggregator = aggregator(1);
    aggregator.record(event("org_a", "traces", 10));
    let foreign = vec![
        FlushOutcome { customer_id: "org_a".to_string(), feature_id: "logs", status: Some(200) },
        FlushOutcome { customer_id: "org_b".to_string(), feature_id: "traces", status: Some(200) },
    ];
    let report = aggregator.complete_flush(&foreign);
    assert!(report.all_ok);
    assert_eq!(report.pending_entries, 1);
}

#[test]
fn the_final_flush_does_not_touch_the_failure_run() {
    let mut aggregator = aggregator(1);
    aggregator.record(event("org_a", "traces", 10));
    aggregator.record(event("org_b", "traces", 10));
    let requests = aggregator.plan_flush();
    aggregator.complete_flush(&outcomes(&requests, Some(503)));
    assert_eq!(aggregator.consecutive_failures(), 1);
    let mut results = outcomes(&requests, Some(200));
    results[0].status = None;
    aggregator.complete_final_flush(&results);
    assert_eq!(aggregator.consecutive_failures(), 1);
    assert_eq!(keys(&aggregator.plan_flush()), vec![("org_a".to_string(), "traces", 10)]);
}

#[test]
fn ticks_without_usage_ask_for_nothing() {
    let mut aggregator = aggregator(1);
    assert!(matches!(aggregator.step(AggregatorEvent::Tick), AggregatorAction::Continue));
    assert!(matches!(aggregator.step(AggregatorEvent::Closed), AggregatorAction::Stop));
}

#[test]
fn the_task_steps_through_a_flush() {
    let mut aggregator = aggregator(1);
    assert!(matches!(
        aggregator.step(AggregatorEvent::Report(event("org_a", "traces", 4))),
        AggregatorAction::Continue
    ));
    let requests = match aggregator.step(AggregatorEvent::Tick) {
        AggregatorAction::Flush(requests) => requests,
        _ => panic!("expected a flush"),
    };
    assert_eq!(keys(&requests), vec![("org_a".to_string(), "traces", 4)]);
    assert_eq!(aggregator.pending_entries(), 1);
    let report = match aggregator.step(AggregatorEvent::Flushed(outcomes(&requests, Some(200)))) {
        AggregatorAction::Settle(report) => report,
        _ => panic!("expected a report"),
    };
    assert!(report.all_ok);
    assert_eq!(report.pending_entries, 0);
    assert_eq!(aggregator.pending_entries(), 0);
}

#[test]
fn shutdown_flushes_once() {
    let mut aggregator = aggregator(1);
    aggregator.step(AggregatorEvent::Report(event("org_a", "traces", 4)));
    aggregator.step(AggregatorEvent::Report(event("org_b", "traces", 6)));
    let requests = match aggregator.step(AggregatorEvent::Closed) {
        AggregatorAction::FinalFlush(requests) => requests,
        _ => panic!("expected a final flush"),
    };
    assert_eq!(requests.len(), 2);
    let mut results = outcomes(&requests, Some(200));
    results[1].status = Some(500);
    assert!(matches!(
        aggregator.step(AggregatorEvent::FinalFlushed(results)),
        AggregatorAction::Stop
    ));
    assert_eq!(aggregator.pending_entries(), 1);
    assert_eq!(aggregator.consecutive_failures(), 0);
}

#[test]
fn an_outage_is_critical_after_five_minutes_and_recovers() {
    let mut aggregator = aggregator(1);
    aggregator.record(event("org_a", "traces", 500_000_000));
    aggregator.record(event("org_a", "traces", 700_000_000));
    aggregator.record(event("org_a", "traces", 300_000_000));
    let mut criticals = 0;
    for pass in 1..=320u64 {
        let requests = match aggregator.step(AggregatorEvent::Tick) {
            AggregatorAction::Flush(requests) => requests,
            _ => panic!("expected a flush"),
        };
        assert_eq!(keys(&requests), vec![("org_a".to_string(), "traces", 1_500_000_000)]);
        let report = match aggregator.step(AggregatorEvent::Flushed(outcomes(&requests, Some(500))))
        {
            AggregatorAction::Settle(report) => report,
            _ => panic!("expected a report"),
        };
        assert!(!report.all_ok);
        assert_eq!(report.consecutive_failures, pass);
        assert_eq!(report.critical, pass == 300);
        assert_eq!(report.pending_entries, 1);
        assert_eq!(report.pending_bytes, 1_500_000_000);
        if report.critical {
            criticals += 1;
        }
    }
    assert_eq!(criticals, 1);

    let requests = aggregator.plan_flush();
    assert_eq!(requests.len(), 1);
    assert_eq!(requests[0].value_bytes, 1_500_000_000);
    let report = aggregator.complete_flush(&outcomes(&requests, Some(200)));
    assert!(report.all_ok);
    assert!(!report.critical);
    assert_eq!(report.consecutive_failures, 0);
    assert_eq!(aggregator.pending_entries(), 0);
    assert_eq!(aggregator.pending_bytes(), 0);
}

#[test]
fn a_run_is_critical_once_when_it_reaches_the_threshold() {
    let mut aggregator = aggregator(150);
    assert_eq!(aggregator.critical_threshold(), 2);
    aggregator.record(event("org_a", "logs", 1));
    let requests = aggregator.plan_flush();
    let failed = outcomes(&requests, None);
    assert!(!aggregator.complete_flush(&failed).critical);
    assert!(aggregator.complete_flush(&failed).critical);
    assert!(!aggregator.complete_flush(&failed).critical);
    assert!(!aggregator.complete_flush(&failed).critical);
    assert_eq!(aggregator.consecutive_failures(), 4);
}

#[test]
fn a_new_run_is_critical_again() {
    let mut aggregator = aggregator(150);
    aggregator.record(event("org_a", "logs", 1));
    let requests = aggregator.plan_flush();
    let failed = outcomes(&requests, Some(503));
    let criticals: Vec<bool> =
        (0..3).map(|_| aggregator.complete_flush(&failed).critical).collect();
    assert_eq!(criticals, vec![false, true, false]);
    let report = aggregator.complete_flush(&Vec::new());
    assert!(report.all_ok);
    assert!(!report.critical);
    assert_eq!(report.consecutive_failures, 0);
    let criticals: Vec<bool> =
        (0..3).map(|_| aggregator.complete_flush(&failed).critical).collect();
    assert_eq!(criticals, vec![false, true, false]);
}

#[test]
fn a_threshold_of_one_is_critical_on_the_first_failure() {
    let mut aggregator = aggregator(600);
    aggregator.record(event("org_a", "logs", 1));
    let requests = aggregator.plan_flush();
    let failed = outcomes(&requests, Some(500));
    assert!(aggregator.complete_flush(&failed).critical);
    assert!(!aggregator.complete_flush(&failed).critical);
}
