use cdn77_client::command::{
    plan_credit_balance, plan_jobs_detail, plan_jobs_list, plan_jobs_prefetch, plan_jobs_purge, plan_jobs_purge_all,
    plan_stats_bandwidth_95th_percentile, plan_stats_by_data_center, plan_stats_by_resource, plan_stats_get,
    plan_stats_sum, plan_stats_sum_by_data_center, plan_stats_sum_by_resource, plan_storage_detail, plan_storage_list,
    Method, RequestBody, StatsArgs,
};
use cdn77_client::outcome::Stream;
use cdn77_client::selectors::{GetStatsType, JobType};

fn args(from: &str, to: &str, ids: Option<&str>, locations: Option<&str>) -> StatsArgs {
    StatsArgs {
        from: from.to_string(),
        to: to.to_string(),
        resource_ids: ids.map(|s| s.to_string()),
        location_ids: locations.map(|s| s.to_string()),
    }
}

#[test]
fn credit_balance_request() {
    let r = plan_credit_balance();
    assert_eq!(r.method, Method::Get);
    assert_eq!(r.url, "https://api.cdn77.com/v3/credit-balance");
    assert!(matches!(r.body, RequestBody::Empty));
}

#[test]
fn job_requests_carry_resource_and_type() {
    assert_eq!(plan_jobs_list(1234, JobType::PurgeAll).url, "https://api.cdn77.com/v3/cdn/1234/job-log/purge-all");
    assert_eq!(plan_jobs_detail(0, "x-1").url, "https://api.cdn77.com/v3/cdn/0/job/x-1");
    let r = plan_jobs_purge_all(18446744073709551615);
    assert_eq!(r.method, Method::Post);
    assert_eq!(r.url, "https://api.cdn77.com/v3/cdn/18446744073709551615/job/purge-all");
}

#[test]
fn prefetch_with_empty_paths_makes_no_request() {
    let e = plan_jobs_prefetch(5, "", &None).unwrap_err();
    assert_eq!(e.exit_code, 2);
    assert_eq!(e.stream, Stream::Stderr);
    assert_eq!(e.message, "Please specify at least one path");
}

#[test]
fn prefetch_request_body() {
    let r = plan_jobs_prefetch(5, "/a.js, /b.css", &Some("origin.example".to_string())).unwrap();
    assert_eq!(r.method, Method::Post);
    assert_eq!(r.url, "https://api.cdn77.com/v3/cdn/5/job/prefetch");
    match r.body {
        RequestBody::Prefetch { paths, upstream_host } => {
            assert_eq!(paths, vec!["/a.js".to_string(), "/b.css".to_string()]);
            assert_eq!(upstream_host, Some("origin.example".to_string()));
        }
        other => panic!("unexpected body {:?}", other),
    }
}

#[test]
fn purge_request_body() {
    let r = plan_jobs_purge(8, "/img/*").unwrap();
    assert_eq!(r.url, "https://api.cdn77.com/v3/cdn/8/job/purge");
    match r.body {
        RequestBody::Purge { paths } => assert_eq!(paths, vec!["/img/*".to_string()]),
        other => panic!("unexpected body {:?}", other),
    }
    assert_eq!(plan_jobs_purge(8, " , ").unwrap_err().exit_code, 2);
}

#[test]
fn stats_request_converts_range_and_filters() {
    let a = args("2023-11-14 22:13", "2023-11-15 00:00", Some("1, 2"), Some("prague"));
    let r = plan_stats_get(GetStatsType::HitMiss, &a, &Some("1-h".to_string())).unwrap();
    assert_eq!(r.url, "https://api.cdn77.com/v3/stats/hit-miss");
    match r.body {
        RequestBody::Stats { query, aggregation } => {
            assert_eq!(query.from, 1_699_999_980);
            assert_eq!(query.to, 1_700_006_400);
            assert_eq!(query.cdn_ids, Some(vec![1, 2]));
            assert_eq!(query.location_ids, Some(vec!["prague".to_string()]));
            assert_eq!(aggregation, Some("1-h".to_string()));
        }
        other => panic!("unexpected body {:?}", other),
    }
}

#[test]
fn stats_request_with_bad_start() {
    let e = plan_stats_by_resource(GetStatsType::Costs, &args("yesterday", "2023-01-01 00:00", None, None), &None).unwrap_err();
    assert_eq!(e.exit_code, 2);
    assert_eq!(e.stream, Stream::Stdout);
    assert_eq!(e.message, "Start date/time is not in a correct format");
}

#[test]
fn stats_request_with_bad_end() {
    let e = plan_stats_by_data_center(GetStatsType::Costs, &args("2023-01-01 00:00", "2023-01-01", None, None), &None).unwrap_err();
    assert_eq!(e.message, "End date/time is not in a correct format");
}

#[test]
fn stats_request_with_bad_resource_ids() {
    let e = plan_stats_bandwidth_95th_percentile(&args("2023-01-01 00:00", "2023-01-02 00:00", Some("1,x"), None)).unwrap_err();
    assert_eq!(e.exit_code, 2);
    assert_eq!(e.message, "At least one resource id is malformed");
}

#[test]
fn grouped_stats_urls() {
    let a = args("2023-01-01 00:00", "2023-01-02 00:00", None, None);
    assert_eq!(plan_stats_by_resource(GetStatsType::Traffic, &a, &None).unwrap().url, "https://api.cdn77.com/v3/stats/cdns/traffic");
    assert_eq!(plan_stats_by_data_center(GetStatsType::HeadersDetail, &a, &None).unwrap().url, "https://api.cdn77.com/v3/stats/datacenters/headers-detail");
    let r = plan_stats_bandwidth_95th_percentile(&a).unwrap();
    assert_eq!(r.url, "https://api.cdn77.com/v3/stats/bandwidth/percentile");
    match r.body {
        RequestBody::StatsTotal { query } => {
            assert_eq!(query.from, 1_672_531_200);
            assert_eq!(query.cdn_ids, None);
            assert_eq!(query.location_ids, None);
        }
        other => panic!("unexpected body {:?}", other),
    }
}

#[test]
fn sum_requests_check_the_type_first() {
    let bad_dates = args("x", "y", None, None);
    let e = plan_stats_sum(&"bandwidth".to_string(), &bad_dates).unwrap_err();
    assert_eq!(e.exit_code, 2);
    assert_eq!(e.stream, Stream::Stderr);
    assert_eq!(e.message, "Invalid stat type: bandwidth");
    let e = plan_stats_sum(&"costs".to_string(), &bad_dates).unwrap_err();
    assert_eq!(e.message, "Start date/time is not in a correct format");
}

#[test]
fn sum_request_urls() {
    let a = args("2023-01-01 00:00", "2023-01-02 00:00", None, None);
    assert_eq!(plan_stats_sum(&"traffic".to_string(), &a).unwrap().url, "https://api.cdn77.com/v3/stats/sum/traffic");
    assert_eq!(plan_stats_sum_by_resource(&"hit-miss".to_string(), &a).unwrap().url, "https://api.cdn77.com/v3/stats/cdns/sum/hit-miss");
    assert_eq!(plan_stats_sum_by_data_center(&"headers".to_string(), &a).unwrap().url, "https://api.cdn77.com/v3/stats/datacenters/sum/headers");
}

#[test]
fn storage_requests() {
    assert_eq!(plan_storage_list().url, "https://api.cdn77.com/v3/storage-location");
    assert_eq!(plan_storage_detail("push-zone-1").url, "https://api.cdn77.com/v3/storage-location/push-zone-1");
}
