use cdn77_client::command::Operation;
use cdn77_client::json::{decode_failure_report, present_json_payload};
use cdn77_client::outcome::Stream;
use cdn77_client::text::decimal_string;

#[test]
fn json_payload_is_pretty_printed() {
    let text = present_json_payload(Operation::StatsGet, "{\"sum\":12,\"ids\":[1,2]}").unwrap();
    assert_eq!(text, "{\n  \"ids\": [\n    1,\n    2\n  ],\n  \"sum\": 12\n}");
}

#[test]
fn json_payload_of_any_shape_is_shown() {
    assert_eq!(present_json_payload(Operation::StatsByDataCenter, " [true, null] ").unwrap(), "[\n  true,\n  null\n]");
    assert_eq!(present_json_payload(Operation::StatsByResource, "7").unwrap(), "7");
}

#[test]
fn malformed_success_body_is_unexpected_error() {
    let e = present_json_payload(Operation::StatsGet, "{\"sum\": ").unwrap_err();
    assert_eq!(e.exit_code, 4);
    assert_eq!(e.stream, Stream::Stderr);
    assert!(e.message.starts_with("Failed to deserialize response, e="));
}

#[test]
fn empty_success_body_is_unexpected_error() {
    assert_eq!(present_json_payload(Operation::StatsSumByDataCenter, "").unwrap_err().exit_code, 4);
}

#[test]
fn decode_failure_report_carries_detail() {
    let r = decode_failure_report(Operation::StatsBandwidthPercentile, "missing field `percentile`");
    assert_eq!(r.exit_code, 4);
    assert_eq!(r.stream, Stream::Stderr);
    assert_eq!(r.message, "Failed to deserialize response, e=missing field `percentile`");
}

#[test]
fn decode_failure_names_the_job_command() {
    assert_eq!(decode_failure_report(Operation::JobsPrefetch, "x").message, "Failed to deserialize prefetch response, e=x");
    assert_eq!(decode_failure_report(Operation::JobsList, "x").message, "Failed to deserialize list-jobs response, e=x");
    assert_eq!(decode_failure_report(Operation::JobsDetail, "x").message, "Failed to deserialize job-details response, e=x");
    assert_eq!(decode_failure_report(Operation::JobsPurgeAll, "x").message, "Failed to deserialize purge-all response, e=x");
    assert_eq!(decode_failure_report(Operation::JobsPurge, "x").message, "Failed to deserialize purge response, e=x");
    assert_eq!(decode_failure_report(Operation::CreditBalance, "x").message, "Failed to deserialize response, e=x");
}

#[test]
fn decimal_text_of_numbers() {
    assert_eq!(decimal_string(0), "0");
    assert_eq!(decimal_string(1_234_567_890), "1234567890");
    assert_eq!(decimal_string(u64::MAX), "18446744073709551615");
}
