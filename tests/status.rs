use cdn77_client::command::{Command, Operation, StatsArgs};
use cdn77_client::outcome::Stream;
use cdn77_client::selectors::GetStatsType;
use cdn77_client::status::{handle_default_response_status_codes, route_status, status_report, StatusDecision};

fn purge_all(resource_id: u64) -> Command {
    Command::JobsPurgeAll { resource_id }
}

fn stats_args() -> StatsArgs {
    StatsArgs { from: "2023-01-01 00:00".to_string(), to: "2023-01-02 00:00".to_string(), resource_ids: None, location_ids: None }
}

#[test]
fn purge_all_forbidden_means_feature_disabled() {
    let c = purge_all(42);
    let d = route_status(c.operation(), 403);
    assert_eq!(d, StatusDecision::PurgeAllDisabled);
    let r = status_report(&c, d, 403, &None);
    assert_eq!(r.exit_code, 3);
    assert_eq!(r.stream, Stream::Stdout);
    assert_eq!(r.message, "Purging all files is disabled for resource=42");
}

#[test]
fn purge_all_forbidden_describes_the_response() {
    let c = purge_all(12345);
    let d = route_status(c.operation(), 403);
    assert!(d.describes_response());
    assert!(!d.needs_body());
    let r = status_report(&c, d, 403, &Some("Response { status: 403 }".to_string()));
    assert_eq!(r.exit_code, 3);
    assert_eq!(r.message, "Purging all files is disabled for resource=12345: Response { status: 403 }");
    assert!(!r.message.contains("credentials"));
}

#[test]
fn forbidden_elsewhere_uses_shared_table() {
    let c = Command::JobsList { resource_id: 7, job_type: cdn77_client::selectors::JobType::Purge };
    let d = route_status(c.operation(), 403);
    assert_eq!(d, StatusDecision::Forbidden);
    let r = status_report(&c, d, 403, &None);
    assert_eq!(r.exit_code, 3);
    assert_eq!(r.message, "Got 403/forbidden. Please check your credentials or the API operation args.");
}

#[test]
fn shared_table_covers_documented_codes() {
    assert_eq!(handle_default_response_status_codes(401), StatusDecision::Unauthorized);
    assert_eq!(handle_default_response_status_codes(403), StatusDecision::Forbidden);
    assert_eq!(handle_default_response_status_codes(404), StatusDecision::NotFound);
    assert_eq!(handle_default_response_status_codes(405), StatusDecision::MethodNotAllowed);
    assert_eq!(handle_default_response_status_codes(422), StatusDecision::UnprocessableEntity);
    assert_eq!(handle_default_response_status_codes(500), StatusDecision::Unknown);
    assert_eq!(handle_default_response_status_codes(200), StatusDecision::Unknown);
}

#[test]
fn payload_status_decodes() {
    assert_eq!(route_status(Operation::CreditBalance, 200), StatusDecision::Decode);
    assert_eq!(route_status(Operation::JobsPrefetch, 202), StatusDecision::Decode);
    assert_eq!(route_status(Operation::JobsPurgeAll, 202), StatusDecision::Decode);
    assert_eq!(route_status(Operation::StatsSum, 200), StatusDecision::Decode);
}

#[test]
fn job_mutation_with_ok_instead_of_accepted_is_unknown() {
    assert_eq!(route_status(Operation::JobsPrefetch, 200), StatusDecision::Unknown);
}

#[test]
fn billing_not_found_is_informational_success() {
    let c = Command::CreditBalance;
    let d = route_status(c.operation(), 404);
    assert_eq!(d, StatusDecision::NoActivePlan);
    let r = status_report(&c, d, 404, &None);
    assert_eq!(r.exit_code, 0);
    assert_eq!(r.message, "You do not have a PAYG tariff nor Monthly Plan active");
}

#[test]
fn storage_not_found_is_informational_success() {
    assert_eq!(route_status(Operation::StorageDetail, 404), StatusDecision::NoActivePlan);
    assert_eq!(route_status(Operation::StorageList, 404), StatusDecision::NoActivePlan);
}

#[test]
fn job_list_not_found_uses_shared_table() {
    let c = Command::JobsList { resource_id: 1, job_type: cdn77_client::selectors::JobType::Prefetch };
    let d = route_status(c.operation(), 404);
    assert_eq!(d, StatusDecision::NotFound);
    let r = status_report(&c, d, 404, &None);
    assert_eq!(r.exit_code, 3);
    assert_eq!(r.stream, Stream::Stdout);
    assert_eq!(r.message, "The requested resource was not found. Please validate your args.");
}

#[test]
fn job_detail_not_found_names_the_job() {
    let c = Command::JobsDetail { resource_id: 12, job_id: "ab-9".to_string() };
    let d = route_status(c.operation(), 404);
    let r = status_report(&c, d, 404, &None);
    assert_eq!(r.exit_code, 3);
    assert_eq!(r.message, "Didn't find job_id=ab-9 for resource_id=12");
}

#[test]
fn prefetch_and_purge_not_found_messages() {
    let c = Command::JobsPrefetch { resource_id: 5, paths: "/a".to_string(), upstream_host: None };
    let r = status_report(&c, route_status(c.operation(), 404), 404, &None);
    assert_eq!(r.message, "Cannot prefetch paths, didn't find resource_id=5");
    let c = Command::JobsPurge { resource_id: 6, paths: "/a".to_string() };
    let r = status_report(&c, route_status(c.operation(), 404), 404, &None);
    assert_eq!(r.message, "Cannot purge paths, didn't find resource_id=6");
    assert_eq!(r.exit_code, 3);
}

#[test]
fn purge_all_not_found_goes_to_stderr() {
    let c = purge_all(9);
    let r = status_report(&c, route_status(c.operation(), 404), 404, &None);
    assert_eq!(r.message, "Didn't find resource_id=9");
    assert_eq!(r.stream, Stream::Stderr);
    assert_eq!(r.exit_code, 3);
}

#[test]
fn stats_not_found_shows_body() {
    let c = Command::StatsGet { stat_type: GetStatsType::Traffic, args: stats_args(), aggregation: None };
    let d = route_status(c.operation(), 404);
    assert_eq!(d, StatusDecision::StatsRejected);
    assert!(d.needs_body());
    let r = status_report(&c, d, 404, &Some("needs grouping".to_string()));
    assert_eq!(r.message, "Could not get stats for this type without grouping: needs grouping");
    assert_eq!(r.exit_code, 3);
}

#[test]
fn stats_sum_not_found_with_unreadable_body() {
    let c = Command::StatsSum { stat_type: "costs".to_string(), args: stats_args() };
    let r = status_report(&c, route_status(c.operation(), 404), 404, &None);
    assert_eq!(r.message, "Couldn't get stats sum: FAILED TO READ RESPONSE, EMPTY?");
}

#[test]
fn method_not_allowed_and_unprocessable_are_unexpected() {
    let c = Command::StorageList;
    let r = status_report(&c, route_status(c.operation(), 405), 405, &None);
    assert_eq!(r.exit_code, 4);
    let r = status_report(&c, route_status(c.operation(), 422), 422, &None);
    assert_eq!(r.exit_code, 4);
    assert_eq!(r.message, "Received 422/UnprocessableEntity. This might be an issue with this client, please check for an update.");
}

#[test]
fn unauthorized_is_expected_error() {
    let c = Command::StorageList;
    let r = status_report(&c, route_status(c.operation(), 401), 401, &None);
    assert_eq!(r.exit_code, 3);
    assert_eq!(r.stream, Stream::Stderr);
    assert_eq!(r.message, "Got 401/unauthorized. Please check your credentials.");
}

#[test]
fn unknown_status_shows_code_and_body() {
    let c = Command::CreditBalance;
    let d = route_status(c.operation(), 503);
    assert_eq!(d, StatusDecision::Unknown);
    let r = status_report(&c, d, 503, &Some("maintenance".to_string()));
    assert_eq!(r.exit_code, 4);
    assert_eq!(r.message, "Received unexpected/unknown status code=503, please check the response for an explanation: maintenance");
}
