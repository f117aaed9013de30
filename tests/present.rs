use cdn77_client::command::{plan_credit_balance, Operation};
use cdn77_client::present::{
    render_job_created, render_job_detail, render_job_list, render_percentile, render_purge_all_job, render_storage_detail,
    render_storage_list, signed_decimal_string, JobCreated, JobDetail, JobSummary, PurgeAllJob, StorageLocation,
};
use cdn77_client::status::{route_status, StatusDecision};

fn location(id: &str, name: &str) -> StorageLocation {
    StorageLocation { id: id.to_string(), location: name.to_string() }
}

#[test]
fn storage_list_text() {
    let text = render_storage_list(&vec![location("a1", "Prague"), location("b2", "London")]);
    assert_eq!(text, "Found 2 storage locations\n\nLocation #0\nID=a1\nLocation=Prague\n\nLocation #1\nID=b2\nLocation=London");
}

#[test]
fn storage_list_empty() {
    assert_eq!(render_storage_list(&vec![]), "Found 0 storage locations");
}

#[test]
fn storage_detail_text() {
    assert_eq!(render_storage_detail(&location("a1", "Prague")), "ID=a1\nLocation=Prague");
}

#[test]
fn percentile_text() {
    assert_eq!(render_percentile(1_048_576), "Percentile: 1048576");
    assert_eq!(render_percentile(-3), "Percentile: -3");
}

#[test]
fn signed_decimal_extremes() {
    assert_eq!(signed_decimal_string(i64::MIN), i64::MIN.to_string());
    assert_eq!(signed_decimal_string(i64::MAX), i64::MAX.to_string());
    assert_eq!(signed_decimal_string(0), "0");
}

#[test]
fn credit_balance_success_is_decoded() {
    assert_eq!(plan_credit_balance().url, "https://api.cdn77.com/v3/credit-balance");
    assert_eq!(route_status(Operation::CreditBalance, 200), StatusDecision::Decode);
}

fn summary(id: &str, count: u64) -> JobSummary {
    JobSummary {
        id: id.to_string(),
        kind: "purge".to_string(),
        cdn: "{\"cdn\": 5}".to_string(),
        paths_count: count,
        state: "done".to_string(),
        queued_at: "q".to_string(),
        done_at: "d".to_string(),
    }
}

#[test]
fn job_list_text() {
    let text = render_job_list(&vec![summary("j1", 2), summary("j2", 0)]);
    assert_eq!(
        text,
        "Found 2 jobs\nJob #0\nID=j1\nType=purge\nCDN={\"cdn\": 5}\nPathsCount=2\nState=done\nQueuedAt=q\nDoneAt=d\nJob #1\nID=j2\nType=purge\nCDN={\"cdn\": 5}\nPathsCount=0\nState=done\nQueuedAt=q\nDoneAt=d"
    );
    assert_eq!(render_job_list(&vec![]), "Found 0 jobs");
}

#[test]
fn job_detail_text() {
    let j = JobDetail {
        id: "j1".to_string(),
        kind: "prefetch".to_string(),
        cdn: "{}".to_string(),
        paths: "[\"/a\"]".to_string(),
        paths_count: 1,
        state: "queued".to_string(),
        queued_at: "t0".to_string(),
        done_at: "t1".to_string(),
    };
    assert_eq!(render_job_detail(&j), "Found Job\nID=j1\nType=prefetch\nCDN={}\nPaths=[\"/a\"]\nPathsCount=1\nState=queued\nQueuedAt=t0\nDoneAt=t1");
}

#[test]
fn job_created_text() {
    let j = JobCreated {
        id: "j9".to_string(),
        kind: "prefetch".to_string(),
        cdn: "{\"x\": 1}".to_string(),
        paths: "[\"/a\", \"/b\"]".to_string(),
        paths_count: 2,
        state: "queued".to_string(),
        queued_at: "t0".to_string(),
    };
    assert_eq!(
        render_job_created(&j),
        "Successfully executed prefetch of resource_ids={\"x\": 1}\nJobID=j9\nPaths=2/[\"/a\", \"/b\"]\nState=queued\nQueuedAt=t0"
    );
}

#[test]
fn purge_all_job_text() {
    let j = PurgeAllJob {
        id: "j3".to_string(),
        kind: "purge-all".to_string(),
        cdn: "{}".to_string(),
        state: "queued".to_string(),
        queued_at: "t0".to_string(),
        done_at: "t1".to_string(),
    };
    assert_eq!(
        render_purge_all_job(&j),
        "Successfully executed purge-all of resource IDs {}\nJobID=j3\nType=purge-all\nState=queued\nQueuedAt=t0\nDoneAt=t1"
    );
}
