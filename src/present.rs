//! The text shown for successful answers whose values the library holds.
use vstd::prelude::*;
use vstd::string::*;

use crate::text::{decimal_string, decimal_text};

verus! {

/// A storage location of the account.
#[derive(Debug)]
pub struct StorageLocation {
    pub id: String,
    pub location: String,
}

/// Decimal notation of a signed integer.
pub open spec fn signed_decimal_text(v: int) -> Seq<char> {
    if v < 0 {
        seq!['-'] + decimal_text((-v) as nat)
    } else {
        decimal_text(v as nat)
    }
}

pub open spec fn storage_entry_text(i: nat, e: StorageLocation) -> Seq<char> {
    "\n\nLocation #"@ + decimal_text(i) + "\nID="@ + e.id@ + "\nLocation="@ + e.location@
}

pub open spec fn storage_entries_text(es: Seq<StorageLocation>) -> Seq<char>
    decreases es.len(),
{
    if es.len() == 0 {
        Seq::empty()
    } else {
        storage_entries_text(es.drop_last()) + storage_entry_text((es.len() - 1) as nat, es.last())
    }
}

pub open spec fn storage_list_text(es: Seq<StorageLocation>) -> Seq<char> {
    "Found "@ + decimal_text(es.len()) + " storage locations"@ + storage_entries_text(es)
}

pub fn signed_decimal_string(v: i64) -> (r: String)
    ensures
        r@ == signed_decimal_text(v as int),
{
    if v < 0 {
        let magnitude: u64 = (-(v + 1)) as u64 + 1;
        let mut s = String::from_str("-");
        s.append(decimal_string(magnitude).as_str());
        proof {
            reveal_strlit("-");
        }
        s
    } else {
        decimal_string(v as u64)
    }
}

/// `Percentile: <value>`
pub fn render_percentile(percentile: i64) -> (r: String)
    ensures
        r@ == "Percentile: "@ + signed_decimal_text(percentile as int),
{
    let mut s = String::from_str("Percentile: ");
    s.append(signed_decimal_string(percentile).as_str());
    s
}

/// The count of storage locations, then each one with its index.
pub fn render_storage_list(entries: &Vec<StorageLocation>) -> (r: String)
    ensures
        r@ == storage_list_text(entries@),
{
    let mut s = String::from_str("Found ");
    s.append(decimal_string(entries.len() as u64).as_str());
    s.append(" storage locations");
    let ghost head = s@;
    let mut i: usize = 0;
    assert(entries@.subrange(0, 0) =~= Seq::<StorageLocation>::empty());
    assert(s@ =~= head + storage_entries_text(entries@.subrange(0, 0)));
    while i < entries.len()
        invariant
            i <= entries.len(),
            head == "Found "@ + decimal_text(entries@.len()) + " storage locations"@,
            s@ == head + storage_entries_text(entries@.subrange(0, i as int)),
        decreases entries.len() - i,
    {
        let e = &entries[i];
        s.append("\n\nLocation #");
        s.append(decimal_string(i as u64).as_str());
        s.append("\nID=");
        s.append(e.id.as_str());
        s.append("\nLocation=");
        s.append(e.location.as_str());
        proof {
            let prefix = entries@.subrange(0, i + 1);
            assert(prefix.drop_last() =~= entries@.subrange(0, i as int));
            assert(prefix.last() == entries@[i as int]);
        }
        assert(s@ =~= head + storage_entries_text(entries@.subrange(0, i + 1)));
        i = i + 1;
    }
    assert(entries@.subrange(0, entries.len() as int) =~= entries@);
    s
}

/// `ID=<id>` and `Location=<location>` on two lines.
pub fn render_storage_detail(entry: &StorageLocation) -> (r: String)
    ensures
        r@ == "ID="@ + entry.id@ + "\nLocation="@ + entry.location@,
{
    let mut s = String::from_str("ID=");
    s.append(entry.id.as_str());
    s.append("\nLocation=");
    s.append(entry.location.as_str());
    s
}

/// A job of a job log. `cdn` is the text of the job's resource map.
#[derive(Debug)]
pub struct JobSummary {
    pub id: String,
    pub kind: String,
    pub cdn: String,
    pub paths_count: u64,
    pub state: String,
    pub queued_at: String,
    pub done_at: String,
}

/// A job with its paths. `cdn` and `paths` are the texts of the resource map and the path list.
#[derive(Debug)]
pub struct JobDetail {
    pub id: String,
    pub kind: String,
    pub cdn: String,
    pub paths: String,
    pub paths_count: u64,
    pub state: String,
    pub queued_at: String,
    pub done_at: String,
}

/// A job just accepted: a prefetch or a purge of paths.
#[derive(Debug)]
pub struct JobCreated {
    pub id: String,
    pub kind: String,
    pub cdn: String,
    pub paths: String,
    pub paths_count: u64,
    pub state: String,
    pub queued_at: String,
}

/// A purge of all files just accepted.
#[derive(Debug)]
pub struct PurgeAllJob {
    pub id: String,
    pub kind: String,
    pub cdn: String,
    pub state: String,
    pub queued_at: String,
    pub done_at: String,
}

pub open spec fn job_summary_text(i: nat, j: JobSummary) -> Seq<char> {
    "\nJob #"@ + decimal_text(i) + "\nID="@ + j.id@ + "\nType="@ + j.kind@ + "\nCDN="@ + j.cdn@
        + "\nPathsCount="@ + decimal_text(j.paths_count as nat) + "\nState="@ + j.state@
        + "\nQueuedAt="@ + j.queued_at@ + "\nDoneAt="@ + j.done_at@
}

pub open spec fn job_summaries_text(js: Seq<JobSummary>) -> Seq<char>
    decreases js.len(),
{
    if js.len() == 0 {
        Seq::empty()
    } else {
        job_summaries_text(js.drop_last()) + job_summary_text((js.len() - 1) as nat, js.last())
    }
}

pub open spec fn job_list_text(js: Seq<JobSummary>) -> Seq<char> {
    "Found "@ + decimal_text(js.len()) + " jobs"@ + job_summaries_text(js)
}

pub open spec fn job_detail_text(j: JobDetail) -> Seq<char> {
    "Found Job"@ + "\nID="@ + j.id@ + "\nType="@ + j.kind@ + "\nCDN="@ + j.cdn@ + "\nPaths="@ + j.paths@
        + "\nPathsCount="@ + decimal_text(j.paths_count as nat) + "\nState="@ + j.state@
        + "\nQueuedAt="@ + j.queued_at@ + "\nDoneAt="@ + j.done_at@
}

pub open spec fn job_created_text(j: JobCreated) -> Seq<char> {
    "Successfully executed "@ + j.kind@ + " of resource_ids="@ + j.cdn@ + "\nJobID="@ + j.id@
        + "\nPaths="@ + decimal_text(j.paths_count as nat) + "/"@ + j.paths@ + "\nState="@
        + j.state@ + "\nQueuedAt="@ + j.queued_at@
}

pub open spec fn purge_all_job_text(j: PurgeAllJob) -> Seq<char> {
    "Successfully executed "@ + j.kind@ + " of resource IDs "@ + j.cdn@ + "\nJobID="@ + j.id@
        + "\nType="@ + j.kind@ + "\nState="@ + j.state@ + "\nQueuedAt="@ + j.queued_at@
        + "\nDoneAt="@ + j.done_at@
}

/// Appends `label` and then `value`.
fn push_field(s: &mut String, label: &str, value: &str)
    ensures
        final(s)@ == old(s)@ + label@ + value@,
{
    s.append(label);
    s.append(value);
}

fn render_job_summary(i: u64, j: &JobSummary) -> (r: String)
    ensures
        r@ == job_summary_text(i as nat, *j),
{
    let mut s = String::new();
    push_field(&mut s, "\nJob #", decimal_string(i).as_str());
    push_field(&mut s, "\nID=", j.id.as_str());
    push_field(&mut s, "\nType=", j.kind.as_str());
    push_field(&mut s, "\nCDN=", j.cdn.as_str());
    push_field(&mut s, "\nPathsCount=", decimal_string(j.paths_count).as_str());
    push_field(&mut s, "\nState=", j.state.as_str());
    push_field(&mut s, "\nQueuedAt=", j.queued_at.as_str());
    push_field(&mut s, "\nDoneAt=", j.done_at.as_str());
    assert(s@ =~= job_summary_text(i as nat, *j));
    s
}

/// The count of jobs, then each one with its index.
pub fn render_job_list(jobs: &Vec<JobSummary>) -> (r: String)
    ensures
        r@ == job_list_text(jobs@),
{
    let mut s = String::from_str("Found ");
    s.append(decimal_string(jobs.len() as u64).as_str());
    s.append(" jobs");
    let ghost head = s@;
    let mut i: usize = 0;
    assert(jobs@.subrange(0, 0) =~= Seq::<JobSummary>::empty());
    assert(s@ =~= head + job_summaries_text(jobs@.subrange(0, 0)));
    while i < jobs.len()
        invariant
            i <= jobs.len(),
            head == "Found "@ + decimal_text(jobs@.len()) + " jobs"@,
            s@ == head + job_summaries_text(jobs@.subrange(0, i as int)),
        decreases jobs.len() - i,
    {
        let ghost before = s@;
        s.append(render_job_summary(i as u64, &jobs[i]).as_str());
        proof {
            let prefix = jobs@.subrange(0, i + 1);
            assert(prefix.drop_last() =~= jobs@.subrange(0, i as int));
            assert(prefix.last() == jobs@[i as int]);
        }
        assert(s@ =~= head + job_summaries_text(jobs@.subrange(0, i + 1)));
        i = i + 1;
    }
    assert(jobs@.subrange(0, jobs.len() as int) =~= jobs@);
    s
}

pub fn render_job_detail(j: &JobDetail) -> (r: String)
    ensures
        r@ == job_detail_text(*j),
{
    let mut s = String::from_str("Found Job");
    push_field(&mut s, "\nID=", j.id.as_str());
    push_field(&mut s, "\nType=", j.kind.as_str());
    push_field(&mut s, "\nCDN=", j.cdn.as_str());
    push_field(&mut s, "\nPaths=", j.paths.as_str());
    push_field(&mut s, "\nPathsCount=", decimal_string(j.paths_count).as_str());
    push_field(&mut s, "\nState=", j.state.as_str());
    push_field(&mut s, "\nQueuedAt=", j.queued_at.as_str());
    push_field(&mut s, "\nDoneAt=", j.done_at.as_str());
    assert(s@ =~= job_detail_text(*j));
    s
}

pub fn render_job_created(j: &JobCreated) -> (r: String)
    ensures
        r@ == job_created_text(*j),
{
    let mut s = String::from_str("Successfully executed ");
    s.append(j.kind.as_str());
    push_field(&mut s, " of resource_ids=", j.cdn.as_str());
    push_field(&mut s, "\nJobID=", j.id.as_str());
    push_field(&mut s, "\nPaths=", decimal_string(j.paths_count).as_str());
    push_field(&mut s, "/", j.paths.as_str());
    push_field(&mut s, "\nState=", j.state.as_str());
    push_field(&mut s, "\nQueuedAt=", j.queued_at.as_str());
    assert(s@ =~= job_created_text(*j));
    s
}

pub fn render_purge_all_job(j: &PurgeAllJob) -> (r: String)
    ensures
        r@ == purge_all_job_text(*j),
{
    let mut s = String::from_str("Successfully executed ");
    s.append(j.kind.as_str());
    push_field(&mut s, " of resource IDs ", j.cdn.as_str());
    push_field(&mut s, "\nJobID=", j.id.as_str());
    push_field(&mut s, "\nType=", j.kind.as_str());
    push_field(&mut s, "\nState=", j.state.as_str());
    push_field(&mut s, "\nQueuedAt=", j.queued_at.as_str());
    push_field(&mut s, "\nDoneAt=", j.done_at.as_str());
    assert(s@ =~= purge_all_job_text(*j));
    s
}

} // verus!
