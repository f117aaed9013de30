//! Commands and the requests they turn into. Planning a request checks every
//! parameter first, so a command with bad input never reaches the network.
use vstd::prelude::*;
use vstd::string::*;

use crate::datetime::{date_time_of, epoch_seconds, parse_date_time_or_exit};
use crate::outcome::{Report, Stream};
use crate::params::{
    all_numeric, list_items, malformed_ids_message, no_paths_message, parse_optional_location_ids,
    parse_paths, parse_resource_ids_optional, values_of, ResourceId,
};
use crate::selectors::{is_sum_type_name, job_type_name, stats_type_name, is_sum_stat_type, GetStatsType, JobType};
use crate::text::{decimal_string, decimal_text};
use crate::{CDN77_API_BASE, EXIT_CODE_INVALID_INPUT};

verus! {

/// The time range and filters shared by the statistics commands, as given on the command line.
#[derive(Debug)]
pub struct StatsArgs {
    /// Start, `YYYY-MM-DD hh:mm`.
    pub from: String,
    /// End, `YYYY-MM-DD hh:mm`.
    pub to: String,
    /// Comma-separated resource IDs; all resources when absent.
    pub resource_ids: Option<String>,
    /// Comma-separated location names; all locations when absent.
    pub location_ids: Option<String>,
}

/// One operation of the API with its parameters as the user gave them.
#[derive(Debug)]
pub enum Command {
    CreditBalance,
    JobsList { resource_id: ResourceId, job_type: JobType },
    JobsDetail { resource_id: ResourceId, job_id: String },
    JobsPrefetch { resource_id: ResourceId, paths: String, upstream_host: Option<String> },
    JobsPurge { resource_id: ResourceId, paths: String },
    JobsPurgeAll { resource_id: ResourceId },
    StatsGet { stat_type: GetStatsType, args: StatsArgs, aggregation: Option<String> },
    StatsBandwidthPercentile { args: StatsArgs },
    StatsByResource { stat_type: GetStatsType, args: StatsArgs, aggregation: Option<String> },
    StatsSumByResource { stat_type: String, args: StatsArgs },
    StatsByDataCenter { stat_type: GetStatsType, args: StatsArgs, aggregation: Option<String> },
    StatsSumByDataCenter { stat_type: String, args: StatsArgs },
    StatsSum { stat_type: String, args: StatsArgs },
    StorageList,
    StorageDetail { storage_id: String },
}

/// The operation of a command, without its parameters.
#[derive(Clone, Copy, Debug, PartialEq, Eq, Structural)]
pub enum Operation {
    CreditBalance,
    JobsList,
    JobsDetail,
    JobsPrefetch,
    JobsPurge,
    JobsPurgeAll,
    StatsGet,
    StatsBandwidthPercentile,
    StatsByResource,
    StatsSumByResource,
    StatsByDataCenter,
    StatsSumByDataCenter,
    StatsSum,
    StorageList,
    StorageDetail,
}

pub open spec fn operation_of(c: Command) -> Operation {
    match c {
        Command::CreditBalance => Operation::CreditBalance,
        Command::JobsList { .. } => Operation::JobsList,
        Command::JobsDetail { .. } => Operation::JobsDetail,
        Command::JobsPrefetch { .. } => Operation::JobsPrefetch,
        Command::JobsPurge { .. } => Operation::JobsPurge,
        Command::JobsPurgeAll { .. } => Operation::JobsPurgeAll,
        Command::StatsGet { .. } => Operation::StatsGet,
        Command::StatsBandwidthPercentile { .. } => Operation::StatsBandwidthPercentile,
        Command::StatsByResource { .. } => Operation::StatsByResource,
        Command::StatsSumByResource { .. } => Operation::StatsSumByResource,
        Command::StatsByDataCenter { .. } => Operation::StatsByDataCenter,
        Command::StatsSumByDataCenter { .. } => Operation::StatsSumByDataCenter,
        Command::StatsSum { .. } => Operation::StatsSum,
        Command::StorageList => Operation::StorageList,
        Command::StorageDetail { .. } => Operation::StorageDetail,
    }
}

/// The resource a job command works on (0 for the other commands).
pub open spec fn resource_id_of(c: Command) -> u64 {
    match c {
        Command::JobsList { resource_id, .. } => resource_id,
        Command::JobsDetail { resource_id, .. } => resource_id,
        Command::JobsPrefetch { resource_id, .. } => resource_id,
        Command::JobsPurge { resource_id, .. } => resource_id,
        Command::JobsPurgeAll { resource_id } => resource_id,
        _ => 0,
    }
}

/// The job a detail command asks for (empty for the other commands).
pub open spec fn job_id_of(c: Command) -> Seq<char> {
    match c {
        Command::JobsDetail { job_id, .. } => job_id@,
        _ => Seq::empty(),
    }
}

impl Command {
    pub fn operation(&self) -> (r: Operation)
        ensures
            r == operation_of(*self),
    {
        match self {
            Command::CreditBalance => Operation::CreditBalance,
            Command::JobsList { .. } => Operation::JobsList,
            Command::JobsDetail { .. } => Operation::JobsDetail,
            Command::JobsPrefetch { .. } => Operation::JobsPrefetch,
            Command::JobsPurge { .. } => Operation::JobsPurge,
            Command::JobsPurgeAll { .. } => Operation::JobsPurgeAll,
            Command::StatsGet { .. } => Operation::StatsGet,
            Command::StatsBandwidthPercentile { .. } => Operation::StatsBandwidthPercentile,
            Command::StatsByResource { .. } => Operation::StatsByResource,
            Command::StatsSumByResource { .. } => Operation::StatsSumByResource,
            Command::StatsByDataCenter { .. } => Operation::StatsByDataCenter,
            Command::StatsSumByDataCenter { .. } => Operation::StatsSumByDataCenter,
            Command::StatsSum { .. } => Operation::StatsSum,
            Command::StorageList => Operation::StorageList,
            Command::StorageDetail { .. } => Operation::StorageDetail,
        }
    }

    pub fn resource_id(&self) -> (r: u64)
        ensures
            r == resource_id_of(*self),
    {
        match self {
            Command::JobsList { resource_id, .. } => *resource_id,
            Command::JobsDetail { resource_id, .. } => *resource_id,
            Command::JobsPrefetch { resource_id, .. } => *resource_id,
            Command::JobsPurge { resource_id, .. } => *resource_id,
            Command::JobsPurgeAll { resource_id } => *resource_id,
            _ => 0,
        }
    }

    pub fn job_id(&self) -> (r: &str)
        ensures
            r@ == job_id_of(*self),
    {
        match self {
            Command::JobsDetail { job_id, .. } => job_id.as_str(),
            _ => {
                proof {
                    reveal_strlit("");
                }
                ""
            },
        }
    }
}

#[derive(Clone, Copy, Debug, PartialEq, Eq, Structural)]
pub enum Method {
    Get,
    Post,
}

/// The filters of a statistics request, with the range in Unix seconds.
#[derive(Debug)]
pub struct StatsQuery {
    pub from: i64,
    pub to: i64,
    pub cdn_ids: Option<Vec<ResourceId>>,
    pub location_ids: Option<Vec<String>>,
}

/// The JSON body a request carries.
#[derive(Debug)]
pub enum RequestBody {
    Empty,
    /// `{paths}`
    Purge { paths: Vec<String> },
    /// `{paths, upstream_host}`
    Prefetch { paths: Vec<String>, upstream_host: Option<String> },
    /// `{from, to, cdn_ids, location_ids, aggregation}`
    Stats { query: StatsQuery, aggregation: Option<String> },
    /// `{from, to, cdn_ids, location_ids}`: percentile and sums
    StatsTotal { query: StatsQuery },
}

/// A request ready to be sent.
#[derive(Debug)]
pub struct ApiRequest {
    pub method: Method,
    pub url: String,
    pub body: RequestBody,
}

pub open spec fn api_url(path: Seq<char>) -> Seq<char> {
    CDN77_API_BASE@ + path
}

pub open spec fn start_date_message() -> Seq<char> {
    "Start date/time is not in a correct format"@
}

pub open spec fn end_date_message() -> Seq<char> {
    "End date/time is not in a correct format"@
}

/// Why statistics arguments are rejected, checked in order: the start, the
/// end, then the resource IDs.
pub open spec fn stats_args_failure(a: StatsArgs) -> Option<(Seq<char>, Stream)> {
    if date_time_of(a.from@) is None {
        Some((start_date_message(), Stream::Stdout))
    } else if date_time_of(a.to@) is None {
        Some((end_date_message(), Stream::Stdout))
    } else if a.resource_ids is Some && !all_numeric(list_items(a.resource_ids->0@)) {
        Some((malformed_ids_message(), Stream::Stderr))
    } else {
        None
    }
}

/// The query that valid statistics arguments denote.
pub open spec fn query_matches(q: StatsQuery, a: StatsArgs) -> bool {
    &&& q.from == epoch_seconds(date_time_of(a.from@)->0)
    &&& q.to == epoch_seconds(date_time_of(a.to@)->0)
    &&& (a.resource_ids is None ==> q.cdn_ids is None)
    &&& (a.resource_ids is Some ==> q.cdn_ids is Some && q.cdn_ids->0@ == values_of(
        list_items(a.resource_ids->0@),
    ))
    &&& (a.location_ids is None ==> q.location_ids is None)
    &&& (a.location_ids is Some ==> q.location_ids is Some && q.location_ids->0.deep_view()
        == list_items(a.location_ids->0@))
}

pub open spec fn is_input_report(r: Report, message: Seq<char>, stream: Stream) -> bool {
    r.message@ == message && r.stream == stream && r.exit_code == EXIT_CODE_INVALID_INPUT
}

/// `r` is the invalid-input report of the failure `f`.
pub open spec fn reports_failure(r: Report, f: Option<(Seq<char>, Stream)>) -> bool {
    match f {
        Some((message, stream)) => is_input_report(r, message, stream),
        None => false,
    }
}

pub open spec fn invalid_stat_type_message(stat_type: Seq<char>) -> Seq<char> {
    "Invalid stat type: "@ + stat_type
}

fn url(path: &str) -> (r: String)
    ensures
        r@ == api_url(path@),
{
    let mut u = String::from_str(CDN77_API_BASE);
    u.append(path);
    u
}

/// Checks the time range and filters of a statistics command.
pub fn stats_query(args: &StatsArgs) -> (r: Result<StatsQuery, Report>)
    ensures
        r is Err <==> stats_args_failure(*args) is Some,
        r is Err ==> reports_failure(r->Err_0, stats_args_failure(*args)),
        r is Ok ==> query_matches(r->Ok_0, *args),
{
    let from = match parse_date_time_or_exit(
        args.from.as_str(),
        "Start date/time is not in a correct format",
    ) {
        Ok(d) => d,
        Err(e) => {
            return Err(e);
        },
    };
    let to = match parse_date_time_or_exit(args.to.as_str(), "End date/time is not in a correct format") {
        Ok(d) => d,
        Err(e) => {
            return Err(e);
        },
    };
    let cdn_ids = match parse_resource_ids_optional(&args.resource_ids) {
        Ok(ids) => ids,
        Err(e) => {
            return Err(e);
        },
    };
    let location_ids = parse_optional_location_ids(&args.location_ids);
    Ok(StatsQuery { from: from.timestamp, to: to.timestamp, cdn_ids, location_ids })
}

/// Checks a statistics name given to a sum endpoint.
fn check_sum_type(stat_type: &String) -> (r: Result<(), Report>)
    ensures
        r is Ok <==> is_sum_type_name(stat_type@),
        r is Err ==> is_input_report(r->Err_0, invalid_stat_type_message(stat_type@), Stream::Stderr),
{
    if is_sum_stat_type(stat_type.as_str()) {
        Ok(())
    } else {
        let mut m = String::from_str("Invalid stat type: ");
        m.append(stat_type.as_str());
        Err(Report::invalid_input(m))
    }
}

/// `GET /credit-balance`
pub fn plan_credit_balance() -> (r: ApiRequest)
    ensures
        r.method == Method::Get,
        r.url@ == api_url("/credit-balance"@),
        r.body is Empty,
{
    ApiRequest { method: Method::Get, url: url("/credit-balance"), body: RequestBody::Empty }
}

/// `GET /cdn/{id}/job-log/{type}`
pub fn plan_jobs_list(resource_id: ResourceId, job_type: JobType) -> (r: ApiRequest)
    ensures
        r.method == Method::Get,
        r.url@ == api_url(
            "/cdn/"@ + decimal_text(resource_id as nat) + "/job-log/"@ + job_type_name(job_type),
        ),
        r.body is Empty,
{
    let mut u = url("/cdn/");
    u.append(decimal_string(resource_id).as_str());
    u.append("/job-log/");
    u.append(job_type.name());
    ApiRequest { method: Method::Get, url: u, body: RequestBody::Empty }
}

/// `GET /cdn/{id}/job/{job_id}`
pub fn plan_jobs_detail(resource_id: ResourceId, job_id: &str) -> (r: ApiRequest)
    ensures
        r.method == Method::Get,
        r.url@ == api_url("/cdn/"@ + decimal_text(resource_id as nat) + "/job/"@ + job_id@),
        r.body is Empty,
{
    let mut u = url("/cdn/");
    u.append(decimal_string(resource_id).as_str());
    u.append("/job/");
    u.append(job_id);
    ApiRequest { method: Method::Get, url: u, body: RequestBody::Empty }
}

/// `POST /cdn/{id}/job/{kind}` with the checked path list; no path at all is
/// invalid input.
pub fn plan_jobs_prefetch(resource_id: ResourceId, paths: &str, upstream_host: &Option<String>) -> (r:
    Result<ApiRequest, Report>)
    ensures
        r is Err <==> list_items(paths@).len() == 0,
        r is Err ==> is_input_report(r->Err_0, no_paths_message(), Stream::Stderr),
        r is Ok ==> r->Ok_0.method == Method::Post,
        r is Ok ==> r->Ok_0.url@ == api_url("/cdn/"@ + decimal_text(resource_id as nat) + "/job/prefetch"@),
        r is Ok ==> (r->Ok_0.body matches RequestBody::Prefetch { paths: p, upstream_host: h } && p.deep_view() == list_items(paths@) && h == *upstream_host),
{
    let paths = match parse_paths(paths) {
        Ok(p) => p,
        Err(e) => {
            return Err(e);
        },
    };
    let mut u = url("/cdn/");
    u.append(decimal_string(resource_id).as_str());
    u.append("/job/prefetch");
    let upstream_host = match upstream_host {
        Some(h) => Some(h.clone()),
        None => None,
    };
    Ok(ApiRequest { method: Method::Post, url: u, body: RequestBody::Prefetch { paths, upstream_host } })
}

/// `POST /cdn/{id}/job/purge` with the checked path list.
pub fn plan_jobs_purge(resource_id: ResourceId, paths: &str) -> (r: Result<ApiRequest, Report>)
    ensures
        r is Err <==> list_items(paths@).len() == 0,
        r is Err ==> is_input_report(r->Err_0, no_paths_message(), Stream::Stderr),
        r is Ok ==> r->Ok_0.method == Method::Post,
        r is Ok ==> r->Ok_0.url@ == api_url("/cdn/"@ + decimal_text(resource_id as nat) + "/job/purge"@),
        r is Ok ==> (r->Ok_0.body matches RequestBody::Purge { paths: p } && p.deep_view() == list_items( paths@, )),
{
    let paths = match parse_paths(paths) {
        Ok(p) => p,
        Err(e) => {
            return Err(e);
        },
    };
    let mut u = url("/cdn/");
    u.append(decimal_string(resource_id).as_str());
    u.append("/job/purge");
    Ok(ApiRequest { method: Method::Post, url: u, body: RequestBody::Purge { paths } })
}

/// `POST /cdn/{id}/job/purge-all`
pub fn plan_jobs_purge_all(resource_id: ResourceId) -> (r: ApiRequest)
    ensures
        r.method == Method::Post,
        r.url@ == api_url("/cdn/"@ + decimal_text(resource_id as nat) + "/job/purge-all"@),
        r.body is Empty,
{
    let mut u = url("/cdn/");
    u.append(decimal_string(resource_id).as_str());
    u.append("/job/purge-all");
    ApiRequest { method: Method::Post, url: u, body: RequestBody::Empty }
}

/// A statistics request on `prefix + type`, with an aggregation.
fn plan_stats_aggregated(prefix: &str, stat_type: GetStatsType, args: &StatsArgs, aggregation: &Option<String>) -> (r: Result<ApiRequest, Report>)
    ensures
        r is Err <==> stats_args_failure(*args) is Some,
        r is Err ==> reports_failure(r->Err_0, stats_args_failure(*args)),
        r is Ok ==> r->Ok_0.method == Method::Post,
        r is Ok ==> r->Ok_0.url@ == api_url(prefix@ + stats_type_name(stat_type)),
        r is Ok ==> (r->Ok_0.body matches RequestBody::Stats { query: q, aggregation: a } && query_matches( q, *args, ) && a == *aggregation),
{
    let query = match stats_query(args) {
        Ok(q) => q,
        Err(e) => {
            return Err(e);
        },
    };
    let mut u = url(prefix);
    u.append(stat_type.name());
    let aggregation = match aggregation {
        Some(a) => Some(a.clone()),
        None => None,
    };
    Ok(ApiRequest { method: Method::Post, url: u, body: RequestBody::Stats { query, aggregation } })
}

/// A sum request on `prefix + type`; the type must be one the sum endpoints accept.
fn plan_stats_total(prefix: &str, stat_type: &String, args: &StatsArgs) -> (r: Result<ApiRequest, Report>)
    ensures
        r is Err <==> !is_sum_type_name(stat_type@) || stats_args_failure(*args) is Some,
        r is Err && !is_sum_type_name(stat_type@) ==> is_input_report(
            r->Err_0,
            invalid_stat_type_message(stat_type@),
            Stream::Stderr,
        ),
        r is Err && is_sum_type_name(stat_type@) ==> reports_failure(r->Err_0, stats_args_failure(*args)),
        r is Ok ==> r->Ok_0.method == Method::Post,
        r is Ok ==> r->Ok_0.url@ == api_url(prefix@ + stat_type@),
        r is Ok ==> (r->Ok_0.body matches RequestBody::StatsTotal { query: q } && query_matches(q, *args)),
{
    match check_sum_type(stat_type) {
        Ok(()) => {},
        Err(e) => {
            return Err(e);
        },
    }
    let query = match stats_query(args) {
        Ok(q) => q,
        Err(e) => {
            return Err(e);
        },
    };
    let mut u = url(prefix);
    u.append(stat_type.as_str());
    Ok(ApiRequest { method: Method::Post, url: u, body: RequestBody::StatsTotal { query } })
}

/// `POST /stats/{type}`
pub fn plan_stats_get(stat_type: GetStatsType, args: &StatsArgs, aggregation: &Option<String>) -> (r: Result<ApiRequest, Report>)
    ensures
        r is Err <==> stats_args_failure(*args) is Some,
        r is Err ==> reports_failure(r->Err_0, stats_args_failure(*args)),
        r is Ok ==> r->Ok_0.method == Method::Post,
        r is Ok ==> r->Ok_0.url@ == api_url("/stats/"@ + stats_type_name(stat_type)),
        r is Ok ==> (r->Ok_0.body matches RequestBody::Stats { query: q, aggregation: a } && query_matches( q, *args, ) && a == *aggregation),
{
    plan_stats_aggregated("/stats/", stat_type, args, aggregation)
}

/// `POST /stats/cdns/{type}`
pub fn plan_stats_by_resource(stat_type: GetStatsType, args: &StatsArgs, aggregation: &Option<String>) -> (r: Result<ApiRequest, Report>)
    ensures
        r is Err <==> stats_args_failure(*args) is Some,
        r is Err ==> reports_failure(r->Err_0, stats_args_failure(*args)),
        r is Ok ==> r->Ok_0.method == Method::Post,
        r is Ok ==> r->Ok_0.url@ == api_url("/stats/cdns/"@ + stats_type_name(stat_type)),
        r is Ok ==> (r->Ok_0.body matches RequestBody::Stats { query: q, aggregation: a } && query_matches( q, *args, ) && a == *aggregation),
{
    plan_stats_aggregated("/stats/cdns/", stat_type, args, aggregation)
}

/// `POST /stats/datacenters/{type}`
pub fn plan_stats_by_data_center(stat_type: GetStatsType, args: &StatsArgs, aggregation: &Option<String>) -> (r: Result<ApiRequest, Report>)
    ensures
        r is Err <==> stats_args_failure(*args) is Some,
        r is Err ==> reports_failure(r->Err_0, stats_args_failure(*args)),
        r is Ok ==> r->Ok_0.method == Method::Post,
        r is Ok ==> r->Ok_0.url@ == api_url("/stats/datacenters/"@ + stats_type_name(stat_type)),
        r is Ok ==> (r->Ok_0.body matches RequestBody::Stats { query: q, aggregation: a } && query_matches( q, *args, ) && a == *aggregation),
{
    plan_stats_aggregated("/stats/datacenters/", stat_type, args, aggregation)
}

/// `POST /stats/bandwidth/percentile`
pub fn plan_stats_bandwidth_95th_percentile(args: &StatsArgs) -> (r: Result<ApiRequest, Report>)
    ensures
        r is Err <==> stats_args_failure(*args) is Some,
        r is Err ==> reports_failure(r->Err_0, stats_args_failure(*args)),
        r is Ok ==> r->Ok_0.method == Method::Post,
        r is Ok ==> r->Ok_0.url@ == api_url("/stats/bandwidth/percentile"@),
        r is Ok ==> (r->Ok_0.body matches RequestBody::StatsTotal { query: q } && query_matches(q, *args)),
{
    let query = match stats_query(args) {
        Ok(q) => q,
        Err(e) => {
            return Err(e);
        },
    };
    Ok(
        ApiRequest {
            method: Method::Post,
            url: url("/stats/bandwidth/percentile"),
            body: RequestBody::StatsTotal { query },
        },
    )
}

/// `POST /stats/cdns/sum/{type}`
pub fn plan_stats_sum_by_resource(stat_type: &String, args: &StatsArgs) -> (r: Result<ApiRequest, Report>)
    ensures
        r is Err <==> !is_sum_type_name(stat_type@) || stats_args_failure(*args) is Some,
        r is Err && !is_sum_type_name(stat_type@) ==> is_input_report(
            r->Err_0,
            invalid_stat_type_message(stat_type@),
            Stream::Stderr,
        ),
        r is Err && is_sum_type_name(stat_type@) ==> reports_failure(r->Err_0, stats_args_failure(*args)),
        r is Ok ==> r->Ok_0.method == Method::Post,
        r is Ok ==> r->Ok_0.url@ == api_url("/stats/cdns/sum/"@ + stat_type@),
        r is Ok ==> (r->Ok_0.body matches RequestBody::StatsTotal { query: q } && query_matches(q, *args)),
{
    plan_stats_total("/stats/cdns/sum/", stat_type, args)
}

/// `POST /stats/datacenters/sum/{type}`
pub fn plan_stats_sum_by_data_center(stat_type: &String, args: &StatsArgs) -> (r: Result<ApiRequest, Report>)
    ensures
        r is Err <==> !is_sum_type_name(stat_type@) || stats_args_failure(*args) is Some,
        r is Err && !is_sum_type_name(stat_type@) ==> is_input_report(
            r->Err_0,
            invalid_stat_type_message(stat_type@),
            Stream::Stderr,
        ),
        r is Err && is_sum_type_name(stat_type@) ==> reports_failure(r->Err_0, stats_args_failure(*args)),
        r is Ok ==> r->Ok_0.method == Method::Post,
        r is Ok ==> r->Ok_0.url@ == api_url("/stats/datacenters/sum/"@ + stat_type@),
        r is Ok ==> (r->Ok_0.body matches RequestBody::StatsTotal { query: q } && query_matches(q, *args)),
{
    plan_stats_total("/stats/datacenters/sum/", stat_type, args)
}

/// `POST /stats/sum/{type}`
pub fn plan_stats_sum(stat_type: &String, args: &StatsArgs) -> (r: Result<ApiRequest, Report>)
    ensures
        r is Err <==> !is_sum_type_name(stat_type@) || stats_args_failure(*args) is Some,
        r is Err && !is_sum_type_name(stat_type@) ==> is_input_report(
            r->Err_0,
            invalid_stat_type_message(stat_type@),
            Stream::Stderr,
        ),
        r is Err && is_sum_type_name(stat_type@) ==> reports_failure(r->Err_0, stats_args_failure(*args)),
        r is Ok ==> r->Ok_0.method == Method::Post,
        r is Ok ==> r->Ok_0.url@ == api_url("/stats/sum/"@ + stat_type@),
        r is Ok ==> (r->Ok_0.body matches RequestBody::StatsTotal { query: q } && query_matches(q, *args)),
{
    plan_stats_total("/stats/sum/", stat_type, args)
}

/// `GET /storage-location`
pub fn plan_storage_list() -> (r: ApiRequest)
    ensures
        r.method == Method::Get,
        r.url@ == api_url("/storage-location"@),
        r.body is Empty,
{
    ApiRequest { method: Method::Get, url: url("/storage-location"), body: RequestBody::Empty }
}

/// `GET /storage-location/{id}`
pub fn plan_storage_detail(storage_id: &str) -> (r: ApiRequest)
    ensures
        r.method == Method::Get,
        r.url@ == api_url("/storage-location/"@ + storage_id@),
        r.body is Empty,
{
    let mut u = url("/storage-location/");
    u.append(storage_id);
    ApiRequest { method: Method::Get, url: u, body: RequestBody::Empty }
}

} // verus!
