//! The closed selectors of job and statistics endpoints. Each has one table of
//! names, used both to read a command-line value and to build a request path.
use vstd::prelude::*;

use crate::text::str_equal;

verus! {

/// The kinds of job a resource keeps a log of.
#[derive(Clone, Copy, Debug, PartialEq, Eq, Structural)]
pub enum JobType {
    Prefetch,
    Purge,
    PurgeAll,
}

pub open spec fn job_type_name(t: JobType) -> Seq<char> {
    match t {
        JobType::Prefetch => "prefetch"@,
        JobType::Purge => "purge"@,
        JobType::PurgeAll => "purge-all"@,
    }
}

/// The job type a name stands for.
pub open spec fn job_type_of(s: Seq<char>) -> Option<JobType> {
    if s == job_type_name(JobType::Prefetch) {
        Some(JobType::Prefetch)
    } else if s == job_type_name(JobType::Purge) {
        Some(JobType::Purge)
    } else if s == job_type_name(JobType::PurgeAll) {
        Some(JobType::PurgeAll)
    } else {
        None
    }
}

impl JobType {
    /// The name used on the command line and in request paths.
    pub fn name(&self) -> (r: &'static str)
        ensures
            r@ == job_type_name(*self),
    {
        match self {
            JobType::Prefetch => "prefetch",
            JobType::Purge => "purge",
            JobType::PurgeAll => "purge-all",
        }
    }

    pub fn from_name(s: &str) -> (r: Option<JobType>)
        ensures
            r == job_type_of(s@),
    {
        if str_equal(s, JobType::Prefetch.name()) {
            Some(JobType::Prefetch)
        } else if str_equal(s, JobType::Purge.name()) {
            Some(JobType::Purge)
        } else if str_equal(s, JobType::PurgeAll.name()) {
            Some(JobType::PurgeAll)
        } else {
            None
        }
    }
}

impl std::str::FromStr for JobType {
    type Err = &'static str;

    fn from_str(s: &str) -> (r: Result<Self, Self::Err>)
        ensures
            job_type_of(s@) is Some ==> r == Ok::<JobType, &'static str>(job_type_of(s@)->0),
            job_type_of(s@) is None ==> r is Err && r->Err_0@ == "Invalid job type"@,
    {
        match JobType::from_name(s) {
            Some(t) => Ok(t),
            None => Err("Invalid job type"),
        }
    }
}

/// The statistics a query can ask for.
#[derive(Clone, Copy, Debug, PartialEq, Eq, Structural)]
pub enum GetStatsType {
    Bandwidth,
    Costs,
    Headers,
    HeadersDetail,
    HitMiss,
    HitMissDetail,
    Traffic,
    TrafficDetail,
}

pub open spec fn stats_type_name(t: GetStatsType) -> Seq<char> {
    match t {
        GetStatsType::Bandwidth => "bandwidth"@,
        GetStatsType::Costs => "costs"@,
        GetStatsType::Headers => "headers"@,
        GetStatsType::HeadersDetail => "headers-detail"@,
        GetStatsType::HitMiss => "hit-miss"@,
        GetStatsType::HitMissDetail => "hit-miss-detail"@,
        GetStatsType::Traffic => "traffic"@,
        GetStatsType::TrafficDetail => "traffic-detail"@,
    }
}

/// The statistics type a name stands for.
pub open spec fn stats_type_of(s: Seq<char>) -> Option<GetStatsType> {
    if s == stats_type_name(GetStatsType::Bandwidth) {
        Some(GetStatsType::Bandwidth)
    } else if s == stats_type_name(GetStatsType::Costs) {
        Some(GetStatsType::Costs)
    } else if s == stats_type_name(GetStatsType::Headers) {
        Some(GetStatsType::Headers)
    } else if s == stats_type_name(GetStatsType::HeadersDetail) {
        Some(GetStatsType::HeadersDetail)
    } else if s == stats_type_name(GetStatsType::HitMiss) {
        Some(GetStatsType::HitMiss)
    } else if s == stats_type_name(GetStatsType::HitMissDetail) {
        Some(GetStatsType::HitMissDetail)
    } else if s == stats_type_name(GetStatsType::Traffic) {
        Some(GetStatsType::Traffic)
    } else if s == stats_type_name(GetStatsType::TrafficDetail) {
        Some(GetStatsType::TrafficDetail)
    } else {
        None
    }
}

/// The statistics that the sum endpoints accept.
pub open spec fn is_summable(t: GetStatsType) -> bool {
    t == GetStatsType::Headers || t == GetStatsType::Traffic || t == GetStatsType::HitMiss || t
        == GetStatsType::Costs
}

/// A name the sum endpoints accept.
pub open spec fn is_sum_type_name(s: Seq<char>) -> bool {
    stats_type_of(s) is Some && is_summable(stats_type_of(s)->0)
}

impl GetStatsType {
    /// The name used on the command line and in request paths.
    pub fn name(&self) -> (r: &'static str)
        ensures
            r@ == stats_type_name(*self),
    {
        match self {
            GetStatsType::Bandwidth => "bandwidth",
            GetStatsType::Costs => "costs",
            GetStatsType::Headers => "headers",
            GetStatsType::HeadersDetail => "headers-detail",
            GetStatsType::HitMiss => "hit-miss",
            GetStatsType::HitMissDetail => "hit-miss-detail",
            GetStatsType::Traffic => "traffic",
            GetStatsType::TrafficDetail => "traffic-detail",
        }
    }

    pub fn from_name(s: &str) -> (r: Option<GetStatsType>)
        ensures
            r == stats_type_of(s@),
    {
        if str_equal(s, GetStatsType::Bandwidth.name()) {
            Some(GetStatsType::Bandwidth)
        } else if str_equal(s, GetStatsType::Costs.name()) {
            Some(GetStatsType::Costs)
        } else if str_equal(s, GetStatsType::Headers.name()) {
            Some(GetStatsType::Headers)
        } else if str_equal(s, GetStatsType::HeadersDetail.name()) {
            Some(GetStatsType::HeadersDetail)
        } else if str_equal(s, GetStatsType::HitMiss.name()) {
            Some(GetStatsType::HitMiss)
        } else if str_equal(s, GetStatsType::HitMissDetail.name()) {
            Some(GetStatsType::HitMissDetail)
        } else if str_equal(s, GetStatsType::Traffic.name()) {
            Some(GetStatsType::Traffic)
        } else if str_equal(s, GetStatsType::TrafficDetail.name()) {
            Some(GetStatsType::TrafficDetail)
        } else {
            None
        }
    }

    pub fn is_summable(&self) -> (r: bool)
        ensures
            r == is_summable(*self),
    {
        match self {
            GetStatsType::Headers | GetStatsType::Traffic | GetStatsType::HitMiss
            | GetStatsType::Costs => true,
            _ => false,
        }
    }
}

impl std::str::FromStr for GetStatsType {
    type Err = &'static str;

    fn from_str(s: &str) -> (r: Result<Self, Self::Err>)
        ensures
            stats_type_of(s@) is Some ==> r == Ok::<GetStatsType, &'static str>(
                stats_type_of(s@)->0,
            ),
            stats_type_of(s@) is None ==> r is Err && r->Err_0@ == "Invalid stat type"@,
    {
        match GetStatsType::from_name(s) {
            Some(t) => Ok(t),
            None => Err("Invalid stat type"),
        }
    }
}

/// Checks a statistics name for the sum endpoints.
pub fn is_sum_stat_type(s: &str) -> (r: bool)
    ensures
        r == is_sum_type_name(s@),
{
    match GetStatsType::from_name(s) {
        Some(t) => t.is_summable(),
        None => false,
    }
}

/// Reading back the name of a job type gives that job type.
pub proof fn lemma_job_type_round_trip(t: JobType)
    ensures
        job_type_of(job_type_name(t)) == Some(t),
{
    reveal_strlit("prefetch");
    reveal_strlit("purge");
    reveal_strlit("purge-all");
    assert("prefetch"@.len() == 8 && "purge"@.len() == 5 && "purge-all"@.len() == 9);
    assert("prefetch"@ != "purge"@ && "prefetch"@ != "purge-all"@ && "purge"@ != "purge-all"@);
}

/// Reading back the name of a statistics type gives that type.
pub proof fn lemma_stats_type_round_trip(t: GetStatsType)
    ensures
        stats_type_of(stats_type_name(t)) == Some(t),
{
    reveal_strlit("bandwidth");
    reveal_strlit("costs");
    reveal_strlit("headers");
    reveal_strlit("headers-detail");
    reveal_strlit("hit-miss");
    reveal_strlit("hit-miss-detail");
    reveal_strlit("traffic");
    reveal_strlit("traffic-detail");
    let names = seq![
        "bandwidth"@,
        "costs"@,
        "headers"@,
        "headers-detail"@,
        "hit-miss"@,
        "hit-miss-detail"@,
        "traffic"@,
        "traffic-detail"@,
    ];
    assert forall|i: int, j: int| 0 <= i < j < 8 implies #[trigger] names[i] != #[trigger] names[j] by {
        assert(names[i].len() != names[j].len() || names[i][0] != names[j][0]);
    }
    assert(names[0] != names[1]);
}

} // verus!
