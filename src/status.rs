//! What a response status means for a command. Each command has a few rules
//! of its own; any status they do not cover goes to one shared table.
use vstd::prelude::*;
use vstd::string::*;

use crate::command::{job_id_of, operation_of, resource_id_of, Command, Operation};
use crate::outcome::{Report, Stream};
use crate::text::{decimal_string, decimal_text};
use crate::{EXIT_CODE_API_EXPECTED_ERROR, EXIT_CODE_API_UNEXPECTED_ERROR};

verus! {

pub const STATUS_OK: u16 = 200;
pub const STATUS_ACCEPTED: u16 = 202;
pub const STATUS_UNAUTHORIZED: u16 = 401;
pub const STATUS_FORBIDDEN: u16 = 403;
pub const STATUS_NOT_FOUND: u16 = 404;
pub const STATUS_METHOD_NOT_ALLOWED: u16 = 405;
pub const STATUS_UNPROCESSABLE_ENTITY: u16 = 422;

/// How a command goes on after its response status.
#[derive(Clone, Copy, Debug, PartialEq, Eq, Structural)]
pub enum StatusDecision {
    /// The status announces the payload: decode the body.
    Decode,
    /// Billing and storage: no tariff or plan is active. Informational.
    NoActivePlan,
    /// The job asked for does not exist.
    JobNotFound,
    /// The resource to prefetch or purge paths on does not exist.
    JobTargetNotFound,
    /// Purging all files is disabled for the resource.
    PurgeAllDisabled,
    /// The resource to purge entirely does not exist.
    PurgeAllTargetNotFound,
    /// A statistics query was refused; the body explains why.
    StatsRejected,
    Unauthorized,
    Forbidden,
    NotFound,
    MethodNotAllowed,
    UnprocessableEntity,
    /// A status no rule knows; the body is shown as it is.
    Unknown,
}

/// The status that announces a command's payload: 202 for the job mutations, 200 otherwise.
pub open spec fn success_status(op: Operation) -> u16 {
    match op {
        Operation::JobsPrefetch | Operation::JobsPurge | Operation::JobsPurgeAll => STATUS_ACCEPTED,
        _ => STATUS_OK,
    }
}

/// The meaning a command gives to 404.
pub open spec fn not_found_rule(op: Operation) -> Option<StatusDecision> {
    match op {
        Operation::CreditBalance | Operation::StorageList | Operation::StorageDetail => Some(
            StatusDecision::NoActivePlan,
        ),
        Operation::JobsDetail => Some(StatusDecision::JobNotFound),
        Operation::JobsPrefetch | Operation::JobsPurge => Some(StatusDecision::JobTargetNotFound),
        Operation::JobsPurgeAll => Some(StatusDecision::PurgeAllTargetNotFound),
        Operation::JobsList => None,
        _ => Some(StatusDecision::StatsRejected),
    }
}

/// The rules of a command itself: its payload status, its 404, and for
/// purge-all its 403.
pub open spec fn command_rule(op: Operation, status: u16) -> Option<StatusDecision> {
    if status == success_status(op) {
        Some(StatusDecision::Decode)
    } else if status == STATUS_NOT_FOUND {
        not_found_rule(op)
    } else if status == STATUS_FORBIDDEN && op == Operation::JobsPurgeAll {
        Some(StatusDecision::PurgeAllDisabled)
    } else {
        None
    }
}

/// The shared table, for the statuses a command has no rule for.
pub open spec fn default_rule(status: u16) -> StatusDecision {
    if status == STATUS_UNAUTHORIZED {
        StatusDecision::Unauthorized
    } else if status == STATUS_FORBIDDEN {
        StatusDecision::Forbidden
    } else if status == STATUS_NOT_FOUND {
        StatusDecision::NotFound
    } else if status == STATUS_METHOD_NOT_ALLOWED {
        StatusDecision::MethodNotAllowed
    } else if status == STATUS_UNPROCESSABLE_ENTITY {
        StatusDecision::UnprocessableEntity
    } else {
        StatusDecision::Unknown
    }
}

/// The decision for a status: the command's rule when it has one, else the shared table.
pub open spec fn decision_for(op: Operation, status: u16) -> StatusDecision {
    match command_rule(op, status) {
        Some(d) => d,
        None => default_rule(status),
    }
}

pub open spec fn exit_code_of(d: StatusDecision) -> i32 {
    match d {
        StatusDecision::Decode | StatusDecision::NoActivePlan => 0,
        StatusDecision::MethodNotAllowed | StatusDecision::UnprocessableEntity
        | StatusDecision::Unknown => EXIT_CODE_API_UNEXPECTED_ERROR,
        _ => EXIT_CODE_API_EXPECTED_ERROR,
    }
}

pub open spec fn stream_of(d: StatusDecision) -> Stream {
    match d {
        StatusDecision::NoActivePlan | StatusDecision::JobNotFound
        | StatusDecision::JobTargetNotFound | StatusDecision::PurgeAllDisabled
        | StatusDecision::NotFound | StatusDecision::Decode => Stream::Stdout,
        _ => Stream::Stderr,
    }
}

/// Decisions whose message carries the response body.
pub open spec fn needs_body(d: StatusDecision) -> bool {
    d == StatusDecision::StatsRejected || d == StatusDecision::Unknown
}

pub open spec fn unreadable_body_text() -> Seq<char> {
    "FAILED TO READ RESPONSE, EMPTY?"@
}

/// The body as shown: its text, or a placeholder when it could not be read.
pub open spec fn body_text(body: Option<Seq<char>>) -> Seq<char> {
    match body {
        Some(b) => b,
        None => unreadable_body_text(),
    }
}

/// How a statistics command introduces the API's reason for a 404.
pub open spec fn stats_rejection_prefix(op: Operation) -> Seq<char> {
    match op {
        Operation::StatsByResource => "Couldn't get stat type grouped by resource: "@,
        Operation::StatsSumByResource => "Couldn't get stat sum by resource: "@,
        Operation::StatsByDataCenter => "Couldn't get stat type grouped by datacenter: "@,
        Operation::StatsSumByDataCenter => "Couldn't get stat sum by data center: "@,
        Operation::StatsSum => "Couldn't get stats sum: "@,
        _ => "Could not get stats for this type without grouping: "@,
    }
}

pub open spec fn no_active_plan_message() -> Seq<char> {
    "You do not have a PAYG tariff nor Monthly Plan active"@
}

pub open spec fn purge_all_disabled_message(resource_id: u64) -> Seq<char> {
    "Purging all files is disabled for resource="@ + decimal_text(resource_id as nat)
}

/// `": <description>"` when a description of the response was given.
pub open spec fn response_suffix(description: Option<Seq<char>>) -> Seq<char> {
    match description {
        Some(d) => ": "@ + d,
        None => Seq::empty(),
    }
}

/// Decisions whose message describes the response itself.
pub open spec fn describes_response(d: StatusDecision) -> bool {
    d == StatusDecision::PurgeAllDisabled
}

pub open spec fn forbidden_message() -> Seq<char> {
    "Got 403/forbidden. Please check your credentials or the API operation args."@
}

/// The message of a decision other than `Decode`.
pub open spec fn decision_message(c: Command, d: StatusDecision, status: u16, body: Option<Seq<char>>) -> Seq<char> {
    let rid = decimal_text(resource_id_of(c) as nat);
    match d {
        StatusDecision::NoActivePlan => no_active_plan_message(),
        StatusDecision::JobNotFound => "Didn't find job_id="@ + job_id_of(c) + " for resource_id="@
            + rid,
        StatusDecision::JobTargetNotFound => if operation_of(c) == Operation::JobsPurge {
            "Cannot purge paths, didn't find resource_id="@ + rid
        } else {
            "Cannot prefetch paths, didn't find resource_id="@ + rid
        },
        StatusDecision::PurgeAllDisabled => purge_all_disabled_message(resource_id_of(c))
            + response_suffix(body),
        StatusDecision::PurgeAllTargetNotFound => "Didn't find resource_id="@ + rid,
        StatusDecision::StatsRejected => stats_rejection_prefix(operation_of(c))
            + body_text(body),
        StatusDecision::Unauthorized => "Got 401/unauthorized. Please check your credentials."@,
        StatusDecision::Forbidden => forbidden_message(),
        StatusDecision::NotFound => "The requested resource was not found. Please validate your args."@,
        StatusDecision::MethodNotAllowed =>
            "Received 405/MethodNotAllowed. This might be an issue with an outdated client due to API changes."@,
        StatusDecision::UnprocessableEntity =>
            "Received 422/UnprocessableEntity. This might be an issue with this client, please check for an update."@,
        StatusDecision::Unknown => "Received unexpected/unknown status code="@ + decimal_text(
            status as nat,
        ) + ", please check the response for an explanation: "@ + body_text(body),
        StatusDecision::Decode => Seq::empty(),
    }
}

/// The rules of a command itself, checked before the shared table.
pub fn command_rule_for(op: Operation, status: u16) -> (r: Option<StatusDecision>)
    ensures
        r == command_rule(op, status),
{
    let success = match op {
        Operation::JobsPrefetch | Operation::JobsPurge | Operation::JobsPurgeAll => STATUS_ACCEPTED,
        _ => STATUS_OK,
    };
    if status == success {
        Some(StatusDecision::Decode)
    } else if status == STATUS_NOT_FOUND {
        match op {
            Operation::CreditBalance | Operation::StorageList | Operation::StorageDetail => Some(
                StatusDecision::NoActivePlan,
            ),
            Operation::JobsDetail => Some(StatusDecision::JobNotFound),
            Operation::JobsPrefetch | Operation::JobsPurge => Some(StatusDecision::JobTargetNotFound),
            Operation::JobsPurgeAll => Some(StatusDecision::PurgeAllTargetNotFound),
            Operation::JobsList => None,
            _ => Some(StatusDecision::StatsRejected),
        }
    } else if status == STATUS_FORBIDDEN && op == Operation::JobsPurgeAll {
        Some(StatusDecision::PurgeAllDisabled)
    } else {
        None
    }
}

/// The shared table of statuses with one meaning on every endpoint.
pub fn handle_default_response_status_codes(status: u16) -> (r: StatusDecision)
    ensures
        r == default_rule(status),
{
    if status == STATUS_UNAUTHORIZED {
        StatusDecision::Unauthorized
    } else if status == STATUS_FORBIDDEN {
        StatusDecision::Forbidden
    } else if status == STATUS_NOT_FOUND {
        StatusDecision::NotFound
    } else if status == STATUS_METHOD_NOT_ALLOWED {
        StatusDecision::MethodNotAllowed
    } else if status == STATUS_UNPROCESSABLE_ENTITY {
        StatusDecision::UnprocessableEntity
    } else {
        StatusDecision::Unknown
    }
}

/// Decides from the status alone how a command goes on.
pub fn route_status(op: Operation, status: u16) -> (r: StatusDecision)
    ensures
        r == decision_for(op, status),
{
    match command_rule_for(op, status) {
        Some(d) => d,
        None => handle_default_response_status_codes(status),
    }
}

impl StatusDecision {
    /// Whether the message of this decision shows the response body.
    pub fn needs_body(&self) -> (r: bool)
        ensures
            r == needs_body(*self),
    {
        *self == StatusDecision::StatsRejected || *self == StatusDecision::Unknown
    }

    /// Whether the message of this decision describes the response.
    pub fn describes_response(&self) -> (r: bool)
        ensures
            r == describes_response(*self),
    {
        *self == StatusDecision::PurgeAllDisabled
    }
}

/// The report of a decision other than `Decode`. `body` is the response text
/// for decisions that need the body, a description of the response for those
/// that describe it, and `None` otherwise or when it could not be read.
pub fn status_report(c: &Command, d: StatusDecision, status: u16, body: &Option<String>) -> (r: Report)
    requires
        d != StatusDecision::Decode,
    ensures
        r.exit_code == exit_code_of(d),
        r.stream == stream_of(d),
        r.message@ == decision_message(
            *c,
            d,
            status,
            match body {
                Some(b) => Some(b@),
                None => None,
            },
        ),
{
    let ghost body_view = match body {
        Some(b) => Some(b@),
        None => None::<Seq<char>>,
    };
    let rid = decimal_string(c.resource_id());
    match d {
        StatusDecision::NoActivePlan => Report::new(
            String::from_str("You do not have a PAYG tariff nor Monthly Plan active"),
            Stream::Stdout,
            0,
        ),
        StatusDecision::JobNotFound => {
            let mut m = String::from_str("Didn't find job_id=");
            m.append(c.job_id());
            m.append(" for resource_id=");
            m.append(rid.as_str());
            Report::expected_error(m, Stream::Stdout)
        },
        StatusDecision::JobTargetNotFound => {
            let mut m = if c.operation() == Operation::JobsPurge {
                String::from_str("Cannot purge paths, didn't find resource_id=")
            } else {
                String::from_str("Cannot prefetch paths, didn't find resource_id=")
            };
            m.append(rid.as_str());
            Report::expected_error(m, Stream::Stdout)
        },
        StatusDecision::PurgeAllDisabled => {
            let mut m = String::from_str("Purging all files is disabled for resource=");
            m.append(rid.as_str());
            if let Some(description) = body {
                m.append(": ");
                m.append(description.as_str());
            }
            Report::expected_error(m, Stream::Stdout)
        },
        StatusDecision::PurgeAllTargetNotFound => {
            let mut m = String::from_str("Didn't find resource_id=");
            m.append(rid.as_str());
            Report::expected_error(m, Stream::Stderr)
        },
        StatusDecision::StatsRejected => {
            let mut m = match c.operation() {
                Operation::StatsByResource => String::from_str(
                    "Couldn't get stat type grouped by resource: ",
                ),
                Operation::StatsSumByResource => String::from_str("Couldn't get stat sum by resource: "),
                Operation::StatsByDataCenter => String::from_str(
                    "Couldn't get stat type grouped by datacenter: ",
                ),
                Operation::StatsSumByDataCenter => String::from_str(
                    "Couldn't get stat sum by data center: ",
                ),
                Operation::StatsSum => String::from_str("Couldn't get stats sum: "),
                _ => String::from_str("Could not get stats for this type without grouping: "),
            };
            append_body(&mut m, body);
            Report::expected_error(m, Stream::Stderr)
        },
        StatusDecision::Unauthorized => Report::expected_error(
            String::from_str("Got 401/unauthorized. Please check your credentials."),
            Stream::Stderr,
        ),
        StatusDecision::Forbidden => Report::expected_error(
            String::from_str(
                "Got 403/forbidden. Please check your credentials or the API operation args.",
            ),
            Stream::Stderr,
        ),
        StatusDecision::NotFound => Report::expected_error(
            String::from_str("The requested resource was not found. Please validate your args."),
            Stream::Stdout,
        ),
        StatusDecision::MethodNotAllowed => Report::unexpected_error(
            String::from_str(
                "Received 405/MethodNotAllowed. This might be an issue with an outdated client due to API changes.",
            ),
        ),
        StatusDecision::UnprocessableEntity => Report::unexpected_error(
            String::from_str(
                "Received 422/UnprocessableEntity. This might be an issue with this client, please check for an update.",
            ),
        ),
        _ => {
            let mut m = String::from_str("Received unexpected/unknown status code=");
            m.append(decimal_string(status as u64).as_str());
            m.append(", please check the response for an explanation: ");
            append_body(&mut m, body);
            Report::unexpected_error(m)
        },
    }
}

fn append_body(m: &mut String, body: &Option<String>)
    ensures
        final(m)@ == old(m)@ + body_text(
            match body {
                Some(b) => Some(b@),
                None => None,
            },
        ),
{
    match body {
        Some(b) => m.append(b.as_str()),
        None => m.append("FAILED TO READ RESPONSE, EMPTY?"),
    }
}

/// A command's own rule for a status always wins over the shared table.
pub proof fn lemma_command_rule_precedes_default(op: Operation, status: u16)
    requires
        command_rule(op, status) is Some,
    ensures
        decision_for(op, status) == command_rule(op, status)->0,
{
}

/// On purge-all, 403 means that purging everything is disabled for the
/// resource (an expected error), not the shared table's credentials message.
pub proof fn lemma_purge_all_forbidden(c: Command, description: Option<Seq<char>>)
    requires
        operation_of(c) == Operation::JobsPurgeAll,
    ensures
        decision_for(Operation::JobsPurgeAll, STATUS_FORBIDDEN) == StatusDecision::PurgeAllDisabled,
        default_rule(STATUS_FORBIDDEN) == StatusDecision::Forbidden,
        exit_code_of(StatusDecision::PurgeAllDisabled) == EXIT_CODE_API_EXPECTED_ERROR,
        decision_message(c, StatusDecision::PurgeAllDisabled, STATUS_FORBIDDEN, description)
            == purge_all_disabled_message(resource_id_of(c)) + response_suffix(description),
        decision_message(c, StatusDecision::PurgeAllDisabled, STATUS_FORBIDDEN, description)
            != forbidden_message(),
{
    reveal_strlit("Purging all files is disabled for resource=");
    reveal_strlit("Got 403/forbidden. Please check your credentials or the API operation args.");
    let m = decision_message(c, StatusDecision::PurgeAllDisabled, STATUS_FORBIDDEN, description);
    assert(m[0] == 'P');
    assert(forbidden_message()[0] == 'G');
}

} // verus!
