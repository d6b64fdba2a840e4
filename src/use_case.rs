//! The site health check: what the reporting loop prints and how long it
//! waits between reports, decided once from the command-line arguments.

use vstd::prelude::*;

use crate::interval_duration::interval_seconds;
use crate::request::{args_view, request_error, Request, RequestError};
use crate::site_name::{parsed_url, status_code_of};

verus! {

/// Why the health check could not start.
#[derive(Debug, Clone, Copy, PartialEq, Eq, Structural)]
pub enum CheckHealthError {
    SiteNameError,
    ArgsQtyError,
    IntervalValueError,
}

/// The health-check error that a request error stands for.
pub open spec fn health_error_of(e: RequestError) -> CheckHealthError {
    match e {
        RequestError::SiteNameError => CheckHealthError::SiteNameError,
        RequestError::ArgsQtyError => CheckHealthError::ArgsQtyError,
        RequestError::IntervalValueError => CheckHealthError::IntervalValueError,
    }
}

/// The message shown to the user for each error.
pub open spec fn error_message(e: CheckHealthError) -> Seq<char> {
    match e {
        CheckHealthError::SiteNameError => "URL parsing error"@,
        CheckHealthError::ArgsQtyError => "Number of arguments is wrong"@,
        CheckHealthError::IntervalValueError => "Wrong interval duration argument format"@,
    }
}

impl CheckHealthError {
    /// The message shown to the user.
    pub fn to_string(&self) -> (r: String)
        ensures
            r@ == error_message(*self),
    {
        match self {
            CheckHealthError::SiteNameError => String::from_str("URL parsing error"),
            CheckHealthError::ArgsQtyError => String::from_str("Number of arguments is wrong"),
            CheckHealthError::IntervalValueError => String::from_str(
                "Wrong interval duration argument format",
            ),
        }
    }
}

impl From<RequestError> for CheckHealthError {
    fn from(value: RequestError) -> (r: CheckHealthError) {
        match value {
            RequestError::SiteNameError => CheckHealthError::SiteNameError,
            RequestError::ArgsQtyError => CheckHealthError::ArgsQtyError,
            RequestError::IntervalValueError => CheckHealthError::IntervalValueError,
        }
    }
}

impl vstd::std_specs::convert::FromSpecImpl<RequestError> for CheckHealthError {
    open spec fn obeys_from_spec() -> bool {
        true
    }

    open spec fn from_spec(v: RequestError) -> CheckHealthError {
        health_error_of(v)
    }
}

/// The line reported for `site` when the decoded status code is `code`:
/// success where the code is empty, else an error carrying the code.
pub open spec fn report_text(site: Seq<char>, code: Seq<char>) -> Seq<char> {
    if code.len() == 0 {
        "Checking '"@ + site + "'. Result: OK(200)"@
    } else {
        "Checking '"@ + site + "'. Result: ERR("@ + code + ")"@
    }
}

/// Renders the report line for `site` and its decoded status `code`.
pub fn report_line(site: &str, code: &str) -> (r: String)
    ensures
        r@ == report_text(site@, code@),
{
    let mut out = String::from_str("Checking '");
    out.append(site);
    if code.unicode_len() == 0 {
        out.append("'. Result: OK(200)");
    } else {
        out.append("'. Result: ERR(");
        out.append(code);
        out.append(")");
    }
    out
}

/// What the reporting loop does on every round: print `report`, then wait
/// `interval_millis` milliseconds. Both are fixed before the first round.
#[derive(Debug)]
pub struct HealthCheck {
    pub report: String,
    pub interval_millis: u64,
}

/// Validates the command-line arguments and decides the reporting loop: the
/// line it prints, built from the site's URL and the status its path stands
/// for, and the wait between two lines.
pub fn plan_site_health_check(args: Vec<String>) -> (r: Result<HealthCheck, CheckHealthError>)
    ensures
        r is Err <==> request_error(args_view(args@)) is Some,
        r is Err ==> r->Err_0 == health_error_of(request_error(args_view(args@))->0),
        r is Ok ==> r->Ok_0.interval_millis == interval_seconds(args@[1]@) * 1000,
        r is Ok ==> r->Ok_0.report@ == report_text(
            (parsed_url(args@[2]@)->0).0,
            status_code_of((parsed_url(args@[2]@)->0).1),
        ),
{
    let request = match Request::try_from(args) {
        Ok(request) => request,
        Err(e) => return Err(CheckHealthError::from(e)),
    };
    let error_code = request.site_name.get_error_code();
    let site = request.site_name.to_string();
    let report = report_line(site.as_str(), error_code.as_str());
    Ok(HealthCheck { report, interval_millis: request.interval_duration_millisec.to_millis() })
}

} // verus!
