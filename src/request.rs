//! The validated request: an interval and a site, built all at once from the
//! command-line arguments.

use vstd::prelude::*;

use crate::decimal::is_digit;
use crate::interval_duration::{interval_seconds, is_interval_text, unsigned_digits, IntervalDuration};
use crate::site_name::{parsed_url, SiteName};

verus! {

/// Why a request could not be built from the arguments.
#[derive(Debug, Clone, Copy, PartialEq, Eq, Structural)]
pub enum RequestError {
    SiteNameError,
    ArgsQtyError,
    IntervalValueError,
}

/// A validated request: the polling interval and the site to report on.
pub struct Request {
    pub interval_duration_millisec: IntervalDuration,
    pub site_name: SiteName,
}

/// The views of the argument strings.
pub open spec fn args_view(args: Seq<String>) -> Seq<Seq<char>> {
    args.map_values(|a: String| a@)
}

/// Which error, if any, building a request from `args` meets: the number of
/// arguments is checked first, then the interval, then the site.
pub open spec fn request_error(args: Seq<Seq<char>>) -> Option<RequestError> {
    if args.len() != 3 {
        Some(RequestError::ArgsQtyError)
    } else if !is_interval_text(args[1]) {
        Some(RequestError::IntervalValueError)
    } else if parsed_url(args[2]) is None {
        Some(RequestError::SiteNameError)
    } else {
        None
    }
}

impl Request {
    /// Builds a request from the command-line arguments: the program name,
    /// the interval in seconds and the site's URL. All of it is valid, or
    /// the first error met is returned.
    pub fn try_from(value: Vec<String>) -> (r: Result<Request, RequestError>)
        ensures
            r is Err <==> request_error(args_view(value@)) is Some,
            r is Err ==> request_error(args_view(value@)) == Some(r->Err_0),
            r is Ok ==> r->Ok_0.interval_duration_millisec@ == interval_seconds(value@[1]@) * 1000,
            r is Ok ==> parsed_url(value@[2]@) == Some(r->Ok_0.site_name@),
    {
        let ghost args = args_view(value@);
        if value.len() != 3 {
            return Err(RequestError::ArgsQtyError);
        }
        assert(args[1] == value@[1]@ && args[2] == value@[2]@);
        let count_interval = match IntervalDuration::try_from(value[1].clone()) {
            Ok(d) => d,
            Err(e) => return Err(e),
        };
        let site_name = match SiteName::try_from(value[2].clone()) {
            Ok(s) => s,
            Err(e) => return Err(e),
        };
        Ok(Request { interval_duration_millisec: count_interval, site_name })
    }
}

/// An argument list whose length is not three is refused for its length,
/// whatever the arguments hold.
pub proof fn lemma_wrong_count_rejected(args: Seq<Seq<char>>)
    requires
        args.len() != 3,
    ensures
        request_error(args) == Some(RequestError::ArgsQtyError),
{
}

/// Three arguments whose interval holds a character that is neither a digit
/// nor `+` are refused for the interval, whatever the site argument holds:
/// the interval is checked before the site.
pub proof fn lemma_interval_checked_before_site(args: Seq<Seq<char>>, i: int)
    requires
        args.len() == 3,
        0 <= i < args[1].len(),
        !is_digit(args[1][i]),
        args[1][i] != '+',
    ensures
        request_error(args) == Some(RequestError::IntervalValueError),
{
    let s = args[1];
    let d = unsigned_digits(s);
    if s[0] == '+' {
        assert(d[i - 1] == s[i]);
    } else {
        assert(d[i] == s[i]);
    }
    assert(!is_interval_text(s));
}

} // verus!
