//! Site health reporting: validation of the command-line request (polling
//! interval and target URL) and the decisions of the reporting loop, with
//! contracts proved by Verus.

pub mod decimal;
pub mod interval_duration;
pub mod request;
pub mod site_name;
pub mod use_case;
