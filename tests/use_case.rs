use site_health::request::RequestError;
use site_health::use_case::{plan_site_health_check, report_line, CheckHealthError};

#[test]
fn site_name_error() {
    let args = vec!["".to_string(), "1".to_string(), "some_random_string".to_string()];
    let result = plan_site_health_check(args);
    assert!(result.is_err());
    assert_eq!(result.unwrap_err().to_string(), "URL parsing error".to_string());
}

#[test]
fn number_of_args_error() {
    let args = vec!["one".to_string(), "two".to_string()];
    let result = plan_site_health_check(args);
    assert!(result.is_err());
    assert_eq!(result.unwrap_err().to_string(), "Number of arguments is wrong".to_string());
}

#[test]
fn interval_duration_parsing_error() {
    let args = vec!["".to_string(), "string".to_string(), "some_random_string".to_string()];
    let result = plan_site_health_check(args);
    assert!(result.is_err());
    assert_eq!(
        result.unwrap_err().to_string(),
        "Wrong interval duration argument format".to_string()
    );
}

#[test]
fn scenario_success_every_second() {
    let args = vec!["prog".to_string(), "1".to_string(), "http://host/200".to_string()];
    let plan = plan_site_health_check(args).unwrap();
    assert_eq!(plan.report, "Checking 'http://host/200'. Result: OK(200)".to_string());
    assert_eq!(plan.interval_millis, 1000);
}

#[test]
fn scenario_success_without_path() {
    let args = vec!["prog".to_string(), "2".to_string(), "http://host".to_string()];
    let plan = plan_site_health_check(args).unwrap();
    assert_eq!(plan.report, "Checking 'http://host/'. Result: OK(200)".to_string());
    assert_eq!(plan.interval_millis, 2000);
}

#[test]
fn scenario_error_without_delay() {
    let args = vec!["prog".to_string(), "0".to_string(), "http://host/503".to_string()];
    let plan = plan_site_health_check(args).unwrap();
    assert_eq!(plan.report, "Checking 'http://host/503'. Result: ERR(503)".to_string());
    assert_eq!(plan.interval_millis, 0);
}

#[test]
fn scenario_bad_interval_fails_at_once() {
    let args = vec!["prog".to_string(), "abc".to_string(), "http://host".to_string()];
    let result = plan_site_health_check(args);
    assert_eq!(result.as_ref().err(), Some(&CheckHealthError::IntervalValueError));
    assert_eq!(
        result.unwrap_err().to_string(),
        "Wrong interval duration argument format".to_string()
    );
}

#[test]
fn report_line_formats() {
    assert_eq!(report_line("http://a/", ""), "Checking 'http://a/'. Result: OK(200)".to_string());
    assert_eq!(report_line("http://a/x", "x"), "Checking 'http://a/x'. Result: ERR(x)".to_string());
}

#[test]
fn health_error_from_request_error() {
    assert_eq!(CheckHealthError::from(RequestError::SiteNameError), CheckHealthError::SiteNameError);
    assert_eq!(CheckHealthError::from(RequestError::ArgsQtyError), CheckHealthError::ArgsQtyError);
    assert_eq!(
        CheckHealthError::from(RequestError::IntervalValueError),
        CheckHealthError::IntervalValueError
    );
}
