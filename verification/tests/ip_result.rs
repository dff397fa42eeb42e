use findip_lib::errors::{ErrorReason, IpError};
use findip_lib::ip_result::{IpResultStorage, IpResults};
use findip_lib::notifier::{Action, StdoutNotifier};
use findip_lib::types::IpAddress;

fn ip(text: &str) -> IpAddress {
    IpAddress::new(text.to_string())
}

#[test]
fn test_new_ip_results_with_defaults() {
    let ip_results = IpResults::new(None);
    assert!(ip_results.only_notify_on_change() == false);
}

#[test]
fn test_new_ip_results_with_a_value() {
    let ip_results = IpResults::new(Some(true));
    assert!(ip_results.only_notify_on_change() == true);
}

#[test]
fn test_add_result() {
    let mut results = IpResults::new(Some(false));

    results.add_result(ip("127.0.0.1"), 1);
    assert_eq!(results.get_latest_ip().unwrap(), ip("127.0.0.1"));
}

#[test]
fn test_get_latest_ip_when_no_ips() {
    let results = IpResults::new(Some(false));

    match results.get_latest_ip() {
        Ok(_) => panic!("The output of the test was unexpected."),
        Err(_) => (),
    }
}

#[test]
fn test_get_latest_ip_when_only_one_ip() {
    let mut results = IpResults::new(Some(false));

    results.add_result(ip("127.0.0.1"), 1);
    match results.get_latest_ip() {
        Ok(latest) => assert_eq!(latest, ip("127.0.0.1")),
        Err(_) => panic!("The output of the test was unexpected."),
    }
}

#[test]
fn test_ip_has_changed_without_ips() {
    let results = IpResults::new(Some(false));
    assert!(results.ip_has_changed() == false);
}

#[test]
fn test_ip_has_changed_with_one_ip() {
    let mut results = IpResults::new(Some(false));
    results.add_result(ip("127.0.0.1"), 1);

    assert!(results.ip_has_changed() == true);
}

#[test]
fn test_ip_has_changed_with_two_different_ips() {
    let mut results = IpResults::new(Some(false));
    results.add_result(ip("127.0.0.1"), 1);
    results.add_result(ip("127.0.0.2"), 2);

    assert!(results.ip_has_changed() == true);
}

#[test]
fn test_ip_has_changed_with_two_of_the_same_ips() {
    let mut results = IpResults::new(Some(false));
    results.add_result(ip("127.0.0.1"), 1);
    results.add_result(ip("127.0.0.1"), 2);

    assert!(results.ip_has_changed() == false);
}

#[test]
fn the_latest_address_is_the_one_added_last() {
    let mut results = IpResults::new(None);
    results.add_result(ip("1.1.1.1"), 1);
    results.add_result(ip("2.2.2.2"), 2);
    assert_eq!(results.get_latest_ip().unwrap(), ip("2.2.2.2"));
    results.add_result(ip("3.3.3.3"), 3);
    assert_eq!(results.get_latest_ip().unwrap(), ip("3.3.3.3"));
}

#[test]
fn history_of_three_observations_keeps_two() {
    let mut results = IpResults::new(None);
    assert_eq!(results.len(), 0);
    results.add_result(ip("1.1.1.1"), 1);
    assert_eq!(results.len(), 1);
    assert!(results.ip_has_changed() == true);
    results.add_result(ip("1.1.1.1"), 2);
    assert_eq!(results.len(), 2);
    assert!(results.ip_has_changed() == false);
    results.add_result(ip("2.2.2.2"), 3);
    assert!(results.ip_has_changed() == true);
    assert_eq!(results.len(), 2);
}

#[test]
fn a_change_is_judged_by_the_last_two_observations() {
    let mut results = IpResults::new(None);
    results.add_result(ip("1.1.1.1"), 1);
    results.add_result(ip("2.2.2.2"), 2);
    results.add_result(ip("2.2.2.2"), 3);
    assert!(results.ip_has_changed() == false);
    results.add_result(ip("1.1.1.1"), 4);
    assert!(results.ip_has_changed() == true);
}

#[test]
fn history_stays_at_two_after_many_observations() {
    let mut results = IpResults::new(None);
    for round in 0..50 {
        results.add_result(ip(&format!("10.0.0.{}", round)), round);
        assert!(results.len() <= 2);
        assert_eq!(results.get_latest_ip().unwrap(), ip(&format!("10.0.0.{}", round)));
    }
    assert_eq!(results.len(), 2);
}

#[test]
fn every_address_is_reported_when_changes_are_not_asked_for() {
    let mut results = IpResults::new(Some(false));
    let notifier = StdoutNotifier::new();
    let first = results.dispatch(&notifier, Ok(ip("1.1.1.1")), 1);
    assert!(matches!(first, Action::Print(text) if text == "1.1.1.1"));
    let second = results.dispatch(&notifier, Ok(ip("1.1.1.1")), 2);
    assert!(matches!(second, Action::Print(text) if text == "1.1.1.1"));
}

#[test]
fn an_unchanged_address_is_not_reported_when_changes_are_asked_for() {
    let mut results = IpResults::new(Some(true));
    let notifier = StdoutNotifier::new();
    let first = results.dispatch(&notifier, Ok(ip("1.1.1.1")), 1);
    assert!(matches!(first, Action::Print(text) if text == "1.1.1.1"));
    let second = results.dispatch(&notifier, Ok(ip("1.1.1.1")), 2);
    assert!(matches!(second, Action::Idle));
    let third = results.dispatch(&notifier, Ok(ip("2.2.2.2")), 3);
    assert!(matches!(third, Action::Print(text) if text == "2.2.2.2"));
}

#[test]
fn a_failed_lookup_is_reported_and_leaves_the_history() {
    let mut results = IpResults::new(Some(true));
    let notifier = StdoutNotifier::new();
    results.dispatch(&notifier, Ok(ip("1.1.1.1")), 1);
    results.dispatch(&notifier, Ok(ip("1.1.1.1")), 2);
    let failed = results.dispatch(
        &notifier,
        Err(IpError::new(ErrorReason::NoIpAddressesFound)),
        3,
    );
    assert!(matches!(failed, Action::Print(text) if text
        == "No IP addresses were found in the result storage. Most likely, a query has not been run."));
    assert_eq!(results.len(), 2);
    assert!(results.ip_has_changed() == false);
    assert_eq!(results.get_latest_ip().unwrap(), ip("1.1.1.1"));
}

#[test]
fn the_flag_given_to_a_round_overrules_the_history() {
    let mut results = IpResults::new(Some(false));
    let notifier = StdoutNotifier::new();
    results.record_and_report(&notifier, Ok(ip("1.1.1.1")), 1, true);
    let second = results.record_and_report(&notifier, Ok(ip("1.1.1.1")), 2, true);
    assert!(matches!(second, Action::Idle));
    assert!(results.only_notify_on_change() == false);
}

#[test]
fn a_round_reads_the_responses_and_the_clock() {
    let mut results = IpResults::new(Some(true));
    let notifier = StdoutNotifier::new();
    let responses = vec![Some("1.2.3.4".to_string()), Some("1.2.3.4".to_string())];
    let first = results.query_ip(&notifier, responses);
    assert!(matches!(first, Action::Print(text) if text == "1.2.3.4"));
    let again = results.query_ip(&notifier, vec![None, Some("1.2.3.4".to_string())]);
    assert!(matches!(again, Action::Idle));
    let conflict = results.query_ip(
        &notifier,
        vec![Some("1.2.3.4".to_string()), Some("5.6.7.8".to_string())],
    );
    assert!(matches!(conflict, Action::Print(text) if text
        == "Multiple IPs were reported back from the list of services\n\"1.2.3.4\\n5.6.7.8\""));
    assert_eq!(results.get_latest_ip().unwrap(), ip("1.2.3.4"));
}

#[test]
fn the_time_of_the_latest_observation_is_kept() {
    let mut results = IpResults::new(None);
    assert_eq!(results.latest_checked_at(), None);
    results.add_result(ip("1.1.1.1"), 1_700_000_000_000);
    assert_eq!(results.latest_checked_at(), Some(1_700_000_000_000));
    results.add_result(ip("1.1.1.1"), -5);
    assert_eq!(results.latest_checked_at(), Some(-5));
}

#[test]
fn a_round_records_the_time_of_the_clock() {
    let mut results = IpResults::new(None);
    let notifier = StdoutNotifier::new();
    results.query_ip(&notifier, vec![Some("1.2.3.4".to_string())]);
    let first = results.latest_checked_at().unwrap();
    // Later than the first day of 2020.
    assert!(first > 1_577_836_800_000);
    results.query_ip(&notifier, vec![Some("1.2.3.4".to_string())]);
    assert!(results.latest_checked_at().unwrap() >= first);
    results.query_ip(&notifier, vec![None]);
    assert!(results.latest_checked_at().unwrap() >= first);
}
