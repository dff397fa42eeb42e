use findip_lib::errors::ErrorReason;
use findip_lib::ip_query::{collect_readings, run_ip_query, uniq, IpQueryParams};
use findip_lib::types::IpAddress;

fn strings(items: &[&str]) -> Vec<String> {
    items.iter().map(|item| item.to_string()).collect()
}

fn answers(items: &[&str]) -> Vec<Option<String>> {
    items.iter().map(|item| Some(item.to_string())).collect()
}

#[test]
fn test_uniq_returns_vec_without_duplicates() {
    let v = strings(&["1", "1", "2", "3", "4", "5", "5", "6", "6", "6", "6", "6"]);
    let result = uniq(v);
    assert_eq!(result, strings(&["1", "2", "3", "4", "5", "6"]));
}

#[test]
fn test_uniq_returns_vec_as_is_when_no_duplicates() {
    let v = strings(&["1", "2", "3", "4", "5", "6"]);
    let result = uniq(v);
    assert_eq!(result, strings(&["1", "2", "3", "4", "5", "6"]));
}

#[test]
fn test_uniq_returns_vec_as_is_when_only_one_element() {
    let v = strings(&["1"]);
    let result = uniq(v);
    assert_eq!(result, strings(&["1"]));
}

#[test]
fn test_uniq_returns_vec_as_is_when_empty() {
    let v: Vec<String> = vec![];
    let result = uniq(v);
    assert_eq!(result, Vec::<String>::new());
}

#[test]
fn uniq_keeps_the_place_of_the_first_occurrence() {
    let result = uniq(strings(&["b", "a", "b", "c", "a"]));
    assert_eq!(result, strings(&["b", "a", "c"]));
}

#[test]
fn query_params_hold_the_services() {
    let params = IpQueryParams { services: strings(&["A", "B"]) };
    assert_eq!(params.services, strings(&["A", "B"]));
}

#[test]
fn readings_are_the_texts_that_are_not_empty() {
    let responses = vec![
        Some("1.2.3.4".to_string()),
        None,
        Some(String::new()),
        Some("1.2.3.4".to_string()),
    ];
    assert_eq!(collect_readings(&responses), strings(&["1.2.3.4", "1.2.3.4"]));
}

#[test]
fn two_services_that_agree_give_the_address() {
    let outcome = run_ip_query(answers(&["1.2.3.4", "1.2.3.4"]));
    assert_eq!(outcome.unwrap(), IpAddress::new("1.2.3.4".to_string()));
}

#[test]
fn two_services_that_disagree_give_a_conflict_with_both_readings() {
    let outcome = run_ip_query(answers(&["1.2.3.4", "5.6.7.8"]));
    match outcome.unwrap_err().reason() {
        ErrorReason::IpConflict(ips) => assert_eq!(*ips, strings(&["1.2.3.4", "5.6.7.8"])),
        other => panic!("unexpected reason {:?}", other),
    }
}

#[test]
fn a_conflict_holds_every_reading_with_its_repetitions() {
    let outcome = run_ip_query(answers(&["1.2.3.4", "5.6.7.8", "", "1.2.3.4"]));
    match outcome.unwrap_err().reason() {
        ErrorReason::IpConflict(ips) => {
            assert_eq!(*ips, strings(&["1.2.3.4", "5.6.7.8", "1.2.3.4"]))
        }
        other => panic!("unexpected reason {:?}", other),
    }
}

#[test]
fn one_reading_among_failures_gives_the_address() {
    let responses = vec![None, Some(String::new()), Some("9.9.9.9".to_string()), None];
    assert_eq!(run_ip_query(responses).unwrap(), IpAddress::new("9.9.9.9".to_string()));
}

#[test]
fn empty_responses_give_no_address() {
    let outcome = run_ip_query(vec![Some(String::new()), None, Some(String::new())]);
    assert!(matches!(outcome.unwrap_err().reason(), ErrorReason::NoIpAddressesFound));
}

#[test]
fn no_responses_give_no_address() {
    let outcome = run_ip_query(Vec::new());
    assert!(matches!(outcome.unwrap_err().reason(), ErrorReason::NoIpAddressesFound));
}
