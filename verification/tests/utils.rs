use findip_lib::utils::{
    generate_error_file_path, get_verbosity, parse_into_utc, replace_tokens,
    try_generate_error_file_path, try_parse_into_utc, VerbosityLevel,
};

#[test]
fn test_replace_tokens_with_no_tokens() {
    let template = "test string".to_string();
    let token_value_map = Vec::<(String, String)>::new();

    let result = replace_tokens(template, token_value_map);
    assert_eq!(result, "test string");
}

#[test]
fn test_replace_tokens_with_one_token() {
    let template = "test string with {{TOKEN}}".to_string();
    let mut token_value_map = Vec::new();
    token_value_map.push(("{{TOKEN}}".to_string(), "token value!".to_string()));

    let result = replace_tokens(template, token_value_map);
    assert_eq!(result, "test string with token value!");
}

#[test]
fn test_replace_tokens_with_no_tokens_in_input() {
    let template = "test string without tokens".to_string();
    let mut token_value_map = Vec::new();
    token_value_map.push(("{{TOKEN}}".to_string(), "token value!".to_string()));

    let result = replace_tokens(template, token_value_map);
    assert_eq!(result, "test string without tokens");
}

#[test]
fn test_replace_tokens_with_multiple_tokens() {
    let template = "test string with {{TOKEN1}} and {{TOKEN2}}".to_string();
    let mut token_value_map = Vec::new();
    token_value_map.push(("{{TOKEN1}}".to_string(), "token value 1".to_string()));
    token_value_map.push(("{{TOKEN2}}".to_string(), "token value 2!".to_string()));

    let result = replace_tokens(template, token_value_map);
    assert_eq!(result, "test string with token value 1 and token value 2!");
}

#[test]
fn replace_tokens_replaces_every_occurrence() {
    let tokens = vec![("{{T}}".to_string(), "x".to_string())];
    let result = replace_tokens("{{T}}-{{T}}{{T}}-{T}}".to_string(), tokens);
    assert_eq!(result, "x-xx-{T}}");
}

#[test]
fn replace_tokens_goes_by_the_order_of_the_tokens() {
    let tokens =
        vec![("a".to_string(), "b".to_string()), ("b".to_string(), "c".to_string())];
    assert_eq!(replace_tokens("ab".to_string(), tokens), "cc");
    let tokens =
        vec![("b".to_string(), "c".to_string()), ("a".to_string(), "b".to_string())];
    assert_eq!(replace_tokens("ab".to_string(), tokens), "bc");
}

#[test]
fn verbosity_rises_with_each_of_the_first_three_flags() {
    assert_eq!(get_verbosity(0), VerbosityLevel::Standard);
    assert_eq!(get_verbosity(1), VerbosityLevel::Verbose);
    assert_eq!(get_verbosity(2), VerbosityLevel::PrettyNoisy);
    assert_eq!(get_verbosity(3), VerbosityLevel::LiterallyEverything);
    assert_eq!(get_verbosity(4), VerbosityLevel::LiterallyEverything);
    assert_eq!(get_verbosity(u64::MAX), VerbosityLevel::LiterallyEverything);
}

#[test]
fn verbosity_levels_are_ranked_in_their_order() {
    assert_eq!(VerbosityLevel::Standard.rank(), 0);
    assert_eq!(VerbosityLevel::Verbose.rank(), 1);
    assert_eq!(VerbosityLevel::PrettyNoisy.rank(), 2);
    assert_eq!(VerbosityLevel::LiterallyEverything.rank(), 3);
}

#[test]
fn test_generate_error_file_path_with_just_file_name() {
    let log_file_path = "output.log".to_string();
    let error_file_path = generate_error_file_path(log_file_path);
    assert_eq!(error_file_path, "output.errors.log".to_string());
}

#[test]
fn test_generate_error_file_path_with_relative_path() {
    let log_file_path = "var/logs/output.log".to_string();
    let error_file_path = generate_error_file_path(log_file_path);
    assert_eq!(error_file_path, "var/logs/output.errors.log".to_string());
}

#[test]
fn test_generate_error_file_path_with_absolute_path() {
    let log_file_path = "/tmp/logs/output.log".to_string();
    let error_file_path = generate_error_file_path(log_file_path);
    assert_eq!(error_file_path, "/tmp/logs/output.errors.log".to_string());
}

#[test]
fn test_generate_error_file_path_with_dots() {
    let log_file_path = "./logs/output.log".to_string();
    let error_file_path = generate_error_file_path(log_file_path);
    assert_eq!(error_file_path, "./logs/output.errors.log".to_string());
}

#[test]
fn the_error_file_of_the_default_log_stands_beside_it() {
    assert_eq!(
        try_generate_error_file_path("/tmp/ip_notifier.log".to_string()),
        Some("/tmp/ip_notifier.errors.log".to_string())
    );
    assert_eq!(
        try_generate_error_file_path("logs/archive.tar.gz".to_string()),
        Some("logs/archive.tar.errors.gz".to_string())
    );
}

#[test]
fn a_path_without_an_extension_has_no_error_file() {
    assert_eq!(try_generate_error_file_path("logs/output".to_string()), None);
    assert_eq!(try_generate_error_file_path("logs/.hidden".to_string()), None);
    assert_eq!(try_generate_error_file_path("".to_string()), None);
    assert_eq!(try_generate_error_file_path("/".to_string()), None);
    assert_eq!(try_generate_error_file_path("logs/..".to_string()), None);
}

#[test]
fn a_time_is_read_whatever_its_offset() {
    assert_eq!(parse_into_utc("1970-01-01T00:00:01.444Z".to_string()), 1_444);
    assert_eq!(parse_into_utc("2001-09-09T01:46:40.555+00:00".to_string()), 1_000_000_000_555);
    assert_eq!(parse_into_utc("1996-12-19T16:39:57-08:00".to_string()), 851_042_397_000);
    assert_eq!(
        parse_into_utc("1996-12-20T00:39:57Z".to_string()),
        parse_into_utc("1996-12-19T16:39:57-08:00".to_string())
    );
    assert_eq!(parse_into_utc("1969-12-31T23:59:59Z".to_string()), -1_000);
}

#[test]
fn what_is_not_a_time_is_not_read() {
    assert_eq!(try_parse_into_utc("2001-09-09T01:46:40Z".to_string()), Some(1_000_000_000_000));
    assert_eq!(try_parse_into_utc("2001-09-09".to_string()), None);
    assert_eq!(try_parse_into_utc("yesterday".to_string()), None);
    assert_eq!(try_parse_into_utc("".to_string()), None);
    assert_eq!(try_parse_into_utc("2001-13-09T01:46:40Z".to_string()), None);
}
