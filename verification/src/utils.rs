//! Small things that the rest is made with.

use crate::text::{followed_by, replace, replace_all};
use std::path::Path;
use vstd::prelude::*;

verus! {

/// How much is said on the console, from least to most.
#[derive(Debug, Clone, Copy, PartialEq, Eq, Structural)]
pub enum VerbosityLevel {
    Standard,
    Verbose,
    PrettyNoisy,
    LiterallyEverything,
}

impl VerbosityLevel {
    /// The place of a level among the levels, counted from 0.
    pub open spec fn spec_rank(self) -> u32 {
        match self {
            VerbosityLevel::Standard => 0,
            VerbosityLevel::Verbose => 1,
            VerbosityLevel::PrettyNoisy => 2,
            VerbosityLevel::LiterallyEverything => 3,
        }
    }

    /// The place of a level among the levels, counted from 0.
    #[verifier::when_used_as_spec(spec_rank)]
    pub fn rank(self) -> (rank: u32)
        ensures
            rank == self.spec_rank(),
    {
        match self {
            VerbosityLevel::Standard => 0,
            VerbosityLevel::Verbose => 1,
            VerbosityLevel::PrettyNoisy => 2,
            VerbosityLevel::LiterallyEverything => 3,
        }
    }
}

/// The level asked for by giving the verbose flag `occurrences` times.
pub open spec fn verbosity_for(occurrences: u64) -> VerbosityLevel {
    if occurrences == 0 {
        VerbosityLevel::Standard
    } else if occurrences == 1 {
        VerbosityLevel::Verbose
    } else if occurrences == 2 {
        VerbosityLevel::PrettyNoisy
    } else {
        VerbosityLevel::LiterallyEverything
    }
}

/// The level asked for by giving the verbose flag `occurrences` times: one
/// level up for each of the first three.
pub fn get_verbosity(occurrences: u64) -> (level: VerbosityLevel)
    ensures
        level == verbosity_for(occurrences),
        level.rank() == if occurrences < 3 {
            occurrences
        } else {
            3
        },
{
    match occurrences {
        0 => VerbosityLevel::Standard,
        1 => VerbosityLevel::Verbose,
        2 => VerbosityLevel::PrettyNoisy,
        _ => VerbosityLevel::LiterallyEverything,
    }
}

/// The tokens with the value of each, as contracts see them.
pub open spec fn token_values(tokens: Seq<(String, String)>) -> Seq<(Seq<char>, Seq<char>)> {
    Seq::new(tokens.len(), |i: int| (tokens[i].0@, tokens[i].1@))
}

/// `template` after each token was replaced by its value, one token after
/// the other in their order: a later token is also replaced where the value
/// of an earlier one brought it in.
pub open spec fn replace_each(template: Seq<char>, tokens: Seq<(Seq<char>, Seq<char>)>) -> Seq<
    char,
>
    decreases tokens.len(),
{
    if tokens.len() == 0 {
        template
    } else {
        replace_all(replace_each(template, tokens.drop_last()), tokens.last().0, tokens.last().1)
    }
}

/// Replaces every occurrence of each token in `template` by the value that
/// stands with the token.
pub fn replace_tokens(template: String, token_value_map: Vec<(String, String)>) -> (result: String)
    ensures
        result@ == replace_each(template@, token_values(token_value_map@)),
{
    let mut result: String = template;
    let n: usize = token_value_map.len();
    let mut i: usize = 0;
    while i < n
        invariant
            i <= n,
            n == token_value_map.len(),
            result@ == replace_each(template@, token_values(token_value_map@).take(i as int)),
        decreases n - i,
    {
        proof {
            let next = token_values(token_value_map@).take(i + 1);
            assert(next.drop_last() == token_values(token_value_map@).take(i as int));
            assert(next.last() == (token_value_map@[i as int].0@, token_value_map@[i as int].1@));
        }
        result = replace(
            result.as_str(),
            token_value_map[i].0.as_str(),
            token_value_map[i].1.as_str(),
        );
        i += 1;
    }
    assert(token_values(token_value_map@).take(n as int) == token_values(token_value_map@));
    result
}

/// With one token, each of its occurrences is replaced and nothing else is.
pub proof fn lemma_replace_one(template: Seq<char>, token: Seq<char>, value: Seq<char>)
    ensures
        replace_each(template, seq![(token, value)]) == replace_all(template, token, value),
{
    let tokens = seq![(token, value)];
    assert(tokens.drop_last().len() == 0);
    assert(replace_each(template, tokens.drop_last()) == template);
}

/// What `Path::file_stem` of std finds in `path`, by the rules for paths of
/// the platform that this is built for: the last component without its
/// extension, if the path ends in a file name.
pub uninterp spec fn path_file_stem(path: Seq<char>) -> Option<Seq<char>>;

/// What `Path::extension` of std finds in `path`: what follows the last dot
/// of the file name, if there is a file name with a dot that is not its
/// first character.
pub uninterp spec fn path_extension(path: Seq<char>) -> Option<Seq<char>>;

/// What `Path::with_file_name` of std makes of `path`: the same path with
/// `file_name` in place of its last component.
pub uninterp spec fn path_with_file_name(path: Seq<char>, file_name: Seq<char>) -> Seq<char>;

/// A text that may be missing, as contracts see it.
pub open spec fn text_of(text: Option<String>) -> Option<Seq<char>> {
    match text {
        Some(text) => Some(text@),
        None => None,
    }
}

/// Calls `Path::file_stem` on `path`. The path is text, so the stem is too.
#[verifier::external_body]
fn file_stem(path: &str) -> (stem: Option<String>)
    ensures
        text_of(stem) == path_file_stem(path@),
{
    match Path::new(path).file_stem() {
        Some(stem) => Some(stem.to_string_lossy().into_owned()),
        None => None,
    }
}

/// Calls `Path::extension` on `path`. The path is text, so the extension is
/// too.
#[verifier::external_body]
fn extension(path: &str) -> (extension: Option<String>)
    ensures
        text_of(extension) == path_extension(path@),
{
    match Path::new(path).extension() {
        Some(extension) => Some(extension.to_string_lossy().into_owned()),
        None => None,
    }
}

/// Calls `Path::with_file_name` on `path`. Both are text, so the result is
/// too.
#[verifier::external_body]
fn with_file_name(path: &str, file_name: &str) -> (renamed: String)
    ensures
        renamed@ == path_with_file_name(path@, file_name@),
{
    Path::new(path).with_file_name(file_name).to_string_lossy().into_owned()
}

/// The name of the file that holds the errors of the log file with this
/// stem and extension.
pub open spec fn error_file_name(stem: Seq<char>, extension: Seq<char>) -> Seq<char> {
    stem + ".errors."@ + extension
}

/// The path of the file that holds the errors of the log at `log_file_path`:
/// beside the log, under its name with `.errors` before the extension. There
/// is none for a path without a file name or without an extension.
pub open spec fn error_file_path(log_file_path: Seq<char>) -> Option<Seq<char>> {
    match (path_file_stem(log_file_path), path_extension(log_file_path)) {
        (Some(stem), Some(extension)) => Some(
            path_with_file_name(log_file_path, error_file_name(stem, extension)),
        ),
        _ => None,
    }
}

/// The path of the file that holds the errors of the log at `log_file_path`,
/// which has a file name with an extension.
pub fn generate_error_file_path(log_file_path: String) -> (path: String)
    requires
        error_file_path(log_file_path@) is Some,
    ensures
        Some(path@) == error_file_path(log_file_path@),
{
    let stem: String = file_stem(log_file_path.as_str()).unwrap();
    let extension: String = extension(log_file_path.as_str()).unwrap();
    let marked: String = followed_by(stem.as_str(), ".errors.");
    let name: String = followed_by(marked.as_str(), extension.as_str());
    with_file_name(log_file_path.as_str(), name.as_str())
}

/// The path of the file that holds the errors of the log at `log_file_path`,
/// or `None` for a path without a file name or without an extension.
pub fn try_generate_error_file_path(log_file_path: String) -> (path: Option<String>)
    ensures
        text_of(path) == error_file_path(log_file_path@),
{
    if file_stem(log_file_path.as_str()).is_some() && extension(log_file_path.as_str()).is_some() {
        Some(generate_error_file_path(log_file_path))
    } else {
        None
    }
}

/// The point in time that `DateTime::parse_from_rfc3339` of chrono reads in
/// `text`, in milliseconds since the Unix epoch; `None` where it reads none.
pub uninterp spec fn rfc3339_millis(text: Seq<char>) -> Option<int>;

/// A time that may be missing, as contracts see it.
pub open spec fn time_of(millis: Option<i64>) -> Option<int> {
    match millis {
        Some(millis) => Some(millis as int),
        None => None,
    }
}

/// Calls `DateTime::parse_from_rfc3339` of chrono and, where the text is a
/// point in time, `DateTime::timestamp_millis` on the result.
#[verifier::external_body]
fn parse_rfc3339(text: &str) -> (millis: Option<i64>)
    ensures
        time_of(millis) == rfc3339_millis(text@),
{
    match chrono::DateTime::parse_from_rfc3339(text) {
        Ok(time) => Some(time.timestamp_millis()),
        Err(_) => None,
    }
}

/// The point in time that `expiration_str` gives in the form of RFC 3339,
/// in milliseconds since the Unix epoch, whatever offset it is written with.
pub fn parse_into_utc(expiration_str: String) -> (millis: i64)
    requires
        rfc3339_millis(expiration_str@) is Some,
    ensures
        Some(millis as int) == rfc3339_millis(expiration_str@),
{
    parse_rfc3339(expiration_str.as_str()).unwrap()
}

/// The point in time that `expiration_str` gives in the form of RFC 3339,
/// or `None` where it is not of that form.
pub fn try_parse_into_utc(expiration_str: String) -> (millis: Option<i64>)
    ensures
        time_of(millis) == rfc3339_millis(expiration_str@),
{
    if parse_rfc3339(expiration_str.as_str()).is_some() {
        Some(parse_into_utc(expiration_str))
    } else {
        None
    }
}

} // verus!
