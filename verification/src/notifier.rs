//! The backends that an address is reported to. A notifier does not act: it
//! says which action reports an address or an error, and which error a
//! failed action amounts to. Whoever runs the action hands back its outcome.

use crate::errors::{message_text, ErrorReason, IpError, Reason};
use crate::text::{
    followed_by, lemma_replace_absent, lemma_replace_first, occurs_at, occurs_in, replace_all,
};
use crate::types::IpAddress;
use crate::utils::{lemma_replace_one, replace_tokens, token_values};
use rusoto_core::Region;
use std::collections::HashMap;
use vstd::prelude::*;

verus! {

/// How a file is written.
#[derive(Debug, Clone, Copy, PartialEq, Eq, Structural)]
pub enum WriteMode {
    /// The contents replace what the file held; the file is created if it is
    /// missing.
    Overwrite,
    /// The contents are put behind what the file holds; a missing file is not
    /// created.
    Append,
}

/// A write of `contents`, as they are, to the file at `path`.
#[derive(Debug)]
pub struct FileWrite {
    pub path: String,
    pub contents: String,
    pub mode: WriteMode,
}

/// An upload of `body` as the object `key` of `bucket`, in `region`, under
/// the role `assume_role_arn` taken on with the given access key.
#[derive(Debug)]
pub struct ObjectUpload {
    pub access_key_id: String,
    pub secret_access_key: String,
    pub assume_role_arn: String,
    pub region: String,
    pub bucket: String,
    pub key: String,
    pub body: String,
}

/// One HTTP request.
#[derive(Debug)]
pub struct RestRequest {
    pub method: String,
    pub url: String,
    pub headers: HashMap<String, String>,
    pub body: String,
}

/// What a notifier wants done.
#[derive(Debug)]
pub enum Action {
    /// Nothing.
    Idle,
    WriteFile(FileWrite),
    PutObject(ObjectUpload),
    SendRequest(RestRequest),
    /// Write the text to the console.
    Print(String),
    /// Write the text to the error log.
    LogError(String),
}

/// How an action ended.
#[derive(Debug)]
pub enum Outcome {
    /// It was carried out.
    Done,
    /// The file could not be opened.
    OpenFailed,
    /// The write, the upload or the request failed; holds what the transport
    /// said of it.
    Failed(String),
}

/// What the transport said of a failure; nothing where it had no say.
pub open spec fn failure_text(outcome: Outcome) -> Seq<char> {
    match outcome {
        Outcome::Failed(reason) => reason@,
        _ => Seq::empty(),
    }
}

/// The placeholder that stands for the address in a URL or a request body.
pub open spec fn ip_token() -> Seq<char> {
    "{{TOKEN_IP_ADDRESS}}"@
}

/// `template` with the address in place of each placeholder.
pub open spec fn fill_in(template: Seq<char>, ip: Seq<char>) -> Seq<char> {
    replace_all(template, ip_token(), ip)
}

/// A template without the placeholder is sent as it is.
pub proof fn lemma_fill_in_absent(template: Seq<char>, ip: Seq<char>)
    requires
        !occurs_in(template, ip_token()),
    ensures
        fill_in(template, ip) == template,
{
    reveal_strlit("{{TOKEN_IP_ADDRESS}}");
    lemma_replace_absent(template, ip_token(), ip);
}

/// The first placeholder of a template becomes the address, what stands
/// before it stays, and what follows it is filled in in the same way: every
/// placeholder becomes the address. The same holds of a URL and of a body.
pub proof fn lemma_fill_in_each(template: Seq<char>, ip: Seq<char>, at: int)
    requires
        occurs_at(template, ip_token(), at),
        forall|before: int| 0 <= before < at ==> !occurs_at(template, ip_token(), before),
    ensures
        fill_in(template, ip) == template.take(at) + ip + fill_in(
            template.skip(at + ip_token().len()),
            ip,
        ),
{
    reveal_strlit("{{TOKEN_IP_ADDRESS}}");
    lemma_replace_first(template, ip_token(), ip, at);
}

/// The name of the object that holds the address reported in the hour
/// `stamp`.
pub open spec fn object_key(stamp: Seq<char>) -> Seq<char> {
    stamp + "-ipnotification.txt"@
}

/// The canonical name of the region that `text` names, in any of the
/// spellings that `Region::from_str` of rusoto_core takes; `None` where it
/// takes none.
pub uninterp spec fn region_name(text: Seq<char>) -> Option<Seq<char>>;

/// The region to upload to: the one that `text` names, or `us-west-2` where
/// it names none.
pub open spec fn effective_region(text: Seq<char>) -> Seq<char> {
    match region_name(text) {
        Some(name) => name,
        None => "us-west-2"@,
    }
}

/// `action` writes `text` to the error log.
pub open spec fn logs(action: Action, text: Seq<char>) -> bool {
    action matches Action::LogError(line) && line@ == text
}

/// `action` writes `text` to the console.
pub open spec fn prints(action: Action, text: Seq<char>) -> bool {
    action matches Action::Print(line) && line@ == text
}

/// Calls `Region::from_str` of rusoto_core, through `str::parse`, and, where
/// it knows the region, `Region::name` on the result.
#[verifier::external_body]
fn parse_region(text: &str) -> (name: Option<String>)
    ensures
        name is Some <==> region_name(text@) is Some,
        name matches Some(n) ==> Some(n@) == region_name(text@),
{
    match text.parse::<Region>() {
        Ok(region) => Some(region.name().to_string()),
        Err(_) => None,
    }
}

/// Calls `Local::now` of chrono and formats the result as year, month, day
/// and hour of the local time, with hyphens between them. Which text comes
/// back depends on the clock and the time zone of the machine, so nothing is
/// claimed of it. `Local::now` does not return where the clock stands before
/// 1970.
#[verifier::external_body]
fn local_hour_stamp() -> (stamp: String) {
    chrono::Local::now().format("%Y-%m-%d-%H").to_string()
}

/// `serde_json::Error`, of which nothing is read.
#[verifier::external_type_specification]
#[verifier::external_body]
pub struct ExJsonError(serde_json::Error);

/// Calls `serde_json::to_string` on the map. It fails only where a key is no
/// string, where an item refuses to be written, or where the writer fails:
/// here keys and values are strings and the writer is a vector of bytes, so
/// it gives a text. The members of the object come in the order in which the
/// map is walked, which differs from run to run, so nothing is claimed of
/// what the text is.
#[verifier::external_body]
fn body_json(body: &HashMap<String, String>) -> (json: Result<String, serde_json::Error>)
    ensures
        json is Ok,
{
    serde_json::to_string(body)
}

/// A backend that an address or an error is reported to.
pub trait IpNotifier {
    /// `action` reports the address `ip` to this backend.
    spec fn reports(&self, ip: Seq<char>, action: Action) -> bool;

    /// `action` reports an error with the sentence `message`.
    spec fn reports_error(&self, message: Seq<char>, action: Action) -> bool;

    /// The error that `outcome` amounts to, when it is that of an action of
    /// this notifier; `None` where the action succeeded.
    spec fn failure(&self, outcome: Outcome) -> Option<Reason>;

    /// The action that reports `ip`.
    fn notify_success(&self, ip: &IpAddress) -> (action: Action)
        ensures
            self.reports(ip@, action),
    ;

    /// The action that reports `err`.
    fn notify_error(&self, err: IpError) -> (action: Action)
        ensures
            self.reports_error(message_text(err@), action),
    ;

    /// What follows an action of this notifier that ended in `outcome`:
    /// nothing after a success, the report of the error after a failure.
    fn conclude(&self, outcome: Outcome) -> (next: Action)
        ensures
            match self.failure(outcome) {
                None => next is Idle,
                Some(reason) => self.reports_error(message_text(reason), next),
            },
    ;
}

/// The action that writes the sentence of `err` to the error log.
pub fn log_error(err: IpError) -> (action: Action)
    ensures
        logs(action, message_text(err@)),
{
    Action::LogError(err.message())
}

/// Reports the address by writing it to a file.
pub struct FileNotifier {
    overwrite: bool,
    file_path: String,
}

impl FileNotifier {
    pub closed spec fn overwrites(&self) -> bool {
        self.overwrite
    }

    pub closed spec fn path(&self) -> Seq<char> {
        self.file_path@
    }

    pub fn new(file_path: String, overwrite: bool) -> (notifier: FileNotifier)
        ensures
            notifier.path() == file_path@,
            notifier.overwrites() == overwrite,
    {
        FileNotifier { file_path, overwrite }
    }
}

/// The write that reports `ip` to the file at `path`.
pub open spec fn file_reports(path: Seq<char>, overwrite: bool, ip: Seq<char>, action: Action) -> bool {
    &&& action matches Action::WriteFile(write)
    &&& write.path@ == path
    &&& write.contents@ == ip
    &&& write.mode == if overwrite {
        WriteMode::Overwrite
    } else {
        WriteMode::Append
    }
}

/// The error that `outcome` amounts to for a write to the file at `path`.
/// Replacing the contents is one step, so whatever goes wrong in it is a
/// failed write; appending opens the file first.
pub open spec fn file_failure(path: Seq<char>, overwrite: bool, outcome: Outcome) -> Option<
    Reason,
> {
    match outcome {
        Outcome::Done => None,
        Outcome::OpenFailed => if overwrite {
            Some(Reason::FileWriteFailed(path))
        } else {
            Some(Reason::FileOpenFailed(path))
        },
        Outcome::Failed(_) => Some(Reason::FileWriteFailed(path)),
    }
}

impl IpNotifier for FileNotifier {
    open spec fn reports(&self, ip: Seq<char>, action: Action) -> bool {
        file_reports(self.path(), self.overwrites(), ip, action)
    }

    open spec fn reports_error(&self, message: Seq<char>, action: Action) -> bool {
        logs(action, message)
    }

    open spec fn failure(&self, outcome: Outcome) -> Option<Reason> {
        file_failure(self.path(), self.overwrites(), outcome)
    }

    fn notify_success(&self, ip: &IpAddress) -> (action: Action) {
        let mode: WriteMode = if self.overwrite {
            WriteMode::Overwrite
        } else {
            WriteMode::Append
        };
        Action::WriteFile(
            FileWrite { path: self.file_path.clone(), contents: ip.to_string(), mode },
        )
    }

    fn notify_error(&self, err: IpError) -> (action: Action) {
        log_error(err)
    }

    fn conclude(&self, outcome: Outcome) -> (next: Action) {
        match outcome {
            Outcome::Done => Action::Idle,
            Outcome::OpenFailed => if self.overwrite {
                self.notify_error(
                    IpError::new(ErrorReason::FileWriteFailed(self.file_path.clone())),
                )
            } else {
                self.notify_error(IpError::new(ErrorReason::FileOpenFailed(self.file_path.clone())))
            },
            Outcome::Failed(_) => self.notify_error(
                IpError::new(ErrorReason::FileWriteFailed(self.file_path.clone())),
            ),
        }
    }
}

/// Reports the address by uploading it to a bucket, under a role taken on
/// for the upload.
pub struct S3Notifier {
    access_key_id: String,
    secret_access_key: String,
    assume_role_arn: String,
    region: String,
    bucket_name: String,
}

/// An `S3Notifier` as contracts see it.
pub struct S3Target {
    pub access_key_id: Seq<char>,
    pub secret_access_key: Seq<char>,
    pub assume_role_arn: Seq<char>,
    pub region: Seq<char>,
    pub bucket_name: Seq<char>,
}

/// The upload that reports `ip` to `target` in the hour `stamp`.
pub open spec fn uploads(target: S3Target, ip: Seq<char>, stamp: Seq<char>, action: Action) -> bool {
    &&& action matches Action::PutObject(upload)
    &&& upload.access_key_id@ == target.access_key_id
    &&& upload.secret_access_key@ == target.secret_access_key
    &&& upload.assume_role_arn@ == target.assume_role_arn
    &&& upload.region@ == effective_region(target.region)
    &&& upload.bucket@ == target.bucket_name
    &&& upload.key@ == object_key(stamp)
    &&& upload.body@ == ip
}

/// The error that `outcome` amounts to for an upload.
pub open spec fn upload_failure(outcome: Outcome) -> Option<Reason> {
    match outcome {
        Outcome::Done => None,
        _ => Some(Reason::S3WriteFailed(failure_text(outcome))),
    }
}

impl View for S3Notifier {
    type V = S3Target;

    closed spec fn view(&self) -> S3Target {
        S3Target {
            access_key_id: self.access_key_id@,
            secret_access_key: self.secret_access_key@,
            assume_role_arn: self.assume_role_arn@,
            region: self.region@,
            bucket_name: self.bucket_name@,
        }
    }
}

impl S3Notifier {
    pub fn new(
        access_key_id: String,
        secret_access_key: String,
        assume_role_arn: String,
        region: String,
        bucket_name: String,
    ) -> (notifier: S3Notifier)
        ensures
            notifier@ == (S3Target {
                access_key_id: access_key_id@,
                secret_access_key: secret_access_key@,
                assume_role_arn: assume_role_arn@,
                region: region@,
                bucket_name: bucket_name@,
            }),
    {
        S3Notifier { access_key_id, secret_access_key, assume_role_arn, region, bucket_name }
    }

    /// The name of the region to upload to.
    pub fn resolve_region(&self) -> (name: String)
        ensures
            name@ == effective_region(self@.region),
    {
        match parse_region(self.region.as_str()) {
            Some(name) => name,
            None => String::from_str("us-west-2"),
        }
    }

    /// The upload that reports `ip` in the hour `stamp`. Two reports in one
    /// hour go to the same object.
    pub fn upload_for(&self, ip: &IpAddress, stamp: &str) -> (action: Action)
        ensures
            uploads(self@, ip@, stamp@, action),
    {
        Action::PutObject(
            ObjectUpload {
                access_key_id: self.access_key_id.clone(),
                secret_access_key: self.secret_access_key.clone(),
                assume_role_arn: self.assume_role_arn.clone(),
                region: self.resolve_region(),
                bucket: self.bucket_name.clone(),
                key: followed_by(stamp, "-ipnotification.txt"),
                body: ip.to_string(),
            },
        )
    }
}

impl IpNotifier for S3Notifier {
    open spec fn reports(&self, ip: Seq<char>, action: Action) -> bool {
        exists|stamp: Seq<char>| uploads(self@, ip, stamp, action)
    }

    open spec fn reports_error(&self, message: Seq<char>, action: Action) -> bool {
        logs(action, message)
    }

    open spec fn failure(&self, outcome: Outcome) -> Option<Reason> {
        upload_failure(outcome)
    }

    fn notify_success(&self, ip: &IpAddress) -> (action: Action) {
        let stamp: String = local_hour_stamp();
        self.upload_for(ip, stamp.as_str())
    }

    fn notify_error(&self, err: IpError) -> (action: Action) {
        log_error(err)
    }

    fn conclude(&self, outcome: Outcome) -> (next: Action) {
        match outcome {
            Outcome::Done => Action::Idle,
            Outcome::OpenFailed => self.notify_error(
                IpError::new(ErrorReason::S3WriteFailed(String::new())),
            ),
            Outcome::Failed(reason) => self.notify_error(
                IpError::new(ErrorReason::S3WriteFailed(reason)),
            ),
        }
    }
}

/// Reports the address by one HTTP request, with the address in place of
/// each placeholder in the URL and in the body.
pub struct RestNotifier {
    url: String,
    method: String,
    body: HashMap<String, String>,
    headers: HashMap<String, String>,
}

/// A `RestNotifier` as contracts see it.
pub struct RestTarget {
    pub url: Seq<char>,
    pub method: Seq<char>,
    pub body: Map<String, String>,
    pub headers: Map<String, String>,
}

/// The request that reports `ip` to `target`, where `json` is the body of
/// the target written as a JSON object.
pub open spec fn requests(target: RestTarget, json: Seq<char>, ip: Seq<char>, action: Action) -> bool {
    &&& action matches Action::SendRequest(request)
    &&& request.method@ == target.method
    &&& request.url@ == fill_in(target.url, ip)
    &&& request.headers@ == target.headers
    &&& request.body@ == fill_in(json, ip)
}

/// Whether a response with this status code is a success: the codes from
/// 200 to 299 are, and no other.
pub open spec fn is_success(status: u16) -> bool {
    200 <= status < 300
}

/// How a request ended that was answered with the status code `status`, of
/// which the transport said `said`: done after a success, failed with what
/// was said after any other response.
pub fn response_outcome(status: u16, said: String) -> (outcome: Outcome)
    ensures
        outcome is Done <==> is_success(status),
        !is_success(status) ==> outcome == Outcome::Failed(said),
{
    if 200 <= status && status < 300 {
        Outcome::Done
    } else {
        Outcome::Failed(said)
    }
}

/// The error that `outcome` amounts to for a request.
pub open spec fn request_failure(outcome: Outcome) -> Option<Reason> {
    match outcome {
        Outcome::Done => None,
        _ => Some(Reason::RestRequestFailed(failure_text(outcome))),
    }
}

impl View for RestNotifier {
    type V = RestTarget;

    closed spec fn view(&self) -> RestTarget {
        RestTarget {
            url: self.url@,
            method: self.method@,
            body: self.body@,
            headers: self.headers@,
        }
    }
}

/// The placeholder with the address as its value.
fn token_values_for(ip: &IpAddress) -> (tokens: Vec<(String, String)>)
    ensures
        token_values(tokens@) == seq![(ip_token(), ip@)],
{
    let mut tokens: Vec<(String, String)> = Vec::new();
    tokens.push((String::from_str("{{TOKEN_IP_ADDRESS}}"), ip.to_string()));
    assert(token_values(tokens@) =~= seq![(ip_token(), ip@)]);
    tokens
}

impl RestNotifier {
    pub fn new(
        url: String,
        method: String,
        body: HashMap<String, String>,
        headers: HashMap<String, String>,
    ) -> (notifier: RestNotifier)
        ensures
            notifier@ == (RestTarget {
                url: url@,
                method: method@,
                body: body@,
                headers: headers@,
            }),
    {
        RestNotifier { url, method, body, headers }
    }

    /// The request that reports `ip`, given the body written as JSON.
    pub fn request_for(&self, json: &str, ip: &IpAddress) -> (action: Action)
        ensures
            requests(self@, json@, ip@, action),
    {
        proof {
            lemma_replace_one(self@.url, ip_token(), ip@);
            lemma_replace_one(json@, ip_token(), ip@);
        }
        Action::SendRequest(
            RestRequest {
                method: self.method.clone(),
                url: replace_tokens(self.url.clone(), token_values_for(ip)),
                headers: self.headers.clone(),
                body: replace_tokens(String::from_str(json), token_values_for(ip)),
            },
        )
    }

    /// Writes the body as a JSON object and makes the one request that
    /// reports `ip` from it: with the method and the headers as configured,
    /// and with the address filled in in the URL and in the body alone.
    pub fn make_request(&self, ip: &IpAddress) -> (action: Action)
        ensures
            exists|json: Seq<char>| requests(self@, json, ip@, action),
    {
        let json: String = body_json(&self.body).unwrap();
        self.request_for(json.as_str(), ip)
    }
}

impl IpNotifier for RestNotifier {
    open spec fn reports(&self, ip: Seq<char>, action: Action) -> bool {
        exists|json: Seq<char>| requests(self@, json, ip, action)
    }

    open spec fn reports_error(&self, message: Seq<char>, action: Action) -> bool {
        logs(action, message)
    }

    open spec fn failure(&self, outcome: Outcome) -> Option<Reason> {
        request_failure(outcome)
    }

    fn notify_success(&self, ip: &IpAddress) -> (action: Action) {
        self.make_request(ip)
    }

    fn notify_error(&self, err: IpError) -> (action: Action) {
        log_error(err)
    }

    fn conclude(&self, outcome: Outcome) -> (next: Action) {
        match outcome {
            Outcome::Done => Action::Idle,
            Outcome::OpenFailed => self.notify_error(
                IpError::new(ErrorReason::RestRequestFailed(String::new())),
            ),
            Outcome::Failed(reason) => self.notify_error(
                IpError::new(ErrorReason::RestRequestFailed(reason)),
            ),
        }
    }
}

/// Reports the address, and errors too, on the console.
pub struct StdoutNotifier {}

impl StdoutNotifier {
    pub fn new() -> StdoutNotifier {
        StdoutNotifier {  }
    }
}

impl IpNotifier for StdoutNotifier {
    open spec fn reports(&self, ip: Seq<char>, action: Action) -> bool {
        prints(action, ip)
    }

    open spec fn reports_error(&self, message: Seq<char>, action: Action) -> bool {
        prints(action, message)
    }

    open spec fn failure(&self, outcome: Outcome) -> Option<Reason> {
        None
    }

    fn notify_success(&self, ip: &IpAddress) -> (action: Action) {
        Action::Print(ip.to_string())
    }

    fn notify_error(&self, err: IpError) -> (action: Action) {
        Action::Print(err.message())
    }

    fn conclude(&self, outcome: Outcome) -> (next: Action) {
        Action::Idle
    }
}

} // verus!
