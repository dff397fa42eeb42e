//! What a run is configured with: the services to ask, the one notifier to
//! report to, and how to log. A configuration that exists is valid.

use crate::errors::{ErrorReason, IpError, Reason};
use crate::ip_query::IpQueryParams;
use crate::ip_result::IpResults;
use crate::notifier::{
    file_failure, file_reports, log_error, logs, prints, request_failure, requests,
    upload_failure, uploads, Action, FileNotifier, IpNotifier, Outcome,
    RestNotifier, RestTarget, S3Notifier, S3Target, StdoutNotifier,
};
use crate::text::{copy_texts, texts};
use crate::types::IpAddress;
use std::collections::HashMap;
use vstd::prelude::*;

verus! {

/// The backend to report to, as the configuration names it.
#[derive(Debug)]
pub enum Notifier {
    File { overwrite: bool, file_path: String },
    S3 {
        access_key_id: String,
        secret_access_key: String,
        assume_role_arn: String,
        region: String,
        bucket_name: String,
    },
    RestApi {
        url: String,
        method: String,
        body: HashMap<String, String>,
        headers: HashMap<String, String>,
    },
    Stdout,
}

/// The most verbose level of messages that is logged.
#[derive(Debug, Clone, Copy, PartialEq, Eq, Structural)]
pub enum LevelFilter {
    Off,
    Error,
    Warn,
    Info,
    Debug,
    Trace,
}

/// Where and how to log.
#[derive(Debug)]
pub struct LoggingConfig {
    pub log_file: String,
    pub log_level: LevelFilter,
    /// Whether each line starts with the time, the target and the level.
    pub decorate: bool,
}

/// The services that are asked where the configuration names none.
pub open spec fn default_services() -> Seq<Seq<char>> {
    seq!["https://api.ipify.org/"@, "https://diagnostic.opendns.com/myip"@]
}

/// The file that is logged to where the configuration names none.
pub open spec fn default_log_path() -> Seq<char> {
    "/tmp/ip_notifier.log"@
}

pub fn get_default_services() -> (services: Vec<String>)
    ensures
        texts(services@) == default_services(),
{
    let mut services: Vec<String> = Vec::new();
    services.push(String::from_str("https://api.ipify.org/"));
    services.push(String::from_str("https://diagnostic.opendns.com/myip"));
    assert(texts(services@) =~= default_services());
    services
}

pub fn get_default_logging_config() -> (config: LoggingConfig)
    ensures
        config.log_file@ == default_log_path(),
        config.log_level == LevelFilter::Info,
        config.decorate,
{
    let log_path = "/tmp/ip_notifier.log";
    LoggingConfig {
        log_file: String::from_str(log_path),
        log_level: LevelFilter::Info,
        decorate: true,
    }
}

pub fn get_default_log_path() -> (path: String)
    ensures
        path@ == default_log_path(),
{
    get_default_logging_config().log_file
}

pub fn get_default_logging_level() -> (level: LevelFilter)
    ensures
        level == LevelFilter::Info,
{
    get_default_logging_config().log_level
}

pub fn get_default_log_decoration() -> (decorate: bool)
    ensures
        decorate,
{
    get_default_logging_config().decorate
}

impl Clone for LoggingConfig {
    fn clone(&self) -> (copy: Self)
        ensures
            copy.log_file@ == self.log_file@,
            copy.log_level == self.log_level,
            copy.decorate == self.decorate,
    {
        LoggingConfig {
            log_file: self.log_file.clone(),
            log_level: self.log_level,
            decorate: self.decorate,
        }
    }
}

impl LoggingConfig {
    /// The logging configuration with the default in each place that is not
    /// given.
    pub fn new(log_file: Option<String>, log_level: Option<LevelFilter>, decorate: Option<bool>) -> (config:
        LoggingConfig)
        ensures
            config.log_file@ == match log_file {
                Some(path) => path@,
                None => default_log_path(),
            },
            config.log_level == match log_level {
                Some(level) => level,
                None => LevelFilter::Info,
            },
            config.decorate == match decorate {
                Some(flag) => flag,
                None => true,
            },
    {
        LoggingConfig {
            log_file: match log_file {
                Some(path) => path,
                None => get_default_log_path(),
            },
            log_level: match log_level {
                Some(level) => level,
                None => get_default_logging_level(),
            },
            decorate: match decorate {
                Some(flag) => flag,
                None => get_default_log_decoration(),
            },
        }
    }
}

/// The configuration of a run. It names exactly one notifier and at least
/// one service.
#[derive(Debug)]
pub struct ConfigFile {
    cron: String,
    services: Vec<String>,
    notify_on_change_only: bool,
    notifiers: Vec<Notifier>,
    logging_config: LoggingConfig,
}

/// Why a configuration with this many services and notifiers is refused;
/// `None` where it is accepted. Services that are not given stand for the
/// default ones.
pub open spec fn refusal(services: Option<nat>, notifiers: nat) -> Option<Reason> {
    if services == Some(0nat) {
        Some(Reason::InvalidInput("services must name at least one service"@))
    } else if notifiers != 1 {
        Some(Reason::InvalidInput("notifiers must hold exactly one notifier"@))
    } else {
        None
    }
}

impl ConfigFile {
    #[verifier::type_invariant]
    spec fn valid(&self) -> bool {
        &&& self.notifiers.len() == 1
        &&& self.services.len() >= 1
    }

    /// The schedule on which the rounds are run. It is handed on to the
    /// scheduler as it is.
    pub closed spec fn cron_text(&self) -> Seq<char> {
        self.cron@
    }

    /// The services to ask, in their order.
    pub closed spec fn service_list(&self) -> Seq<Seq<char>> {
        texts(self.services@)
    }

    /// Whether reports are wanted only when the address changes.
    pub closed spec fn on_change_only(&self) -> bool {
        self.notify_on_change_only
    }

    /// The notifier to report to.
    pub closed spec fn the_notifier(&self) -> Notifier {
        self.notifiers[0]
    }

    /// Where and how to log.
    pub closed spec fn logging(&self) -> LoggingConfig {
        self.logging_config
    }

    /// Makes a configuration from what a configuration file gives. The
    /// services and the logging configuration may be missing and are then the
    /// default ones. It is refused where the services are given and are none,
    /// or where the notifiers are not exactly one.
    pub fn new(
        cron: String,
        services: Option<Vec<String>>,
        notify_on_change_only: bool,
        notifiers: Vec<Notifier>,
        logging_config: Option<LoggingConfig>,
    ) -> (made: Result<ConfigFile, IpError>)
        ensures
            match refusal(
                match services {
                    Some(list) => Some(list.len() as nat),
                    None => None,
                },
                notifiers.len() as nat,
            ) {
                Some(reason) => made matches Err(err) && err@ == reason,
                None => {
                    &&& made matches Ok(config)
                    &&& config.cron_text() == cron@
                    &&& config.service_list() == match services {
                        Some(list) => texts(list@),
                        None => default_services(),
                    }
                    &&& config.on_change_only() == notify_on_change_only
                    &&& config.the_notifier() == notifiers[0]
                    &&& match logging_config {
                        Some(given) => config.logging() == given,
                        None => {
                            &&& config.logging().log_file@ == default_log_path()
                            &&& config.logging().log_level == LevelFilter::Info
                            &&& config.logging().decorate
                        },
                    }
                },
            },
    {
        let services: Vec<String> = match services {
            Some(list) => {
                if list.len() == 0 {
                    return Err(
                        IpError::new(
                            ErrorReason::InvalidInput(
                                String::from_str("services must name at least one service"),
                            ),
                        ),
                    );
                }
                list
            },
            None => get_default_services(),
        };
        if notifiers.len() != 1 {
            return Err(
                IpError::new(
                    ErrorReason::InvalidInput(
                        String::from_str("notifiers must hold exactly one notifier"),
                    ),
                ),
            );
        }
        let logging_config: LoggingConfig = match logging_config {
            Some(given) => given,
            None => get_default_logging_config(),
        };
        assert(texts(services@).len() == services.len());
        Ok(ConfigFile { cron, services, notify_on_change_only, notifiers, logging_config })
    }

    pub fn cron(&self) -> (cron: &String)
        ensures
            cron@ == self.cron_text(),
    {
        &self.cron
    }

    pub fn services(&self) -> (services: &Vec<String>)
        ensures
            texts(services@) == self.service_list(),
            services.len() >= 1,
    {
        proof {
            use_type_invariant(self);
        }
        &self.services
    }

    pub fn notify_on_change_only(&self) -> (flag: bool)
        ensures
            flag == self.on_change_only(),
    {
        self.notify_on_change_only
    }

    pub fn notifier(&self) -> (notifier: &Notifier)
        ensures
            *notifier == self.the_notifier(),
    {
        proof {
            use_type_invariant(self);
        }
        &self.notifiers[0]
    }

    pub fn logging_config(&self) -> (logging: &LoggingConfig)
        ensures
            *logging == self.logging(),
    {
        &self.logging_config
    }

    /// The services to ask in a round.
    pub fn query_params(&self) -> (params: IpQueryParams)
        ensures
            texts(params.services@) == self.service_list(),
    {
        IpQueryParams { services: copy_texts(&self.services) }
    }

    /// An empty history for the rounds of this configuration.
    pub fn new_results(&self) -> (results: IpResults)
        ensures
            results@.len() == 0,
            results.on_change_only() == self.on_change_only(),
    {
        IpResults::new(Some(self.notify_on_change_only))
    }
}

/// The notifier `S3` of a configuration as contracts see it.
pub open spec fn s3_target(notifier: Notifier) -> S3Target
    recommends
        notifier is S3,
{
    S3Target {
        access_key_id: notifier->access_key_id@,
        secret_access_key: notifier->secret_access_key@,
        assume_role_arn: notifier->assume_role_arn@,
        region: notifier->region@,
        bucket_name: notifier->bucket_name@,
    }
}

/// The notifier `RestApi` of a configuration as contracts see it.
pub open spec fn rest_target(notifier: Notifier) -> RestTarget
    recommends
        notifier is RestApi,
{
    RestTarget {
        url: notifier->url@,
        method: notifier->method@,
        body: notifier->body@,
        headers: notifier->headers@,
    }
}

fn file_of(file_path: &String, overwrite: bool) -> (notifier: FileNotifier)
    ensures
        notifier.path() == file_path@,
        notifier.overwrites() == overwrite,
{
    FileNotifier::new(file_path.clone(), overwrite)
}

fn s3_of(
    access_key_id: &String,
    secret_access_key: &String,
    assume_role_arn: &String,
    region: &String,
    bucket_name: &String,
) -> (notifier: S3Notifier)
    ensures
        notifier@ == (S3Target {
            access_key_id: access_key_id@,
            secret_access_key: secret_access_key@,
            assume_role_arn: assume_role_arn@,
            region: region@,
            bucket_name: bucket_name@,
        }),
{
    S3Notifier::new(
        access_key_id.clone(),
        secret_access_key.clone(),
        assume_role_arn.clone(),
        region.clone(),
        bucket_name.clone(),
    )
}

fn rest_of(
    url: &String,
    method: &String,
    body: &HashMap<String, String>,
    headers: &HashMap<String, String>,
) -> (notifier: RestNotifier)
    ensures
        notifier@ == (RestTarget { url: url@, method: method@, body: body@, headers: headers@ }),
{
    RestNotifier::new(url.clone(), method.clone(), body.clone(), headers.clone())
}

/// The one notifier of a configuration reports as the backend that it names
/// does.
impl IpNotifier for Notifier {
    open spec fn reports(&self, ip: Seq<char>, action: Action) -> bool {
        match self {
            Notifier::File { overwrite, file_path } => file_reports(
                file_path@,
                *overwrite,
                ip,
                action,
            ),
            Notifier::S3 { .. } => exists|stamp: Seq<char>|
                uploads(s3_target(*self), ip, stamp, action),
            Notifier::RestApi { .. } => exists|json: Seq<char>|
                requests(rest_target(*self), json, ip, action),
            Notifier::Stdout => prints(action, ip),
        }
    }

    open spec fn reports_error(&self, message: Seq<char>, action: Action) -> bool {
        if self is Stdout {
            prints(action, message)
        } else {
            logs(action, message)
        }
    }

    open spec fn failure(&self, outcome: Outcome) -> Option<Reason> {
        match self {
            Notifier::File { overwrite, file_path } => file_failure(file_path@, *overwrite, outcome),
            Notifier::S3 { .. } => upload_failure(outcome),
            Notifier::RestApi { .. } => request_failure(outcome),
            Notifier::Stdout => None,
        }
    }

    fn notify_success(&self, ip: &IpAddress) -> (action: Action) {
        match self {
            Notifier::File { overwrite, file_path } => file_of(file_path, *overwrite).notify_success(
                ip,
            ),
            Notifier::S3 {
                access_key_id,
                secret_access_key,
                assume_role_arn,
                region,
                bucket_name,
            } => {
                let notifier = s3_of(
                    access_key_id,
                    secret_access_key,
                    assume_role_arn,
                    region,
                    bucket_name,
                );
                assert(notifier@ == s3_target(*self));
                notifier.notify_success(ip)
            },
            Notifier::RestApi { url, method, body, headers } => {
                let notifier = rest_of(url, method, body, headers);
                assert(notifier@ == rest_target(*self));
                notifier.notify_success(ip)
            },
            Notifier::Stdout => StdoutNotifier::new().notify_success(ip),
        }
    }

    fn notify_error(&self, err: IpError) -> (action: Action) {
        match self {
            Notifier::Stdout => StdoutNotifier::new().notify_error(err),
            _ => log_error(err),
        }
    }

    fn conclude(&self, outcome: Outcome) -> (next: Action) {
        match self {
            Notifier::File { overwrite, file_path } => file_of(file_path, *overwrite).conclude(
                outcome,
            ),
            Notifier::S3 {
                access_key_id,
                secret_access_key,
                assume_role_arn,
                region,
                bucket_name,
            } => s3_of(
                access_key_id,
                secret_access_key,
                assume_role_arn,
                region,
                bucket_name,
            ).conclude(outcome),
            Notifier::RestApi { url, method, body, headers } => rest_of(
                url,
                method,
                body,
                headers,
            ).conclude(outcome),
            Notifier::Stdout => StdoutNotifier::new().conclude(outcome),
        }
    }
}

} // verus!
