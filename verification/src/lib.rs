//! Finds out the public address of this machine from several lookup
//! services, notices when it changes, and says what to report and where.

use vstd::prelude::*;

pub mod config_file;
pub mod errors;
pub mod ip_error;
pub mod ip_query;
pub mod ip_result;
pub mod notifier;
pub mod text;
pub mod types;
pub mod utils;

use crate::config_file::ConfigFile;
use crate::ip_query::{readings_of, reconcile, run_ip_query};
use crate::ip_result::{dispatched, now_millis, IpResults};
use crate::notifier::Action;

verus! {

/// One round of a run, for whoever calls on a schedule: decides on the
/// address from what the services of `config` answered, one response per
/// service, records it in `results` and says what the notifier of `config`
/// is to do. A lookup that failed is reported whether or not reports are
/// wanted on changes only, and leaves `results` as they are.
pub fn schedule_ip_notification(
    config: &ConfigFile,
    results: &mut IpResults,
    responses: Vec<Option<String>>,
) -> (action: Action)
    ensures
        final(results).on_change_only() == old(results).on_change_only(),
        exists|now: int|
            dispatched(
                &config.the_notifier(),
                config.on_change_only(),
                old(results)@,
                final(results)@,
                reconcile(readings_of(responses@)),
                now,
                action,
            ),
{
    let outcome = run_ip_query(responses);
    let now: i64 = now_millis();
    results.record_and_report(config.notifier(), outcome, now, config.notify_on_change_only())
}

} // verus!
