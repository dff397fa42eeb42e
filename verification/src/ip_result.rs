//! The last two observations of the address, by which a change is noticed.

use crate::errors::{message_text, Reason};
use crate::ip_error::IpError;
use crate::ip_query::{outcome_view, readings_of, reconcile, run_ip_query};
use crate::notifier::{Action, IpNotifier};
use crate::types::IpAddress;
use vstd::prelude::*;

verus! {

/// One reading of the address and the time at which it was taken, in
/// milliseconds since the Unix epoch.
pub struct Observation {
    pub ip: Seq<char>,
    pub checked_at: int,
}

/// The history after `latest` was recorded: `latest` first, then what was
/// the latest before. Anything older is forgotten.
pub open spec fn record(history: Seq<Observation>, latest: Observation) -> Seq<Observation> {
    if history.len() == 0 {
        seq![latest]
    } else {
        seq![latest, history[0]]
    }
}

/// The history after each of `observations` was recorded in turn.
pub open spec fn record_all(history: Seq<Observation>, observations: Seq<Observation>) -> Seq<
    Observation,
>
    decreases observations.len(),
{
    if observations.len() == 0 {
        history
    } else {
        record(record_all(history, observations.drop_last()), observations.last())
    }
}

/// Whether the latest observation differs from the one before it. The first
/// observation ever counts as a change; no observation counts as none.
pub open spec fn has_changed(history: Seq<Observation>) -> bool {
    if history.len() == 0 {
        false
    } else if history.len() == 1 {
        true
    } else {
        history[0].ip != history[1].ip
    }
}

/// However many observations are recorded, the history holds at most two,
/// and the one recorded last stands first.
pub proof fn lemma_history_bounded(history: Seq<Observation>, observations: Seq<Observation>)
    requires
        observations.len() > 0,
    ensures
        1 <= record_all(history, observations).len() <= 2,
        record_all(history, observations)[0] == observations.last(),
        observations.len() >= 2 ==> record_all(history, observations)[1]
            == observations[observations.len() - 2],
    decreases observations.len(),
{
    let before = observations.drop_last();
    if before.len() > 0 {
        lemma_history_bounded(history, before);
    }
}

/// An empty history shows no change, the first observation shows one, and
/// from the second on there is a change exactly if the last two addresses
/// differ.
pub proof fn lemma_change_detection(
    history: Seq<Observation>,
    first: Observation,
    second: Observation,
)
    ensures
        !has_changed(Seq::empty()),
        has_changed(record(Seq::empty(), first)),
        has_changed(record(record(history, first), second)) == (first.ip != second.ip),
{
}

/// One round ended as it should: after a lookup that gave an address, the
/// address stands recorded at `now`, and `action` reports it, unless reports
/// are wanted on changes only and this was none, where `action` is idle.
/// After a lookup that failed, the history is as before and `action` reports
/// the failure, whatever was asked about changes.
pub open spec fn dispatched<N: IpNotifier>(
    notifier: &N,
    on_change_only: bool,
    before: Seq<Observation>,
    after: Seq<Observation>,
    outcome: Result<Seq<char>, Reason>,
    now: int,
    action: Action,
) -> bool {
    match outcome {
        Ok(ip) => {
            &&& after == record(before, (Observation { ip, checked_at: now }))
            &&& if on_change_only && !has_changed(after) {
                action is Idle
            } else {
                notifier.reports(ip, action)
            }
        },
        Err(reason) => {
            &&& after == before
            &&& notifier.reports_error(message_text(reason), action)
        },
    }
}

/// Calls `Utc::now` of chrono and `DateTime::timestamp_millis` on the
/// result: the milliseconds since the Unix epoch by the clock of the
/// machine, of which nothing is claimed. `Utc::now` does not return where
/// the clock stands before 1970.
#[verifier::external_body]
pub(crate) fn now_millis() -> (now: i64) {
    chrono::Utc::now().timestamp_millis()
}

/// A store of observations.
pub trait IpResultStorage {
    type ErrorType;

    /// The observations held, the latest first.
    spec fn history(&self) -> Seq<Observation>;

    /// Records that `ip` was observed at `checked_at`.
    fn add_result(&mut self, ip: IpAddress, checked_at: i64)
        ensures
            final(self).history() == record(
                old(self).history(),
                (Observation { ip: ip@, checked_at: checked_at as int }),
            ),
    ;

    /// The address observed last; an error if none was.
    fn get_latest_ip(&self) -> (latest: Result<IpAddress, Self::ErrorType>)
        ensures
            latest is Ok <==> self.history().len() > 0,
            latest matches Ok(ip) ==> ip@ == self.history()[0].ip,
    ;

    /// Whether the address observed last differs from the one before.
    fn ip_has_changed(&self) -> (changed: bool)
        ensures
            changed == has_changed(self.history()),
    ;
}

#[derive(Debug)]
struct IpResult {
    ip: IpAddress,
    checked_at: i64,
}

impl View for IpResult {
    type V = Observation;

    closed spec fn view(&self) -> Observation {
        Observation { ip: self.ip@, checked_at: self.checked_at as int }
    }
}

/// The history of one run: at most two observations, the latest first, and
/// whether reports are wanted only when the address changes.
#[derive(Debug)]
pub struct IpResults {
    only_notify_on_change: bool,
    results: Vec<IpResult>,
}

impl View for IpResults {
    type V = Seq<Observation>;

    closed spec fn view(&self) -> Seq<Observation> {
        Seq::new(self.results.len() as nat, |i: int| self.results[i]@)
    }
}

impl IpResults {
    #[verifier::type_invariant]
    spec fn bounded(&self) -> bool {
        self.results.len() <= 2
    }

    /// Whether reports are wanted only when the address changes.
    pub closed spec fn on_change_only(&self) -> bool {
        self.only_notify_on_change
    }

    /// An empty history. Without a word on it, every observation is
    /// reported.
    pub fn new(only_notify_on_change: Option<bool>) -> (results: IpResults)
        ensures
            results@ == Seq::<Observation>::empty(),
            results.on_change_only() == (only_notify_on_change == Some(true)),
    {
        let flag: bool = match only_notify_on_change {
            Some(flag) => flag,
            None => false,
        };
        let results = IpResults { only_notify_on_change: flag, results: Vec::new() };
        assert(results@ =~= Seq::<Observation>::empty());
        results
    }

    /// Whether reports are wanted only when the address changes.
    pub fn only_notify_on_change(&self) -> (flag: bool)
        ensures
            flag == self.on_change_only(),
    {
        self.only_notify_on_change
    }

    /// The time of the latest observation, in milliseconds since the Unix
    /// epoch; `None` while there is no observation.
    pub fn latest_checked_at(&self) -> (time: Option<i64>)
        ensures
            time is Some <==> self@.len() > 0,
            time matches Some(at) ==> at == self@[0].checked_at,
    {
        if self.results.len() == 0 {
            None
        } else {
            Some(self.results[0].checked_at)
        }
    }

    /// How many observations are held.
    pub fn len(&self) -> (n: usize)
        ensures
            n == self@.len(),
            n <= 2,
    {
        proof {
            use_type_invariant(self);
        }
        self.results.len()
    }

    /// Ends one round whose lookup gave `outcome` at the time `now`: records
    /// an address and says what `notifier` is to do, as `dispatched` states.
    /// `on_change_only` says whether an address that did not change goes
    /// unreported; what the history itself holds on that is not asked.
    pub fn record_and_report<N: IpNotifier>(
        &mut self,
        notifier: &N,
        outcome: Result<IpAddress, crate::errors::IpError>,
        now: i64,
        on_change_only: bool,
    ) -> (action: Action)
        ensures
            final(self).on_change_only() == old(self).on_change_only(),
            dispatched(
                notifier,
                on_change_only,
                old(self)@,
                final(self)@,
                outcome_view(outcome),
                now as int,
                action,
            ),
    {
        match outcome {
            Ok(ip) => {
                self.add_result(ip.clone(), now);
                if on_change_only && !self.ip_has_changed() {
                    Action::Idle
                } else {
                    notifier.notify_success(&ip)
                }
            },
            Err(err) => notifier.notify_error(err),
        }
    }

    /// Ends one round as `record_and_report` does, with what this history
    /// holds on reporting changes only.
    pub fn dispatch<N: IpNotifier>(
        &mut self,
        notifier: &N,
        outcome: Result<IpAddress, crate::errors::IpError>,
        now: i64,
    ) -> (action: Action)
        ensures
            final(self).on_change_only() == old(self).on_change_only(),
            dispatched(
                notifier,
                old(self).on_change_only(),
                old(self)@,
                final(self)@,
                outcome_view(outcome),
                now as int,
                action,
            ),
    {
        let on_change_only: bool = self.only_notify_on_change;
        self.record_and_report(notifier, outcome, now, on_change_only)
    }

    /// One round: decides on the address from what the services answered,
    /// reads the clock, and ends the round as `dispatch` does.
    pub fn query_ip<N: IpNotifier>(&mut self, notifier: &N, responses: Vec<Option<String>>) -> (action:
        Action)
        ensures
            final(self).on_change_only() == old(self).on_change_only(),
            exists|now: int|
                dispatched(
                    notifier,
                    old(self).on_change_only(),
                    old(self)@,
                    final(self)@,
                    reconcile(readings_of(responses@)),
                    now,
                    action,
                ),
    {
        let outcome = run_ip_query(responses);
        let now: i64 = now_millis();
        self.dispatch(notifier, outcome, now)
    }
}

impl IpResultStorage for IpResults {
    type ErrorType = IpError;

    open spec fn history(&self) -> Seq<Observation> {
        self@
    }

    fn add_result(&mut self, ip: IpAddress, checked_at: i64)
        ensures
            final(self).on_change_only() == old(self).on_change_only(),
    {
        proof {
            use_type_invariant(&*self);
        }
        let ghost before = self@;
        let mut kept: Vec<IpResult> = Vec::new();
        std::mem::swap(&mut self.results, &mut kept);
        kept.truncate(1);
        kept.insert(0, IpResult { ip, checked_at });
        self.results = kept;
        assert(self@ =~= record(before, (Observation { ip: ip@, checked_at: checked_at as int })));
    }

    fn get_latest_ip(&self) -> (latest: Result<IpAddress, IpError>) {
        if self.results.len() == 0 {
            Err(IpError::new())
        } else {
            Ok(self.results[0].ip.clone())
        }
    }

    fn ip_has_changed(&self) -> (changed: bool) {
        if self.results.len() == 0 {
            false
        } else if self.results.len() < 2 {
            true
        } else {
            self.results[0].ip != self.results[1].ip
        }
    }
}

} // verus!
