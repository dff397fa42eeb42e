//! From what the lookup services answered to one address, or to the reason
//! why there is none.

use crate::errors::{ErrorReason, IpError, Reason};
use crate::text::{copy_texts, texts};
use crate::types::IpAddress;
use indexmap::IndexSet;
use vstd::prelude::*;

verus! {

/// The services to ask, in the order in which they are asked.
pub struct IpQueryParams {
    pub services: Vec<String>,
}

/// `indexmap::IndexSet`: a set that keeps its items in the order in which
/// they were first inserted.
#[verifier::external_type_specification]
#[verifier::external_body]
#[verifier::reject_recursive_types(T)]
#[verifier::reject_recursive_types(S)]
pub struct ExIndexSet<T, S>(IndexSet<T, S>);

/// The strings that a set holds, in the order in which they were first
/// inserted.
pub uninterp spec fn set_items(set: IndexSet<String>) -> Seq<Seq<char>>;

/// `IndexSet::new`: a set that holds nothing.
#[verifier::external_body]
fn set_new() -> (set: IndexSet<String>)
    ensures
        set_items(set) == Seq::<Seq<char>>::empty(),
{
    IndexSet::new()
}

/// `IndexSet::insert`: a string that the set holds already leaves the set as
/// it is and gives `false`; any other is put behind the items that are there
/// and gives `true`.
#[verifier::external_body]
fn set_insert(set: &mut IndexSet<String>, value: String) -> (fresh: bool)
    ensures
        fresh == !set_items(*old(set)).contains(value@),
        fresh ==> set_items(*final(set)) == set_items(*old(set)).push(value@),
        !fresh ==> set_items(*final(set)) == set_items(*old(set)),
{
    set.insert(value)
}

/// `IndexSet::into_iter`: hands the items out in the order of the set.
#[verifier::external_body]
fn set_into_vec(set: IndexSet<String>) -> (items: Vec<String>)
    ensures
        texts(items@) == set_items(set),
{
    set.into_iter().collect()
}

/// The items without repetitions, each where it first occurs.
pub open spec fn distinct(items: Seq<Seq<char>>) -> Seq<Seq<char>>
    decreases items.len(),
{
    if items.len() == 0 {
        items
    } else {
        let before = distinct(items.drop_last());
        if before.contains(items.last()) {
            before
        } else {
            before.push(items.last())
        }
    }
}

/// All items are the same.
pub open spec fn agree(items: Seq<Seq<char>>) -> bool {
    forall|i: int, j: int| 0 <= i < items.len() && 0 <= j < items.len() ==> items[i] == items[j]
}

/// The readings among the responses: the texts that are not empty, in the
/// order of the services. A service that failed has no text.
pub open spec fn readings_of(responses: Seq<Option<String>>) -> Seq<Seq<char>>
    decreases responses.len(),
{
    if responses.len() == 0 {
        Seq::empty()
    } else {
        let before = readings_of(responses.drop_last());
        match responses.last() {
            Some(text) => if text@.len() > 0 {
                before.push(text@)
            } else {
                before
            },
            None => before,
        }
    }
}

/// The address that the readings stand for: the one that all of them give,
/// or the reason why there is none.
pub open spec fn reconcile(readings: Seq<Seq<char>>) -> Result<Seq<char>, Reason> {
    if readings.len() == 0 {
        Err(Reason::NoIpAddressesFound)
    } else if agree(readings) {
        Ok(readings[0])
    } else {
        Err(Reason::IpConflict(readings))
    }
}

/// An outcome of the lookup as contracts see it.
pub open spec fn outcome_view(outcome: Result<IpAddress, IpError>) -> Result<Seq<char>, Reason> {
    match outcome {
        Ok(ip) => Ok(ip@),
        Err(err) => Err(err@),
    }
}

/// `distinct` holds an item exactly if the items do.
pub proof fn lemma_distinct_contains(items: Seq<Seq<char>>, item: Seq<char>)
    ensures
        distinct(items).contains(item) <==> items.contains(item),
    decreases items.len(),
{
    if items.len() > 0 {
        let front = items.drop_last();
        let last = items.last();
        let before = distinct(front);
        let all = distinct(items);
        lemma_distinct_contains(front, item);
        if all.contains(item) && !items.contains(item) {
            let i = choose|i: int| 0 <= i < all.len() && all[i] == item;
            if i < before.len() {
                assert(before[i] == item);
                let k = choose|k: int| 0 <= k < front.len() && front[k] == item;
                assert(items[k] == item);
            } else {
                assert(items[items.len() - 1] == item);
            }
        }
        if items.contains(item) && !all.contains(item) {
            let i = choose|i: int| 0 <= i < items.len() && items[i] == item;
            if i < front.len() {
                assert(front[i] == item);
                let k = choose|k: int| 0 <= k < before.len() && before[k] == item;
                assert(all[k] == item);
            } else if before.contains(last) {
                assert(all == before);
            } else {
                assert(all[before.len() as int] == item);
            }
        }
    }
}

/// `distinct` holds nothing twice.
pub proof fn lemma_distinct_no_duplicates(items: Seq<Seq<char>>)
    ensures
        distinct(items).no_duplicates(),
    decreases items.len(),
{
    if items.len() > 0 {
        lemma_distinct_no_duplicates(items.drop_last());
    }
}

/// Items that come later do not move the ones found before: what `distinct`
/// makes of the first `upto` items is where its result for all items starts.
pub proof fn lemma_distinct_stable(items: Seq<Seq<char>>, upto: int)
    requires
        0 <= upto <= items.len(),
    ensures
        distinct(items.take(upto)).len() <= distinct(items).len(),
        distinct(items).take(distinct(items.take(upto)).len() as int) == distinct(
            items.take(upto),
        ),
    decreases items.len() - upto,
{
    if upto == items.len() {
        assert(items.take(upto) == items);
        assert(distinct(items).take(distinct(items).len() as int) == distinct(items));
    } else {
        lemma_distinct_stable(items, upto + 1);
        let longer = items.take(upto + 1);
        assert(longer.drop_last() == items.take(upto));
        let shorter = distinct(items.take(upto));
        assert(distinct(longer).take(shorter.len() as int) == shorter);
        assert(distinct(items).take(shorter.len() as int) == distinct(items).take(
            distinct(longer).len() as int,
        ).take(shorter.len() as int));
    }
}

/// How many different items there are decides between the three outcomes:
/// none where there is no item, one exactly where all items agree, and that
/// one is the first item.
pub proof fn lemma_distinct_count(items: Seq<Seq<char>>)
    ensures
        items.len() == 0 ==> distinct(items).len() == 0,
        items.len() > 0 ==> distinct(items).len() >= 1 && distinct(items)[0] == items[0],
        items.len() > 0 ==> (distinct(items).len() == 1 <==> agree(items)),
    decreases items.len(),
{
    if items.len() > 1 {
        let front = items.drop_last();
        let last = items.last();
        lemma_distinct_count(front);
        let before = distinct(front);
        assert(front[0] == items[0]);
        if before.contains(last) {
            if before.len() == 1 {
                assert(last == before[0]);
                assert forall|i: int, j: int|
                    0 <= i < items.len() && 0 <= j < items.len() implies items[i] == items[j] by {
                    if i < front.len() {
                        assert(front[i] == front[0]);
                    }
                    if j < front.len() {
                        assert(front[j] == front[0]);
                    }
                }
            } else {
                let (i, j) = choose|i: int, j: int|
                    0 <= i < front.len() && 0 <= j < front.len() && front[i] != front[j];
                assert(items[i] != items[j]);
            }
        } else {
            assert(before[0] != last);
            assert(items[0] != items[items.len() - 1]);
        }
    } else if items.len() == 1 {
        assert(distinct(items.drop_last()).len() == 0);
    }
}

/// `text` is what the service at `at` answered, and is not empty.
pub open spec fn answered(responses: Seq<Option<String>>, at: int, text: Seq<char>) -> bool {
    &&& 0 <= at < responses.len()
    &&& text.len() > 0
    &&& responses[at] matches Some(given)
    &&& given@ == text
}

/// The readings are the texts that some service answered and that are not
/// empty.
pub proof fn lemma_readings(responses: Seq<Option<String>>, text: Seq<char>)
    ensures
        readings_of(responses).contains(text) <==> exists|at: int| answered(responses, at, text),
    decreases responses.len(),
{
    if responses.len() > 0 {
        let front = responses.drop_last();
        let before = readings_of(front);
        let all = readings_of(responses);
        let last = responses.len() - 1;
        lemma_readings(front, text);
        if all.contains(text) && !exists|at: int| answered(responses, at, text) {
            let k = choose|k: int| 0 <= k < all.len() && all[k] == text;
            if k < before.len() {
                assert(before[k] == text);
                let at = choose|at: int| answered(front, at, text);
                assert(answered(responses, at, text));
            } else {
                assert(answered(responses, last, text));
            }
        }
        if !all.contains(text) && exists|at: int| answered(responses, at, text) {
            let at = choose|at: int| answered(responses, at, text);
            if at < last {
                assert(answered(front, at, text));
                let k = choose|k: int| 0 <= k < before.len() && before[k] == text;
                assert(all[k] == text);
            } else {
                assert(all[before.len() as int] == text);
            }
        }
    }
}

/// Where the services that answer with a text all answer `value`, and one
/// of them does, `value` is the address.
pub proof fn lemma_one_value(responses: Seq<Option<String>>, value: Seq<char>)
    requires
        exists|at: int| answered(responses, at, value),
        forall|at: int, text: Seq<char>| answered(responses, at, text) ==> text == value,
    ensures
        reconcile(readings_of(responses)) == Ok::<Seq<char>, Reason>(value),
{
    let readings = readings_of(responses);
    lemma_readings(responses, value);
    assert forall|i: int| 0 <= i < readings.len() implies readings[i] == value by {
        lemma_readings(responses, readings[i]);
        assert(readings.contains(readings[i]));
    }
}

/// Where two services answer with different texts, the outcome is a
/// conflict that holds every reading, repeated ones too.
pub proof fn lemma_two_values(
    responses: Seq<Option<String>>,
    at: int,
    text: Seq<char>,
    other_at: int,
    other_text: Seq<char>,
)
    requires
        answered(responses, at, text),
        answered(responses, other_at, other_text),
        text != other_text,
    ensures
        reconcile(readings_of(responses)) == Err::<Seq<char>, Reason>(
            Reason::IpConflict(readings_of(responses)),
        ),
{
    let readings = readings_of(responses);
    lemma_readings(responses, text);
    lemma_readings(responses, other_text);
    let i = choose|i: int| 0 <= i < readings.len() && readings[i] == text;
    let j = choose|j: int| 0 <= j < readings.len() && readings[j] == other_text;
    assert(readings[i] != readings[j]);
}

/// Where no service answers with a text, no address is found.
pub proof fn lemma_no_value(responses: Seq<Option<String>>)
    requires
        forall|at: int, text: Seq<char>| !answered(responses, at, text),
    ensures
        reconcile(readings_of(responses)) == Err::<Seq<char>, Reason>(Reason::NoIpAddressesFound),
{
    let readings = readings_of(responses);
    if readings.len() > 0 {
        lemma_readings(responses, readings[0]);
        assert(readings.contains(readings[0]));
    }
}

/// The outcome goes by the number of different readings: none, one, or
/// more.
pub proof fn lemma_reconcile_by_count(readings: Seq<Seq<char>>)
    ensures
        distinct(readings).len() == 0 ==> reconcile(readings) == Err::<Seq<char>, Reason>(
            Reason::NoIpAddressesFound,
        ),
        distinct(readings).len() == 1 ==> reconcile(readings) == Ok::<Seq<char>, Reason>(
            distinct(readings)[0],
        ),
        distinct(readings).len() >= 2 ==> reconcile(readings) == Err::<Seq<char>, Reason>(
            Reason::IpConflict(readings),
        ),
{
    lemma_distinct_count(readings);
}

/// The strings of `v` without repetitions, each where it first occurs.
pub fn uniq(v: Vec<String>) -> (out: Vec<String>)
    ensures
        texts(out@) == distinct(texts(v@)),
{
    let mut set: IndexSet<String> = set_new();
    let n: usize = v.len();
    let mut i: usize = 0;
    while i < n
        invariant
            i <= n,
            n == v.len(),
            set_items(set) == distinct(texts(v@).take(i as int)),
        decreases n - i,
    {
        proof {
            let next = texts(v@).take(i + 1);
            assert(next.drop_last() == texts(v@).take(i as int));
            assert(next.last() == v@[i as int]@);
        }
        set_insert(&mut set, v[i].clone());
        i += 1;
    }
    assert(texts(v@).take(n as int) == texts(v@));
    set_into_vec(set)
}

/// The texts among `responses` that are not empty.
pub fn collect_readings(responses: &Vec<Option<String>>) -> (ips: Vec<String>)
    ensures
        texts(ips@) == readings_of(responses@),
{
    let mut ips: Vec<String> = Vec::new();
    let n: usize = responses.len();
    let mut i: usize = 0;
    while i < n
        invariant
            i <= n,
            n == responses.len(),
            texts(ips@) == readings_of(responses@.take(i as int)),
        decreases n - i,
    {
        let ghost before = texts(ips@);
        proof {
            let next = responses@.take(i + 1);
            assert(next.drop_last() == responses@.take(i as int));
            assert(next.last() == responses@[i as int]);
        }
        match &responses[i] {
            Some(text) => {
                if !text.as_str().is_empty() {
                    ips.push(text.clone());
                    assert(texts(ips@) == before.push(text@));
                }
            },
            None => {},
        }
        i += 1;
    }
    assert(responses@.take(n as int) == responses@);
    ips
}

/// Decides on the address from what the services answered, one response per
/// service: `None` where the service could not be reached or sent no text.
///
/// Responses without text do not count. If none is left, there is no
/// address; if all that are left agree, theirs is the address; otherwise the
/// services are in conflict, and the error holds every reading that counted.
pub fn run_ip_query(responses: Vec<Option<String>>) -> (outcome: Result<IpAddress, IpError>)
    ensures
        outcome_view(outcome) == reconcile(readings_of(responses@)),
{
    let ips: Vec<String> = collect_readings(&responses);
    let uniq_ips: Vec<String> = uniq(copy_texts(&ips));
    proof {
        lemma_reconcile_by_count(texts(ips@));
        assert(texts(uniq_ips@).len() == uniq_ips.len());
    }
    if uniq_ips.len() > 1 {
        return Err(IpError::new(ErrorReason::IpConflict(ips)));
    }
    if uniq_ips.len() == 0 {
        return Err(IpError::new(ErrorReason::NoIpAddressesFound));
    }
    assert(texts(uniq_ips@)[0] == uniq_ips@[0]@);
    Ok(IpAddress::new(uniq_ips[0].clone()))
}

} // verus!
