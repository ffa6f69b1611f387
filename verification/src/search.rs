//! The search over diary entries: which entries a query matches, and the
//! order in which their dates are answered.

use crate::text::{
    contains, decimal, decimal_string, find, fold, fold_text, lemma_decimal_is_folded, occurs_at,
};
use vstd::prelude::*;
use vstd::relations::{sorted_by, total_ordering};
use vstd::seq_lib::{lemma_sorted_unique, to_multiset_insert};

verus! {

/// One diary entry: the day it belongs to and its text.
#[derive(Debug, Clone, PartialEq, Eq)]
pub struct DiaryEntry {
    /// The day, as a sortable integer such as 20240115.
    pub date: i64,
    /// The text of the entry.
    pub content: String,
}

/// What an entry is to the specifications: its date and the characters of
/// its text.
pub struct EntryModel {
    pub date: i64,
    pub content: Seq<char>,
}

impl View for DiaryEntry {
    type V = EntryModel;

    open spec fn view(&self) -> EntryModel {
        EntryModel { date: self.date, content: self.content@ }
    }
}

/// The models of a list of entries, in the same order.
pub open spec fn model_of(entries: Seq<DiaryEntry>) -> Seq<EntryModel> {
    entries.map_values(|e: DiaryEntry| e@)
}

/// An entry matches a folded needle when the needle is a substring of the
/// folded decimal rendering of its date, or of its folded text.
pub open spec fn matches_folded(entry: EntryModel, needle: Seq<char>) -> bool {
    contains(fold(decimal(entry.date as int)), needle) || contains(fold(entry.content), needle)
}

/// An entry matches a query when it matches the folded query: case is
/// ignored on both sides.
pub open spec fn matches(entry: EntryModel, query: Seq<char>) -> bool {
    matches_folded(entry, fold(query))
}

/// The order of an answer: later dates first.
pub open spec fn descending() -> spec_fn(i64, i64) -> bool {
    |a: i64, b: i64| a >= b
}

/// The dates of the entries that match, in the order of the entries.
pub open spec fn matching_dates(entries: Seq<EntryModel>, query: Seq<char>) -> Seq<i64> {
    entries.filter(|e: EntryModel| matches(e, query)).map_values(|e: EntryModel| e.date)
}

/// The answer to a query: the dates of the matching entries, later dates
/// first.
pub open spec fn search_result(entries: Seq<EntryModel>, query: Seq<char>) -> Seq<i64> {
    matching_dates(entries, query).sort_by(descending())
}

/// `dates` is the answer to `query` over some list of entries: what a
/// search returns when the entries come from outside and are not known.
pub open spec fn answers(dates: Seq<i64>, query: Seq<char>) -> bool {
    exists|entries: Seq<EntryModel>| dates == #[trigger] search_result(entries, query)
}

/// `>=` on dates is a total order.
pub proof fn lemma_descending_is_total()
    ensures
        total_ordering(descending()),
{
}

/// Taking one more entry adds its date to the matching dates if it matches,
/// and leaves them as they are if it does not.
proof fn lemma_matching_step(entries: Seq<EntryModel>, query: Seq<char>, i: int)
    requires
        0 <= i < entries.len(),
    ensures
        matching_dates(entries.take(i + 1), query) == if matches(entries[i], query) {
            matching_dates(entries.take(i), query).push(entries[i].date)
        } else {
            matching_dates(entries.take(i), query)
        },
{
    reveal(Seq::filter);
    let pred = |e: EntryModel| matches(e, query);
    let longer = entries.take(i + 1);
    assert(longer.drop_last() =~= entries.take(i));
    assert(longer.last() == entries[i]);
    let kept = entries.take(i).filter(pred);
    if matches(entries[i], query) {
        assert(longer.filter(pred) == kept.push(entries[i]));
        assert(kept.push(entries[i]).map_values(|e: EntryModel| e.date) =~= kept.map_values(
            |e: EntryModel| e.date,
        ).push(entries[i].date));
    } else {
        assert(longer.filter(pred) == kept);
    }
}

/// Whether an entry matches a needle that is already folded.
pub fn entry_matches(entry: &DiaryEntry, needle: &Vec<char>) -> (r: bool)
    ensures
        r == matches_folded(entry@, needle@),
{
    let date_text: String = decimal_string(entry.date);
    if find(&fold_text(date_text.as_str()), needle) {
        true
    } else {
        find(&fold_text(entry.content.as_str()), needle)
    }
}

/// Puts a date into a list that is in descending order, at the place that
/// keeps the order.
fn insert_descending(dates: &mut Vec<i64>, date: i64)
    requires
        sorted_by(old(dates)@, descending()),
    ensures
        sorted_by(final(dates)@, descending()),
        final(dates)@.to_multiset() == old(dates)@.to_multiset().insert(date),
{
    let mut at: usize = 0;
    while at < dates.len() && dates[at] > date
        invariant
            at <= dates.len(),
            dates@ == old(dates)@,
            forall|j: int| 0 <= j < at ==> dates@[j] > date,
        decreases dates.len() - at,
    {
        at += 1;
    }
    dates.insert(at, date);
    proof {
        let before = old(dates)@;
        let after = dates@;
        to_multiset_insert(before, at as int, date);
        assert forall|i: int, j: int| 0 <= i < j < after.len() implies #[trigger] descending()(
            after[i],
            after[j],
        ) by {
            if j < at {
                assert(descending()(before[i], before[j]));
            } else if i < at {
                if j > at {
                    assert(after[j] == before[j - 1]);
                    if at < j - 1 {
                        assert(descending()(before[at as int], before[j - 1]));
                    }
                }
            } else if i == at {
                assert(after[j] == before[j - 1]);
                if at < j - 1 {
                    assert(descending()(before[at as int], before[j - 1]));
                }
            } else {
                assert(after[i] == before[i - 1]);
                assert(after[j] == before[j - 1]);
                assert(descending()(before[i - 1], before[j - 1]));
            }
        }
    }
}

/// Answers a query over a list of entries: the dates of the entries whose
/// date or text holds the query, whatever the case of either, later dates
/// first.
pub fn select_dates(entries: &Vec<DiaryEntry>, query: &str) -> (dates: Vec<i64>)
    ensures
        dates@ == search_result(model_of(entries@), query@),
{
    let needle: Vec<char> = fold_text(query);
    let ghost model = model_of(entries@);
    let mut dates: Vec<i64> = Vec::new();
    let mut i: usize = 0;
    assert(matching_dates(model.take(0), query@) =~= Seq::<i64>::empty()) by {
        reveal(Seq::filter);
    }
    while i < entries.len()
        invariant
            i <= entries.len(),
            model == model_of(entries@),
            needle@ == fold(query@),
            sorted_by(dates@, descending()),
            dates@.to_multiset() == matching_dates(model.take(i as int), query@).to_multiset(),
        decreases entries.len() - i,
    {
        proof {
            lemma_matching_step(model, query@, i as int);
            vstd::seq_lib::to_multiset_build(
                matching_dates(model.take(i as int), query@),
                model[i as int].date,
            );
        }
        if entry_matches(&entries[i], &needle) {
            insert_descending(&mut dates, entries[i].date);
        }
        i += 1;
    }
    proof {
        assert(model.take(entries.len() as int) =~= model);
        lemma_descending_is_total();
        matching_dates(model, query@).lemma_sort_by_ensures(descending());
        lemma_sorted_unique(dates@, search_result(model, query@), descending());
    }
    dates
}

/// A date stands among the matching dates of the first `n` entries exactly
/// when one of those entries has that date and matches.
proof fn lemma_matching_prefix(entries: Seq<EntryModel>, query: Seq<char>, n: int, date: i64)
    requires
        0 <= n <= entries.len(),
    ensures
        matching_dates(entries.take(n), query).contains(date) <==> exists|i: int|
            0 <= i < n && (#[trigger] entries[i]).date == date && matches(entries[i], query),
    decreases n,
{
    if n == 0 {
        assert(matching_dates(entries.take(0), query) =~= Seq::<i64>::empty()) by {
            reveal(Seq::filter);
        }
    } else {
        lemma_matching_prefix(entries, query, n - 1, date);
        lemma_matching_step(entries, query, n - 1);
        let shorter = matching_dates(entries.take(n - 1), query);
        let longer = matching_dates(entries.take(n), query);
        if matches(entries[n - 1], query) {
            assert(longer == shorter.push(entries[n - 1].date));
            if longer.contains(date) {
                let k = choose|k: int| 0 <= k < longer.len() && longer[k] == date;
                if k < shorter.len() {
                    assert(shorter[k] == date);
                    assert(shorter.contains(date));
                } else {
                    assert(entries[n - 1].date == date);
                }
            }
            if shorter.contains(date) {
                let k = choose|k: int| 0 <= k < shorter.len() && shorter[k] == date;
                assert(longer[k] == date);
            }
            if entries[n - 1].date == date {
                assert(longer[longer.len() - 1] == date);
            }
        }
    }
}

/// The answer to a query is in descending order and holds the dates of the
/// matching entries, each as often as entries with that date match.
pub proof fn lemma_answer_is_ordered(entries: Seq<EntryModel>, query: Seq<char>)
    ensures
        sorted_by(search_result(entries, query), descending()),
        search_result(entries, query).to_multiset() == matching_dates(entries, query).to_multiset(),
        search_result(entries, query).len() == matching_dates(entries, query).len(),
{
    lemma_descending_is_total();
    matching_dates(entries, query).lemma_sort_by_ensures(descending());
    vstd::seq_lib::to_multiset_len(search_result(entries, query));
    vstd::seq_lib::to_multiset_len(matching_dates(entries, query));
}

/// A date is in the answer to a query exactly when an entry of that date
/// matches the query: every match is answered, and nothing else is.
pub proof fn lemma_answer_holds_the_matches(entries: Seq<EntryModel>, query: Seq<char>, date: i64)
    ensures
        search_result(entries, query).contains(date) <==> exists|i: int|
            0 <= i < entries.len() && (#[trigger] entries[i]).date == date && matches(
                entries[i],
                query,
            ),
{
    lemma_answer_is_ordered(entries, query);
    vstd::seq_lib::to_multiset_contains(search_result(entries, query), date);
    vstd::seq_lib::to_multiset_contains(matching_dates(entries, query), date);
    lemma_matching_prefix(entries, query, entries.len() as int, date);
    assert(entries.take(entries.len() as int) =~= entries);
}

/// Every entry matches the empty query.
pub proof fn lemma_empty_query_matches(entry: EntryModel)
    ensures
        matches(entry, Seq::<char>::empty()),
{
    let needle = fold(Seq::<char>::empty());
    let hay = fold(entry.content);
    assert(needle =~= Seq::<char>::empty());
    assert(hay.subrange(0, 0) =~= needle);
    assert(occurs_at(hay, needle, 0));
}

/// With the empty query, the matching dates of the first `n` entries are
/// the dates of those entries.
proof fn lemma_empty_query_prefix(entries: Seq<EntryModel>, n: int)
    requires
        0 <= n <= entries.len(),
    ensures
        matching_dates(entries.take(n), Seq::<char>::empty()) == entries.take(n).map_values(
            |e: EntryModel| e.date,
        ),
    decreases n,
{
    let query = Seq::<char>::empty();
    if n == 0 {
        assert(matching_dates(entries.take(0), query) =~= Seq::<i64>::empty()) by {
            reveal(Seq::filter);
        }
        assert(entries.take(0).map_values(|e: EntryModel| e.date) =~= Seq::<i64>::empty());
    } else {
        lemma_empty_query_prefix(entries, n - 1);
        lemma_matching_step(entries, query, n - 1);
        lemma_empty_query_matches(entries[n - 1]);
        assert(entries.take(n).map_values(|e: EntryModel| e.date) =~= entries.take(
            n - 1,
        ).map_values(|e: EntryModel| e.date).push(entries[n - 1].date));
    }
}

/// The empty query is answered by every date of the store, in descending
/// order: the answer holds each date as often as the store does.
pub proof fn lemma_empty_query_lists_every_date(entries: Seq<EntryModel>)
    ensures
        sorted_by(search_result(entries, Seq::<char>::empty()), descending()),
        search_result(entries, Seq::<char>::empty()).to_multiset() == entries.map_values(
            |e: EntryModel| e.date,
        ).to_multiset(),
{
    lemma_answer_is_ordered(entries, Seq::<char>::empty());
    lemma_empty_query_prefix(entries, entries.len() as int);
    assert(entries.take(entries.len() as int) =~= entries);
}

/// With two queries that fold to the same text, the first `n` entries have
/// the same matching dates.
proof fn lemma_query_case_prefix(
    entries: Seq<EntryModel>,
    first: Seq<char>,
    second: Seq<char>,
    n: int,
)
    requires
        0 <= n <= entries.len(),
        fold(first) == fold(second),
    ensures
        matching_dates(entries.take(n), first) == matching_dates(entries.take(n), second),
    decreases n,
{
    if n == 0 {
        assert(matching_dates(entries.take(0), first) =~= matching_dates(entries.take(0), second))
            by {
            reveal(Seq::filter);
        }
    } else {
        lemma_query_case_prefix(entries, first, second, n - 1);
        lemma_matching_step(entries, first, n - 1);
        lemma_matching_step(entries, second, n - 1);
    }
}

/// The case of a query does not matter: two queries that differ only in the
/// case of their letters have the same answer.
pub proof fn lemma_query_case_is_ignored(
    entries: Seq<EntryModel>,
    first: Seq<char>,
    second: Seq<char>,
)
    requires
        fold(first) == fold(second),
    ensures
        search_result(entries, first) == search_result(entries, second),
{
    lemma_query_case_prefix(entries, first, second, entries.len() as int);
    assert(entries.take(entries.len() as int) =~= entries);
}

/// The case of an entry's text does not matter: two entries of one date
/// whose texts differ only in the case of their letters match the same
/// queries.
pub proof fn lemma_text_case_is_ignored(first: EntryModel, second: EntryModel, query: Seq<char>)
    requires
        first.date == second.date,
        fold(first.content) == fold(second.content),
    ensures
        matches(first, query) == matches(second, query),
{
}

/// An entry whose text holds the query, case apart, is in the answer.
pub proof fn lemma_text_is_searched(entries: Seq<EntryModel>, i: int, query: Seq<char>)
    requires
        0 <= i < entries.len(),
        contains(fold(entries[i].content), fold(query)),
    ensures
        search_result(entries, query).contains(entries[i].date),
{
    lemma_answer_holds_the_matches(entries, query, entries[i].date);
}

/// An entry whose date, written in decimal, holds the query is in the
/// answer.
pub proof fn lemma_date_is_searched(entries: Seq<EntryModel>, i: int, query: Seq<char>)
    requires
        0 <= i < entries.len(),
        contains(decimal(entries[i].date as int), fold(query)),
    ensures
        search_result(entries, query).contains(entries[i].date),
{
    lemma_decimal_is_folded(entries[i].date as int);
    lemma_answer_holds_the_matches(entries, query, entries[i].date);
}

} // verus!
