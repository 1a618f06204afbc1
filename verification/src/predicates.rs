//! The predicates that the filters add to a WHERE clause, as texts.

use crate::sanitize::{safe_spice, sanitized};
use crate::select::{graphic, is_tight, Connective};
use crate::text::{decimal, push_decimal};
use vstd::prelude::*;
use vstd::string::StringExecFns;

verus! {

/// The texts of `strings`, in their order.
pub open spec fn texts_of(strings: Seq<String>) -> Seq<Seq<char>> {
    Seq::new(strings.len(), |i: int| strings[i]@)
}

/// Each of `predicates` begins and ends with a graphic character.
pub open spec fn all_tight(predicates: Seq<Seq<char>>) -> bool {
    forall|i: int| 0 <= i < predicates.len() ==> is_tight(#[trigger] predicates[i])
}

/// The one condition that holds where each of `predicates` holds: their
/// texts, in their order, with ` AND ` between them. A predicate that
/// occurs twice is written twice.
pub open spec fn conjoined(predicates: Seq<Seq<char>>) -> Seq<char>
    decreases predicates.len(),
{
    if predicates.len() == 0 {
        seq![]
    } else if predicates.len() == 1 {
        predicates[0]
    } else {
        conjoined(predicates.drop_last()) + " AND "@ + predicates.last()
    }
}

/// The conditions of a statement with these predicates: none where there is
/// no predicate, and else their conjunction as one condition. The builder
/// leaves out a condition that it holds already; handed over as one, the
/// predicates are all kept.
pub open spec fn where_of(predicates: Seq<Seq<char>>) -> Seq<(Connective, Seq<char>)> {
    if predicates.len() == 0 {
        seq![]
    } else {
        seq![(Connective::And, conjoined(predicates))]
    }
}

/// The conjunction of tight predicates is tight, and so not empty.
pub proof fn lemma_conjoined_tight(predicates: Seq<Seq<char>>)
    requires
        predicates.len() > 0,
        all_tight(predicates),
    ensures
        is_tight(conjoined(predicates)),
    decreases predicates.len(),
{
    if predicates.len() > 1 {
        let head = predicates.drop_last();
        assert(all_tight(head)) by {
            assert forall|i: int| 0 <= i < head.len() implies is_tight(#[trigger] head[i]) by {
                assert(head[i] == predicates[i]);
            }
        }
        lemma_conjoined_tight(head);
        assert(is_tight(predicates.last()));
        let text = conjoined(predicates);
        assert(text.first() == conjoined(head).first());
        assert(text.last() == predicates.last().last());
    } else {
        assert(is_tight(predicates[0]));
    }
}

/// The text of [`conjoined`].
pub(crate) fn conjoin(predicates: &Vec<String>) -> (text: String)
    requires
        predicates.len() > 0,
    ensures
        text@ == conjoined(texts_of(predicates@)),
{
    let ghost texts = texts_of(predicates@);
    let mut text = predicates[0].clone();
    let mut i: usize = 1;
    proof {
        assert(texts.take(1).len() == 1);
    }
    while i < predicates.len()
        invariant
            1 <= i <= predicates.len(),
            texts == texts_of(predicates@),
            text@ == conjoined(texts.take(i as int)),
        decreases predicates.len() - i,
    {
        proof {
            assert(texts.take(i + 1).drop_last() =~= texts.take(i as int));
            assert(texts.take(i + 1).last() == predicates@[i as int]@);
        }
        text.append(" AND ");
        text.append(predicates[i].as_str());
        i = i + 1;
    }
    proof {
        assert(texts.take(predicates.len() as int) =~= texts);
    }
    text
}

/// `column = 'value'`, with the value sanitized.
pub open spec fn quoted_match(column: Seq<char>, value: Seq<char>) -> Seq<char> {
    column + " = '"@ + sanitized(value) + "'"@
}

/// The predicate that keeps the players whose full name contains `search`,
/// whatever the case of its letters.
pub open spec fn name_search_predicate(search: Seq<char>) -> Seq<char> {
    "full_name ILIKE '%"@ + sanitized(search) + "%'"@
}

/// The predicate that keeps one week.
pub open spec fn week_predicate(week: u16) -> Seq<char> {
    "week = "@ + decimal(week as nat)
}

/// The predicate that keeps the weeks from `start` to `end`, both included.
pub open spec fn week_range_predicate(start: u16, end: u16) -> Seq<char> {
    "week BETWEEN "@ + decimal(start as nat) + " AND "@ + decimal(end as nat)
}

/// The predicate that keeps, of each player, the last week that the roster of
/// `year` has of them.
pub open spec fn latest_week_predicate(year: u16) -> Seq<char> {
    "week = ( SELECT MAX(week) FROM roster"@ + decimal(year as nat)
        + " WHERE gsis_id = r.gsis_id )"@
}

/// The text of [`quoted_match`].
pub(crate) fn quoted_match_clause(column: &str, value: &str) -> (clause: String)
    requires
        column@.len() > 0,
        graphic(column@[0]),
    ensures
        clause@ == quoted_match(column@, value@),
        is_tight(clause@),
{
    let mut clause = String::from_str(column);
    clause.append(" = '");
    clause.append(safe_spice(value).as_str());
    clause.append("'");
    proof {
        reveal_strlit("'");
    }
    clause
}

/// The text of [`name_search_predicate`].
pub(crate) fn name_search_clause(search: &str) -> (clause: String)
    ensures
        clause@ == name_search_predicate(search@),
        is_tight(clause@),
{
    let mut clause = String::from_str("full_name ILIKE '%");
    clause.append(safe_spice(search).as_str());
    clause.append("%'");
    proof {
        reveal_strlit("full_name ILIKE '%");
        reveal_strlit("%'");
    }
    clause
}

/// The text of [`week_predicate`].
pub(crate) fn week_clause(week: u16) -> (clause: String)
    ensures
        clause@ == week_predicate(week),
        is_tight(clause@),
{
    let mut clause = String::from_str("week = ");
    push_decimal(&mut clause, week);
    proof {
        reveal_strlit("week = ");
    }
    clause
}

/// The text of [`week_range_predicate`].
pub(crate) fn week_range_clause(start: u16, end: u16) -> (clause: String)
    ensures
        clause@ == week_range_predicate(start, end),
        is_tight(clause@),
{
    let mut clause = String::from_str("week BETWEEN ");
    push_decimal(&mut clause, start);
    clause.append(" AND ");
    push_decimal(&mut clause, end);
    proof {
        reveal_strlit("week BETWEEN ");
    }
    clause
}

/// The text of [`latest_week_predicate`].
pub(crate) fn latest_week_clause(year: u16) -> (clause: String)
    ensures
        clause@ == latest_week_predicate(year),
        is_tight(clause@),
{
    let mut clause = String::from_str("week = ( SELECT MAX(week) FROM roster");
    push_decimal(&mut clause, year);
    clause.append(" WHERE gsis_id = r.gsis_id )");
    proof {
        reveal_strlit("week = ( SELECT MAX(week) FROM roster");
        reveal_strlit(" WHERE gsis_id = r.gsis_id )");
    }
    clause
}

} // verus!
