//! The `sql_query_builder::Select` builder as the rest of the crate sees it.
//!
//! A builder is opaque to the verifier. What it holds is described by
//! [`select_model`], and every builder method that this crate calls is given a
//! contract over that model, taken from the builder's source. None of these
//! contracts is proved here.

use sql_query_builder::{Select, SelectClause};
use vstd::prelude::*;

verus! {

/// The builder of a `SELECT` statement.
#[verifier::external_type_specification]
#[verifier::external_body]
pub struct ExSelect(Select);

/// The clause that a raw fragment is attached to: an enumeration without
/// fields, whose variants the verifier is let see.
#[verifier::external_type_specification]
pub struct ExSelectClause(SelectClause);

/// How a condition is joined to the one before it.
pub enum Connective {
    And,
    Or,
}

/// What a `Select` builder holds, field by field, in the order in which the
/// clauses are rendered. A nested query is held as a model of its own.
pub struct SelectModel {
    pub raw: Seq<Seq<char>>,
    pub with: Seq<(Seq<char>, SelectModel)>,
    pub select: Seq<Seq<char>>,
    pub from: Seq<Seq<char>>,
    pub join: Seq<Seq<char>>,
    pub conditions: Seq<(Connective, Seq<char>)>,
    pub group_by: Seq<Seq<char>>,
    pub having: Seq<Seq<char>>,
    pub window: Seq<Seq<char>>,
    pub order_by: Seq<Seq<char>>,
    pub limit: Seq<char>,
    pub offset: Seq<char>,
    pub except: Seq<SelectModel>,
    pub intersect: Seq<SelectModel>,
    pub union: Seq<SelectModel>,
    pub raw_before: Seq<(SelectClause, Seq<char>)>,
    pub raw_after: Seq<(SelectClause, Seq<char>)>,
}

/// The contents of the builder `q`.
pub uninterp spec fn select_model(q: Select) -> SelectModel;

/// The one-line text that `Select::as_string` renders for a builder with the
/// contents `m`.
pub uninterp spec fn select_text(m: SelectModel) -> Seq<char>;

/// The text that `str::trim` leaves of `s`. The builder trims every text that
/// is handed to it.
pub uninterp spec fn trimmed(s: Seq<char>) -> Seq<char>;

/// A printable ASCII character other than the space.
pub open spec fn graphic(c: char) -> bool {
    '!' <= c && c <= '~'
}

/// A text that begins and ends with a graphic character, so that trimming
/// removes nothing from it.
pub open spec fn is_tight(s: Seq<char>) -> bool {
    s.len() > 0 && graphic(s.first()) && graphic(s.last())
}

/// What trimming leaves of `s`, where `t` is what `str::trim` returns for it:
/// a tight text is left as it is.
pub open spec fn kept(s: Seq<char>, t: Seq<char>) -> Seq<char> {
    if is_tight(s) {
        s
    } else {
        t
    }
}

/// `list` with `item` at its end, unless `list` holds `item` already.
pub open spec fn add_unique<T>(list: Seq<T>, item: T) -> Seq<T> {
    if list.contains(item) {
        list
    } else {
        list.push(item)
    }
}

/// The contents of a new builder.
pub open spec fn empty_select() -> SelectModel {
    SelectModel {
        raw: seq![],
        with: seq![],
        select: seq![],
        from: seq![],
        join: seq![],
        conditions: seq![],
        group_by: seq![],
        having: seq![],
        window: seq![],
        order_by: seq![],
        limit: seq![],
        offset: seq![],
        except: seq![],
        intersect: seq![],
        union: seq![],
        raw_before: seq![],
        raw_after: seq![],
    }
}

/// No condition of `m` is the empty text.
pub open spec fn conditions_filled(m: SelectModel) -> bool {
    forall|i: int| 0 <= i < m.conditions.len() ==> (#[trigger] m.conditions[i]).1.len() > 0
}

/// A query without nested queries that names a table, so that its text is not
/// empty.
pub open spec fn flat(m: SelectModel) -> bool {
    &&& m.with.len() == 0
    &&& m.except.len() == 0
    &&& m.intersect.len() == 0
    &&& m.union.len() == 0
    &&& conditions_filled(m)
    &&& m.from.len() > 0
    &&& m.from[0].len() > 0
}

/// A query whose rendering cannot fail: no condition is empty, and every
/// nested query is flat.
pub open spec fn renders(m: SelectModel) -> bool {
    &&& conditions_filled(m)
    &&& forall|i: int| 0 <= i < m.with.len() ==> flat((#[trigger] m.with[i]).1)
    &&& m.except.len() == 0
    &&& m.intersect.len() == 0
    &&& m.union.len() == 0
}

/// `Select::new`: the default value, every list and text empty.
pub assume_specification[ Select::new ]() -> (q: Select)
    ensures
        select_model(q) == empty_select(),
;

/// `Select::select`: trims the column and appends it to the projection unless
/// the projection holds it already.
pub assume_specification[ Select::select ](q: Select, column: &str) -> (r: Select)
    ensures
        select_model(r) == (SelectModel {
            select: add_unique(select_model(q).select, kept(column@, trimmed(column@))),
            ..select_model(q)
        }),
;

/// `Select::from`: trims the table and appends it to the tables unless they
/// hold it already.
pub assume_specification[ Select::from ](q: Select, table: &str) -> (r: Select)
    ensures
        select_model(r) == (SelectModel {
            from: add_unique(select_model(q).from, kept(table@, trimmed(table@))),
            ..select_model(q)
        }),
;

/// `Select::where_clause`: trims the condition and appends it, joined by AND,
/// unless the conditions hold the same pair already.
pub assume_specification[ Select::where_clause ](q: Select, condition: &str) -> (r: Select)
    ensures
        select_model(r) == (SelectModel {
            conditions: add_unique(select_model(q).conditions, (Connective::And, kept(condition@, trimmed(condition@)))),
            ..select_model(q)
        }),
;

/// `Select::group_by`: trims the column and appends it to the grouping unless
/// the grouping holds it already.
pub assume_specification[ Select::group_by ](q: Select, column: &str) -> (r: Select)
    ensures
        select_model(r) == (SelectModel {
            group_by: add_unique(select_model(q).group_by, kept(column@, trimmed(column@))),
            ..select_model(q)
        }),
;

/// `Select::order_by`: trims the column and appends it to the ordering unless
/// the ordering holds it already.
pub assume_specification[ Select::order_by ](q: Select, column: &str) -> (r: Select)
    ensures
        select_model(r) == (SelectModel {
            order_by: add_unique(select_model(q).order_by, kept(column@, trimmed(column@))),
            ..select_model(q)
        }),
;

/// `Select::inner_join`: trims the table; if anything is left, appends
/// `INNER JOIN` and the table to the joins unless they hold that text already.
pub assume_specification[ Select::inner_join ](q: Select, table: &str) -> (r: Select)
    ensures
        select_model(r) == (SelectModel {
            join: if kept(table@, trimmed(table@)).len() == 0 {
                select_model(q).join
            } else {
                add_unique(select_model(q).join, "INNER JOIN "@ + kept(table@, trimmed(table@)))
            },
            ..select_model(q)
        }),
;

/// `Select::raw_after`: trims the fragment and appends it, with its clause,
/// to the fragments that follow a clause.
pub assume_specification[ Select::raw_after ](q: Select, clause: SelectClause, raw_sql: &str) -> (r:
    Select)
    ensures
        select_model(r) == (SelectModel {
            raw_after: select_model(q).raw_after.push((clause, kept(raw_sql@, trimmed(raw_sql@)))),
            ..select_model(q)
        }),
;

/// `Select::limit`: replaces the limit by the trimmed text.
pub assume_specification[ Select::limit ](q: Select, num: &str) -> (r: Select)
    ensures
        select_model(r) == (SelectModel { limit: kept(num@, trimmed(num@)), ..select_model(q) }),
;

/// `Select::as_string`: the one-line rendering of the builder. The rendering
/// panics on a WHERE list all of whose conditions are empty, on a WITH list
/// none of whose queries has a text, and where the rendering of a nested query
/// does; the precondition leaves out these builders, and more.
pub assume_specification[ Select::as_string ](q: &Select) -> (text: String)
    requires
        renders(select_model(*q)),
    ensures
        text@ == select_text(select_model(*q)),
;

/// `Select::with`, for a nested `Select`: trims the name and appends the pair
/// of name and query to the WITH list.
#[verifier::external_body]
pub(crate) fn with_select(q: Select, name: &str, query: Select) -> (r: Select)
    ensures
        select_model(r) == (SelectModel {
            with: select_model(q).with.push((kept(name@, trimmed(name@)), select_model(query))),
            ..select_model(q)
        }),
{
    q.with(name, query)
}

} // verus!
