//! The roster query: one season's roster table, filtered.

use crate::predicates::{
    all_tight, conjoin, latest_week_clause, latest_week_predicate, lemma_conjoined_tight,
    name_search_clause, name_search_predicate, quoted_match, quoted_match_clause, texts_of,
    week_clause, week_predicate, week_range_clause, week_range_predicate, where_of,
};
use crate::select::{empty_select, flat, is_tight, select_model, select_text, SelectModel};
use crate::text::{decimal, push_decimal, uppercased};
use sql_query_builder::Select;
use vstd::prelude::*;
use vstd::string::StringExecFns;

verus! {

/// The columns that a roster query selects.
pub const ROSTER_FIELDS: &'static str =
    "gsis_id AS id, full_name, team, position, birth_date, height, weight, week, status";

/// What a roster query stands for: its season and the predicates that were
/// added to it, one for each call and in the order of the calls.
pub struct RosterState {
    pub year: u16,
    pub predicates: Seq<Seq<char>>,
}

/// The roster table of a season, under the alias `r`.
pub open spec fn roster_table(year: u16) -> Seq<char> {
    "roster"@ + decimal(year as nat) + " r"@
}

/// The statement that a roster state describes.
pub open spec fn roster_select(s: RosterState) -> SelectModel {
    SelectModel {
        select: seq![ROSTER_FIELDS@],
        from: seq![roster_table(s.year)],
        conditions: where_of(s.predicates),
        ..empty_select()
    }
}

impl RosterState {
    /// The state of a new roster query.
    pub open spec fn initial(year: u16) -> RosterState {
        RosterState { year, predicates: seq![] }
    }

    /// This state with `predicate` added at the end, whether or not it holds
    /// the same predicate already.
    pub open spec fn with_predicate(self, predicate: Seq<char>) -> RosterState {
        RosterState { predicates: self.predicates.push(predicate), ..self }
    }

    /// This state, filtered by team.
    pub open spec fn with_team(self, team: Seq<char>) -> RosterState {
        self.with_predicate(quoted_match("team"@, team))
    }

    /// This state, filtered by position, which is compared in upper case.
    pub open spec fn with_position(self, position: Seq<char>) -> RosterState {
        self.with_predicate(quoted_match("position"@, uppercased(position)))
    }

    /// This state, filtered by a part of the full name.
    pub open spec fn with_name_search(self, search: Seq<char>) -> RosterState {
        self.with_predicate(name_search_predicate(search))
    }

    /// This state, filtered to one week: the given one, or else each player's
    /// last week of the season.
    pub open spec fn with_single_week(self, week: Option<u16>) -> RosterState {
        match week {
            Some(week) => self.with_predicate(week_predicate(week)),
            None => self.with_predicate(latest_week_predicate(self.year)),
        }
    }

    /// This state, filtered to the weeks from `start` to `end`.
    pub open spec fn with_week_range(self, start: u16, end: u16) -> RosterState {
        self.with_predicate(week_range_predicate(start, end))
    }
}

/// A roster query under construction.
pub struct RosterQuery {
    predicates: Vec<String>,
    year: u16,
}

impl RosterQuery {
    /// The state that this query stands for.
    pub closed spec fn view(&self) -> RosterState {
        RosterState { year: self.year, predicates: texts_of(self.predicates@) }
    }

    #[verifier::type_invariant]
    spec fn inv(self) -> bool {
        all_tight(self@.predicates)
    }

    /// A query on the roster of `year`, without predicates.
    pub fn new(year: u16) -> (r: RosterQuery)
        ensures
            r@ == RosterState::initial(year),
    {
        let r = RosterQuery { predicates: Vec::new(), year };
        assert(r@.predicates =~= seq![]);
        r
    }

    /// Adds one predicate.
    fn and_where(self, clause: String) -> (r: RosterQuery)
        requires
            is_tight(clause@),
        ensures
            r@ == self@.with_predicate(clause@),
    {
        proof {
            use_type_invariant(&self);
        }
        let ghost before = self@.predicates;
        let RosterQuery { mut predicates, year } = self;
        predicates.push(clause);
        proof {
            assert(texts_of(predicates@) =~= before.push(clause@));
        }
        RosterQuery { predicates, year }
    }

    /// Keeps the rows of one team.
    pub fn team(self, team: &str) -> (r: RosterQuery)
        ensures
            r@ == self@.with_team(team@),
    {
        proof {
            reveal_strlit("team");
        }
        let clause = quoted_match_clause("team", team);
        self.and_where(clause)
    }

    /// Keeps the rows of one position, given in any case.
    pub fn position(self, position: &str) -> (r: RosterQuery)
        ensures
            r@ == self@.with_position(position@),
    {
        proof {
            reveal_strlit("position");
        }
        let upper = position.to_uppercase();
        let clause = quoted_match_clause("position", upper.as_str());
        self.and_where(clause)
    }

    /// Keeps the players whose full name contains `search`.
    pub fn name_search(self, search: &str) -> (r: RosterQuery)
        ensures
            r@ == self@.with_name_search(search@),
    {
        let clause = name_search_clause(search);
        self.and_where(clause)
    }

    /// Keeps one week: the given one, or else each player's last week of the
    /// season.
    pub fn single_week(self, week: Option<u16>) -> (r: RosterQuery)
        ensures
            r@ == self@.with_single_week(week),
    {
        match week {
            Some(week) => {
                let clause = week_clause(week);
                self.and_where(clause)
            },
            None => {
                let clause = latest_week_clause(self.year);
                self.and_where(clause)
            },
        }
    }

    /// Keeps the weeks from `start` to `end`, both included.
    pub fn week_range(self, start: u16, end: u16) -> (r: RosterQuery)
        ensures
            r@ == self@.with_week_range(start, end),
    {
        let clause = week_range_clause(start, end);
        self.and_where(clause)
    }

    /// The builder of this query.
    pub fn query(self) -> (q: Select)
        ensures
            select_model(q) == roster_select(self@),
            flat(select_model(q)),
    {
        proof {
            use_type_invariant(&self);
        }
        let mut table = String::from_str("roster");
        push_decimal(&mut table, self.year);
        table.append(" r");
        proof {
            reveal_strlit("roster");
            reveal_strlit(" r");
            reveal_strlit(
                "gsis_id AS id, full_name, team, position, birth_date, height, weight, week, status",
            );
        }
        let query = Select::new().select(ROSTER_FIELDS).from(table.as_str());
        if self.predicates.len() == 0 {
            query
        } else {
            let condition = conjoin(&self.predicates);
            proof {
                lemma_conjoined_tight(self@.predicates);
            }
            let query = query.where_clause(condition.as_str());
            proof {
                assert(select_model(query).conditions =~= where_of(self@.predicates));
            }
            query
        }
    }

    /// The text of this query.
    pub fn sql(self) -> (text: String)
        ensures
            text@ == select_text(roster_select(self@)),
    {
        self.query().as_string()
    }
}

} // verus!
