//! The play-by-play query: three aggregates of one season, one for each
//! category of statistics, joined by player and game, and on request joined to
//! the roster.

use crate::predicates::{
    all_tight, conjoin, lemma_conjoined_tight, name_search_predicate, quoted_match,
    quoted_match_clause, texts_of, week_clause, week_predicate, week_range_clause,
    week_range_predicate, where_of,
};
use crate::rosters::{roster_select, RosterQuery, RosterState};
use crate::sanitize::sanitized;
use crate::select::{
    add_unique, empty_select, graphic, is_tight, select_model, select_text, with_select,
    SelectModel,
};
use crate::text::{decimal, lemma_decimal_tight, push_decimal};
use sql_query_builder::{Select, SelectClause};
use vstd::prelude::*;
use vstd::string::StringExecFns;

verus! {

/// The columns of the passing aggregate.
pub const PASSING_COLUMNS: &'static str = "game_id,
                MIN(game_date) as game_date,
                MIN(week) as week,
                posteam as team,
                passer_player_id as player_id,
                passer_player_name as player_name,
                SUM(passing_yards) as passing_yards,
                SUM(pass_touchdown) as pass_touchdowns,
                SUM(interception) as interceptions,
                SUM(CASE WHEN passing_yards > 50 THEN pass_touchdown ELSE 0 END) as passing_50yd_td";

/// The columns of the receiving aggregate.
pub const RECEIVING_COLUMNS: &'static str = "game_id,
                MIN(game_date) as game_date,
                MIN(week) as week,
                posteam as team,
                receiver_player_id as player_id,
                receiver_player_name as player_name,
                SUM(complete_pass) as receptions,
                SUM(receiving_yards) as receiving_yards,
                SUM(pass_touchdown) as receiving_touchdowns,
                SUM(CASE WHEN two_point_conv_result = 'success' THEN 1 ELSE 0 END) as receiving_2pt_conv,
                SUM(CASE WHEN receiving_yards > 50 THEN pass_touchdown ELSE 0 END) as receiving_50yd_td";

/// The columns of the rushing aggregate.
pub const RUSHING_COLUMNS: &'static str = "game_id,
                MIN(game_date) as game_date,
                MIN(week) as week,
                posteam as team,
                rusher_player_id as player_id,
                rusher_player_name as player_name,
                SUM(rushing_yards) as rushing_yards,
                SUM(rush_touchdown) as rush_touchdowns,
                SUM(CASE WHEN two_point_conv_result = 'success' THEN 1 ELSE 0 END) as rushing_2pt_conv,
                SUM(CASE WHEN rushing_yards > 50 THEN rush_touchdown ELSE 0 END) as rushing_50yd_td";

/// The columns that the join takes from one category each, which are null
/// where the player has no play of that category in the game.
pub const CATEGORY_METRICS: &'static str = "p.passing_yards,
                p.pass_touchdowns,
                p.interceptions,
                p.passing_50yd_td,
                rx.receptions,
                rx.receiving_yards,
                rx.receiving_touchdowns,
                rx.receiving_2pt_conv,
                rx.receiving_50yd_td,
                r.rushing_yards,
                r.rush_touchdowns,
                r.rushing_2pt_conv,
                r.rushing_50yd_td";

/// A player's age on the day of the game, in years with one decimal.
pub const AGE_COLUMN: &'static str =
    "ROUND(arrow_cast(pbpjoin.game_date::DATE - rosters.birth_date::DATE, 'Int64') / (60*60*24*365.25), 1) AS age";

/// The order of the rows: by date, then the best of each category first.
pub const ROW_ORDER: &'static str =
    "game_date, passing_yards DESC NULLS LAST, receiving_yards DESC NULLS LAST, rushing_yards DESC NULLS LAST";

/// The roster row of the player in the week of the game.
pub const ROSTER_MATCH: &'static str =
    "rosters ON pbpjoin.player_id = rosters.id AND pbpjoin.week = rosters.week";

/// The number of rows that a query returns at most, unless it is told
/// otherwise.
pub const DEFAULT_LIMIT: u16 = 500;

/// A category of statistics: each play counts for the player who passed,
/// received or rushed.
#[derive(Clone, Copy, Debug, PartialEq, Eq, Structural)]
pub enum StatCategory {
    Passing,
    Receiving,
    Rushing,
}

impl StatCategory {
    /// The columns of this category's aggregate.
    pub open spec fn columns(self) -> Seq<char> {
        match self {
            StatCategory::Passing => PASSING_COLUMNS@,
            StatCategory::Receiving => RECEIVING_COLUMNS@,
            StatCategory::Rushing => RUSHING_COLUMNS@,
        }
    }

    /// The column that holds the id of the acting player.
    pub open spec fn player_id_column(self) -> Seq<char> {
        match self {
            StatCategory::Passing => "passer_player_id"@,
            StatCategory::Receiving => "receiver_player_id"@,
            StatCategory::Rushing => "rusher_player_id"@,
        }
    }

    /// The predicate that leaves out the plays without an acting player.
    pub open spec fn attributed(self) -> Seq<char> {
        match self {
            StatCategory::Passing => "passer_player_name IS NOT NULL"@,
            StatCategory::Receiving => "receiver_player_name IS NOT NULL"@,
            StatCategory::Rushing => "rusher_player_name IS NOT NULL"@,
        }
    }

    /// The key of the aggregate: one row for each player in each game.
    pub open spec fn group_key(self) -> Seq<char> {
        match self {
            StatCategory::Passing => "game_id, posteam, passer_player_id, passer_player_name"@,
            StatCategory::Receiving => "game_id, posteam, receiver_player_id, receiver_player_name"@,
            StatCategory::Rushing => "game_id, posteam, rusher_player_id, rusher_player_name"@,
        }
    }
}

/// The texts of the columns begin and end with a graphic character, so that
/// the builder stores them as they are.
proof fn lemma_columns_tight()
    ensures
        is_tight(PASSING_COLUMNS@),
        is_tight(RECEIVING_COLUMNS@),
        is_tight(RUSHING_COLUMNS@),
        is_tight(CATEGORY_METRICS@),
        CATEGORY_METRICS@[0] == 'p',
{
    reveal_strlit(
        "game_id,
                MIN(game_date) as game_date,
                MIN(week) as week,
                posteam as team,
                passer_player_id as player_id,
                passer_player_name as player_name,
                SUM(passing_yards) as passing_yards,
                SUM(pass_touchdown) as pass_touchdowns,
                SUM(interception) as interceptions,
                SUM(CASE WHEN passing_yards > 50 THEN pass_touchdown ELSE 0 END) as passing_50yd_td",
    );
    reveal_strlit(
        "game_id,
                MIN(game_date) as game_date,
                MIN(week) as week,
                posteam as team,
                receiver_player_id as player_id,
                receiver_player_name as player_name,
                SUM(complete_pass) as receptions,
                SUM(receiving_yards) as receiving_yards,
                SUM(pass_touchdown) as receiving_touchdowns,
                SUM(CASE WHEN two_point_conv_result = 'success' THEN 1 ELSE 0 END) as receiving_2pt_conv,
                SUM(CASE WHEN receiving_yards > 50 THEN pass_touchdown ELSE 0 END) as receiving_50yd_td",
    );
    reveal_strlit(
        "game_id,
                MIN(game_date) as game_date,
                MIN(week) as week,
                posteam as team,
                rusher_player_id as player_id,
                rusher_player_name as player_name,
                SUM(rushing_yards) as rushing_yards,
                SUM(rush_touchdown) as rush_touchdowns,
                SUM(CASE WHEN two_point_conv_result = 'success' THEN 1 ELSE 0 END) as rushing_2pt_conv,
                SUM(CASE WHEN rushing_yards > 50 THEN rush_touchdown ELSE 0 END) as rushing_50yd_td",
    );
    reveal_strlit(
        "p.passing_yards,
                p.pass_touchdowns,
                p.interceptions,
                p.passing_50yd_td,
                rx.receptions,
                rx.receiving_yards,
                rx.receiving_touchdowns,
                rx.receiving_2pt_conv,
                rx.receiving_50yd_td,
                r.rushing_yards,
                r.rush_touchdowns,
                r.rushing_2pt_conv,
                r.rushing_50yd_td",
    );
}

/// The play-by-play table of a season.
pub open spec fn stat_table(year: u16) -> Seq<char> {
    "pbp"@ + decimal(year as nat)
}

/// The aggregate of one category over one season, under `predicates`.
pub open spec fn stat_select(category: StatCategory, year: u16, predicates: Seq<Seq<char>>) -> SelectModel {
    SelectModel {
        select: seq![category.columns()],
        from: seq![stat_table(year)],
        conditions: where_of(predicates),
        group_by: seq![category.group_key()],
        ..empty_select()
    }
}

/// The first of the values that the three categories have of `field`.
pub open spec fn coalesced(field: Seq<char>) -> Seq<char> {
    "COALESCE(p."@ + field + ", rx."@ + field + ", r."@ + field + ") AS "@ + field
}

/// The columns of the join of the three aggregates: what identifies the row,
/// taken from whichever category has it, then each category's own columns.
pub open spec fn joined_columns() -> Seq<Seq<char>> {
    seq![
        coalesced("game_id"@),
        coalesced("game_date"@),
        coalesced("week"@),
        coalesced("team"@),
        coalesced("player_id"@),
        coalesced("player_name"@),
        CATEGORY_METRICS@,
    ]
}

/// No column of the join is written twice, so the builder keeps each of
/// them where it is added.
proof fn lemma_joined_columns_distinct()
    ensures
        ({
            let c = joined_columns();
            let c1 = add_unique(seq![], c[0]);
            let c2 = add_unique(c1, c[1]);
            let c3 = add_unique(c2, c[2]);
            let c4 = add_unique(c3, c[3]);
            let c5 = add_unique(c4, c[4]);
            let c6 = add_unique(c5, c[5]);
            add_unique(c6, c[6]) == c
        }),
{
    lemma_columns_tight();
    reveal_strlit("COALESCE(p.");
    reveal_strlit("game_id");
    reveal_strlit("game_date");
    reveal_strlit("week");
    reveal_strlit("team");
    reveal_strlit("player_id");
    reveal_strlit("player_name");
    let c = joined_columns();
    // Each column is told from the others by a character of its own.
    assert(c[0][11] == 'g' && c[0][16] == 'i');
    assert(c[1][11] == 'g' && c[1][16] == 'd');
    assert(c[2][11] == 'w');
    assert(c[3][11] == 't');
    assert(c[4][11] == 'p' && c[4][18] == 'i');
    assert(c[5][11] == 'p' && c[5][18] == 'n');
    assert(c[0][0] == 'C' && c[1][0] == 'C' && c[2][0] == 'C');
    assert(c[3][0] == 'C' && c[4][0] == 'C' && c[5][0] == 'C');
    assert(c[6][0] == 'p');
    let c1 = seq![c[0]];
    let c2 = c1.push(c[1]);
    let c3 = c2.push(c[2]);
    let c4 = c3.push(c[3]);
    let c5 = c4.push(c[4]);
    let c6 = c5.push(c[5]);
    assert(add_unique(seq![], c[0]) =~= c1);
    assert(add_unique(c1, c[1]) == c2);
    assert(add_unique(c2, c[2]) == c3);
    assert(add_unique(c3, c[3]) == c4);
    assert(add_unique(c4, c[4]) == c5);
    assert(add_unique(c5, c[5]) == c6);
    assert(add_unique(c6, c[6]) =~= c);
}

/// The full outer join of the three aggregates on player and game, so that a
/// player who has plays of one category only still has a row.
pub open spec fn joined_select() -> SelectModel {
    SelectModel {
        select: joined_columns(),
        from: seq!["passing p"@],
        raw_after: seq![
            (SelectClause::From, "FULL JOIN receiving rx USING (player_id, game_id)"@),
            (SelectClause::From, "FULL JOIN rushing r USING (player_id, game_id)"@),
        ],
        ..empty_select()
    }
}

/// What a play-by-play query stands for: the predicates of each aggregate,
/// one for each call that added one and in the order of the calls, the roster
/// query, whether the roster is joined, and the row limit.
pub struct PbpState {
    pub passing: Seq<Seq<char>>,
    pub receiving: Seq<Seq<char>>,
    pub rushing: Seq<Seq<char>>,
    pub roster: RosterState,
    pub join_roster: bool,
    pub limit: u16,
}

impl PbpState {
    /// The season of the query.
    pub open spec fn year(self) -> u16 {
        self.roster.year
    }

    /// The state of a new query: each aggregate leaves out the plays without
    /// an acting player, the roster is not joined, and the limit is 500 rows.
    pub open spec fn initial(year: u16) -> PbpState {
        PbpState {
            passing: seq![StatCategory::Passing.attributed()],
            receiving: seq![StatCategory::Receiving.attributed()],
            rushing: seq![StatCategory::Rushing.attributed()],
            roster: RosterState::initial(year),
            join_roster: false,
            limit: DEFAULT_LIMIT,
        }
    }

    /// This state with `predicate` added at the end of each of the three
    /// aggregates, whether or not they hold the same predicate already.
    pub open spec fn with_stat_predicate(self, predicate: Seq<char>) -> PbpState {
        PbpState {
            passing: self.passing.push(predicate),
            receiving: self.receiving.push(predicate),
            rushing: self.rushing.push(predicate),
            ..self
        }
    }

    /// This state, filtered by a part of the player's name. Names are looked
    /// up in the roster only, so the roster is joined.
    pub open spec fn with_player(self, name: Seq<char>) -> PbpState {
        PbpState { roster: self.roster.with_name_search(name), join_roster: true, ..self }
    }

    /// This state with the passing aggregate filtered by the passer's id.
    pub open spec fn with_passer_id(self, id: Seq<char>) -> PbpState {
        PbpState {
            passing: self.passing.push(quoted_match(StatCategory::Passing.player_id_column(), id)),
            ..self
        }
    }

    /// This state with the rushing aggregate filtered by the rusher's id.
    pub open spec fn with_rusher_id(self, id: Seq<char>) -> PbpState {
        PbpState {
            rushing: self.rushing.push(quoted_match(StatCategory::Rushing.player_id_column(), id)),
            ..self
        }
    }

    /// This state with the receiving aggregate filtered by the receiver's id.
    pub open spec fn with_receiver_id(self, id: Seq<char>) -> PbpState {
        PbpState {
            receiving: self.receiving.push(quoted_match(StatCategory::Receiving.player_id_column(), id)),
            ..self
        }
    }

    /// This state with each aggregate filtered by the id of its acting
    /// player. The roster is left as it is.
    pub open spec fn with_player_id(self, id: Seq<char>) -> PbpState {
        self.with_passer_id(id).with_rusher_id(id).with_receiver_id(id)
    }

    /// This state, filtered by position. Positions are known to the roster
    /// only, so the roster is joined.
    pub open spec fn with_position(self, position: Seq<char>) -> PbpState {
        PbpState { roster: self.roster.with_position(position), join_roster: true, ..self }
    }

    /// This state with the roster and each aggregate filtered to one week.
    pub open spec fn with_week(self, week: u16) -> PbpState {
        PbpState { roster: self.roster.with_single_week(Some(week)), ..self }.with_stat_predicate(
            week_predicate(week),
        )
    }

    /// This state with the roster and each aggregate filtered to the weeks
    /// from `start` to `end`.
    pub open spec fn with_week_range(self, start: u16, end: u16) -> PbpState {
        PbpState {
            roster: self.roster.with_week_range(start, end),
            ..self
        }.with_stat_predicate(week_range_predicate(start, end))
    }

    /// This state with the roster and each aggregate filtered by team. The
    /// play-by-play table names the team of a play `posteam`.
    pub open spec fn with_team(self, team: Seq<char>) -> PbpState {
        PbpState { roster: self.roster.with_team(team), ..self }.with_stat_predicate(
            quoted_match("posteam"@, team),
        )
    }

    /// This state with the roster joined.
    pub open spec fn with_roster(self) -> PbpState {
        PbpState { join_roster: true, ..self }
    }

    /// This state with another row limit.
    pub open spec fn with_limit(self, limit: u16) -> PbpState {
        PbpState { limit, ..self }
    }

    /// The named subqueries of the final query: the three aggregates and
    /// their join, and the roster where it is joined.
    pub open spec fn subqueries(self) -> Seq<(Seq<char>, SelectModel)> {
        let stats = seq![
            ("passing"@, stat_select(StatCategory::Passing, self.year(), self.passing)),
            ("receiving"@, stat_select(StatCategory::Receiving, self.year(), self.receiving)),
            ("rushing"@, stat_select(StatCategory::Rushing, self.year(), self.rushing)),
            ("pbpjoin"@, joined_select()),
        ];
        if self.join_roster {
            stats.push(("rosters"@, roster_select(self.roster)))
        } else {
            stats
        }
    }

    /// The final query. Without the roster it selects every row of the join
    /// of the aggregates. With it, it keeps the rows that have a roster row
    /// of the same player and week, and adds the player's age.
    pub open spec fn assembled(self) -> SelectModel {
        SelectModel {
            with: self.subqueries(),
            select: if self.join_roster {
                seq!["*"@, AGE_COLUMN@]
            } else {
                seq!["*"@]
            },
            from: seq!["pbpjoin"@],
            join: if self.join_roster {
                seq!["INNER JOIN "@ + ROSTER_MATCH@]
            } else {
                seq![]
            },
            order_by: seq![ROW_ORDER@],
            limit: decimal(self.limit as nat),
            ..empty_select()
        }
    }

    /// `later` keeps what this state has: every predicate in its place, the
    /// season, and the join of the roster if it was asked for.
    pub open spec fn extended_by(self, later: PbpState) -> bool {
        &&& self.passing.is_prefix_of(later.passing)
        &&& self.receiving.is_prefix_of(later.receiving)
        &&& self.rushing.is_prefix_of(later.rushing)
        &&& self.roster.predicates.is_prefix_of(later.roster.predicates)
        &&& later.year() == self.year()
        &&& self.join_roster ==> later.join_roster
    }

    /// Each of the three aggregates has the predicate `p`.
    pub open spec fn every_aggregate_has(self, p: Seq<char>) -> bool {
        self.passing.contains(p) && self.receiving.contains(p) && self.rushing.contains(p)
    }
}

/// The names of the subqueries of `m`, in their order.
pub open spec fn subquery_names(m: SelectModel) -> Seq<Seq<char>> {
    Seq::new(m.with.len(), |i: int| m.with[i].0)
}

/// Whatever the filters are, the subqueries of the final query are the three
/// aggregates and their join, followed by the roster exactly where the roster
/// is joined.
pub proof fn lemma_subqueries(s: PbpState)
    ensures
        subquery_names(s.assembled()) == if s.join_roster {
            seq!["passing"@, "receiving"@, "rushing"@, "pbpjoin"@, "rosters"@]
        } else {
            seq!["passing"@, "receiving"@, "rushing"@, "pbpjoin"@]
        },
        subquery_names(s.assembled()).contains("rosters"@) <==> s.join_roster,
        s.assembled().with[0].1 == stat_select(StatCategory::Passing, s.year(), s.passing),
        s.assembled().with[1].1 == stat_select(StatCategory::Receiving, s.year(), s.receiving),
        s.assembled().with[2].1 == stat_select(StatCategory::Rushing, s.year(), s.rushing),
        s.assembled().with[3].1 == joined_select(),
        s.join_roster ==> s.assembled().with[4].1 == roster_select(s.roster),
{
    reveal_strlit("passing");
    reveal_strlit("receiving");
    reveal_strlit("rushing");
    reveal_strlit("pbpjoin");
    reveal_strlit("rosters");
    let names = subquery_names(s.assembled());
    if s.join_roster {
        assert(names =~= seq!["passing"@, "receiving"@, "rushing"@, "pbpjoin"@, "rosters"@]);
        assert(names[4] == "rosters"@);
    } else {
        assert(names =~= seq!["passing"@, "receiving"@, "rushing"@, "pbpjoin"@]);
        assert("rosters"@[0] != "passing"@[0]);
        assert("rosters"@.len() != "receiving"@.len());
        assert("rosters"@[1] != "rushing"@[1]);
        assert("rosters"@[0] != "pbpjoin"@[0]);
    }
}

/// A query without filters, of whatever season, has exactly the three
/// aggregates and their join as subqueries and no roster; it selects every
/// column of the join and joins nothing to it.
pub proof fn lemma_unfiltered(year: u16)
    ensures
        subquery_names(PbpState::initial(year).assembled()) == seq![
            "passing"@,
            "receiving"@,
            "rushing"@,
            "pbpjoin"@,
        ],
        !subquery_names(PbpState::initial(year).assembled()).contains("rosters"@),
        PbpState::initial(year).assembled().select == seq!["*"@],
        PbpState::initial(year).assembled().join.len() == 0,
{
    lemma_subqueries(PbpState::initial(year));
}

/// A filter on the player's name joins the roster and gives it, as its last
/// predicate, the one that looks for the sanitized name anywhere in the full
/// name; the aggregates are left as they are.
pub proof fn lemma_filter_player(s: PbpState, name: Seq<char>)
    ensures
        s.with_player(name).join_roster,
        s.with_player(name).roster.predicates == s.roster.predicates.push(
            "full_name ILIKE '%"@ + sanitized(name) + "%'"@,
        ),
        s.with_player(name).roster.predicates.contains(
            "full_name ILIKE '%"@ + sanitized(name) + "%'"@,
        ),
        s.with_player(name).passing == s.passing,
        s.with_player(name).receiving == s.receiving,
        s.with_player(name).rushing == s.rushing,
{
    let p = name_search_predicate(name);
    assert(s.roster.predicates.push(p)[s.roster.predicates.len() as int] == p);
}

/// A filter on the player's id gives each aggregate, as its last predicate,
/// the one on its own id column, and does not join the roster.
pub proof fn lemma_filter_player_id(s: PbpState, id: Seq<char>)
    ensures
        s.with_player_id(id).passing == s.passing.push(
            "passer_player_id"@ + " = '"@ + sanitized(id) + "'"@,
        ),
        s.with_player_id(id).receiving == s.receiving.push(
            "receiver_player_id"@ + " = '"@ + sanitized(id) + "'"@,
        ),
        s.with_player_id(id).rushing == s.rushing.push(
            "rusher_player_id"@ + " = '"@ + sanitized(id) + "'"@,
        ),
        s.with_player_id(id).roster == s.roster,
        s.with_player_id(id).join_roster == s.join_roster,
{
}

/// After `predicate` is added to each aggregate, each aggregate has it.
pub proof fn lemma_stat_predicate_is_there(s: PbpState, predicate: Seq<char>)
    ensures
        s.with_stat_predicate(predicate).every_aggregate_has(predicate),
{
    let t = s.with_stat_predicate(predicate);
    assert(t.passing[s.passing.len() as int] == predicate);
    assert(t.receiving[s.receiving.len() as int] == predicate);
    assert(t.rushing[s.rushing.len() as int] == predicate);
}

/// A filter on one week gives the predicate on that week to each of the three
/// aggregates and to the roster, each time as the last predicate.
pub proof fn lemma_filter_week(s: PbpState, week: u16)
    ensures
        s.with_week(week).every_aggregate_has("week = "@ + decimal(week as nat)),
        s.with_week(week).roster.predicates.contains("week = "@ + decimal(week as nat)),
        s.with_week(week).passing == s.passing.push("week = "@ + decimal(week as nat)),
        s.with_week(week).roster.predicates == s.roster.predicates.push(
            "week = "@ + decimal(week as nat),
        ),
{
    let p = week_predicate(week);
    lemma_stat_predicate_is_there(PbpState { roster: s.roster.with_single_week(Some(week)), ..s }, p);
    assert(s.roster.predicates.push(p)[s.roster.predicates.len() as int] == p);
}

/// A filter on a range of weeks gives the predicate on that range to each of
/// the three aggregates and to the roster, whether or not the range holds a
/// week.
pub proof fn lemma_filter_week_range(s: PbpState, start: u16, end: u16)
    ensures
        s.with_week_range(start, end).every_aggregate_has(
            "week BETWEEN "@ + decimal(start as nat) + " AND "@ + decimal(end as nat),
        ),
        s.with_week_range(start, end).roster.predicates.contains(
            "week BETWEEN "@ + decimal(start as nat) + " AND "@ + decimal(end as nat),
        ),
        s.with_week_range(start, end).passing == s.passing.push(
            "week BETWEEN "@ + decimal(start as nat) + " AND "@ + decimal(end as nat),
        ),
{
    let p = week_range_predicate(start, end);
    lemma_stat_predicate_is_there(PbpState { roster: s.roster.with_week_range(start, end), ..s }, p);
    assert(s.roster.predicates.push(p)[s.roster.predicates.len() as int] == p);
}

/// Two values that differ after sanitizing give two predicates on `column`
/// that differ.
pub proof fn lemma_quoted_match_differs(column: Seq<char>, a: Seq<char>, b: Seq<char>)
    requires
        sanitized(a) != sanitized(b),
    ensures
        quoted_match(column, a) != quoted_match(column, b),
{
    let head = column + " = '"@;
    let pa = quoted_match(column, a);
    let pb = quoted_match(column, b);
    if pa == pb {
        assert(pa.len() == head.len() + sanitized(a).len() + "'"@.len());
        assert(pa.subrange(head.len() as int, (head.len() + sanitized(a).len()) as int)
            =~= sanitized(a));
        assert(pb.subrange(head.len() as int, (head.len() + sanitized(b).len()) as int)
            =~= sanitized(b));
    }
}

/// A second filter on the team does not replace the first, and is not left
/// out either: after two filters, be their values different or the same, each
/// aggregate and the roster hold the predicates of both, the second after the
/// first. On a new query the aggregate then holds its own predicate and the
/// two of the teams, in that order.
pub proof fn lemma_filter_team_twice(s: PbpState, a: Seq<char>, b: Seq<char>)
    ensures
        s.with_team(a).with_team(b).passing == s.passing.push(quoted_match("posteam"@, a)).push(
            quoted_match("posteam"@, b),
        ),
        s.with_team(a).with_team(b).receiving == s.receiving.push(
            quoted_match("posteam"@, a),
        ).push(quoted_match("posteam"@, b)),
        s.with_team(a).with_team(b).rushing == s.rushing.push(quoted_match("posteam"@, a)).push(
            quoted_match("posteam"@, b),
        ),
        s.with_team(a).with_team(b).roster.predicates == s.roster.predicates.push(
            quoted_match("team"@, a),
        ).push(quoted_match("team"@, b)),
        s.with_team(a).with_team(b).every_aggregate_has(quoted_match("posteam"@, a)),
        s.with_team(a).with_team(b).every_aggregate_has(quoted_match("posteam"@, b)),
        PbpState::initial(s.year()).with_team(a).with_team(b).passing == seq![
            StatCategory::Passing.attributed(),
            quoted_match("posteam"@, a),
            quoted_match("posteam"@, b),
        ],
        sanitized(a) != sanitized(b) ==> quoted_match("posteam"@, a) != quoted_match(
            "posteam"@,
            b,
        ),
{
    let pa = quoted_match("posteam"@, a);
    let pb = quoted_match("posteam"@, b);
    let t = s.with_team(a).with_team(b);
    assert(t.passing[s.passing.len() as int] == pa);
    assert(t.receiving[s.receiving.len() as int] == pa);
    assert(t.rushing[s.rushing.len() as int] == pa);
    assert(t.passing[s.passing.len() as int + 1] == pb);
    assert(t.receiving[s.receiving.len() as int + 1] == pb);
    assert(t.rushing[s.rushing.len() as int + 1] == pb);
    assert(PbpState::initial(s.year()).with_team(a).with_team(b).passing =~= seq![
        StatCategory::Passing.attributed(),
        pa,
        pb,
    ]);
    if sanitized(a) != sanitized(b) {
        lemma_quoted_match_differs("posteam"@, a, b);
    }
}

/// Every call that filters adds: each list that the call is about is longer
/// by one afterwards, also where the same call was made before.
pub proof fn lemma_filters_always_add(s: PbpState, text: Seq<char>, week: u16, end: u16)
    ensures
        s.with_player(text).roster.predicates.len() == s.roster.predicates.len() + 1,
        s.with_position(text).roster.predicates.len() == s.roster.predicates.len() + 1,
        s.with_player_id(text).passing.len() == s.passing.len() + 1,
        s.with_player_id(text).receiving.len() == s.receiving.len() + 1,
        s.with_player_id(text).rushing.len() == s.rushing.len() + 1,
        s.with_team(text).passing.len() == s.passing.len() + 1,
        s.with_team(text).receiving.len() == s.receiving.len() + 1,
        s.with_team(text).rushing.len() == s.rushing.len() + 1,
        s.with_team(text).roster.predicates.len() == s.roster.predicates.len() + 1,
        s.with_week(week).passing.len() == s.passing.len() + 1,
        s.with_week(week).receiving.len() == s.receiving.len() + 1,
        s.with_week(week).rushing.len() == s.rushing.len() + 1,
        s.with_week(week).roster.predicates.len() == s.roster.predicates.len() + 1,
        s.with_week_range(week, end).passing.len() == s.passing.len() + 1,
        s.with_week_range(week, end).receiving.len() == s.receiving.len() + 1,
        s.with_week_range(week, end).rushing.len() == s.rushing.len() + 1,
        s.with_week_range(week, end).roster.predicates.len() == s.roster.predicates.len() + 1,
        s.with_team(text).with_team(text).passing.len() == s.passing.len() + 2,
        s.with_week(week).with_week(week).passing.len() == s.passing.len() + 2,
        s.with_player(text).with_player(text).roster.predicates.len()
            == s.roster.predicates.len() + 2,
{
}

/// The final query is cut off after as many rows as the limit says: 500 on a
/// new query, and the number given where one is given.
pub proof fn lemma_limit(s: PbpState, year: u16, limit: u16)
    ensures
        s.assembled().limit == decimal(s.limit as nat),
        PbpState::initial(year).assembled().limit == seq!['5', '0', '0'],
        s.with_limit(limit).assembled().limit == decimal(limit as nat),
{
    reveal_with_fuel(decimal, 3);
}

/// Where the roster is joined, and be it without any filter on it, the final
/// query has the roster as a subquery, an inner join to it on player and week,
/// and the age among its columns. Where it is not, it has none of them.
pub proof fn lemma_join_roster(s: PbpState)
    ensures
        s.with_roster().assembled().with.last() == ("rosters"@, roster_select(s.roster)),
        s.with_roster().assembled().join == seq![
            "INNER JOIN "@
                + "rosters ON pbpjoin.player_id = rosters.id AND pbpjoin.week = rosters.week"@,
        ],
        s.with_roster().assembled().select == seq!["*"@, AGE_COLUMN@],
        !s.join_roster ==> s.assembled().join.len() == 0 && s.assembled().select == seq!["*"@],
{
}

/// No call takes anything away: after each of them the state still has every
/// predicate that it had, in its place, and still joins the roster if it did.
pub proof fn lemma_filters_only_add(
    s: PbpState,
    text: Seq<char>,
    week: u16,
    end: u16,
    limit: u16,
)
    ensures
        s.extended_by(s.with_player(text)),
        s.extended_by(s.with_player_id(text)),
        s.extended_by(s.with_position(text)),
        s.extended_by(s.with_team(text)),
        s.extended_by(s.with_week(week)),
        s.extended_by(s.with_week_range(week, end)),
        s.extended_by(s.with_roster()),
        s.extended_by(s.with_limit(limit)),
{
}

/// A play-by-play query under construction.
pub struct PbpQuery {
    passing: Vec<String>,
    receiving: Vec<String>,
    rushing: Vec<String>,
    roster: RosterQuery,
    year: u16,
    limit: u16,
    join_roster: bool,
}

/// Builds the aggregate of one category: its columns from the table of
/// `year`, grouped by `group_key`, where every one of `predicates` holds.
fn aggregate(columns: &str, year: u16, predicates: &Vec<String>, group_key: &str) -> (q: Select)
    requires
        is_tight(columns@),
        is_tight(group_key@),
        predicates.len() > 0,
        all_tight(texts_of(predicates@)),
    ensures
        select_model(q) == (SelectModel {
            select: seq![columns@],
            from: seq![stat_table(year)],
            conditions: where_of(texts_of(predicates@)),
            group_by: seq![group_key@],
            ..empty_select()
        }),
{
    let mut table = String::from_str("pbp");
    push_decimal(&mut table, year);
    let condition = conjoin(predicates);
    proof {
        reveal_strlit("pbp");
        lemma_conjoined_tight(texts_of(predicates@));
    }
    let q = Select::new().select(columns).from(table.as_str()).where_clause(
        condition.as_str(),
    ).group_by(group_key);
    proof {
        assert(select_model(q).conditions =~= where_of(texts_of(predicates@)));
    }
    q
}

/// The predicates of a new aggregate: the one that leaves out the plays
/// without an acting player.
fn attributed_only(attributed: &str) -> (predicates: Vec<String>)
    requires
        is_tight(attributed@),
    ensures
        predicates.len() == 1,
        texts_of(predicates@) == seq![attributed@],
        all_tight(texts_of(predicates@)),
{
    let mut predicates: Vec<String> = Vec::new();
    predicates.push(String::from_str(attributed));
    proof {
        assert(texts_of(predicates@) =~= seq![attributed@]);
    }
    predicates
}

/// `predicates` with `clause` at their end.
fn with_clause(predicates: Vec<String>, clause: String) -> (longer: Vec<String>)
    requires
        is_tight(clause@),
        all_tight(texts_of(predicates@)),
    ensures
        longer.len() == predicates.len() + 1,
        texts_of(longer@) == texts_of(predicates@).push(clause@),
        all_tight(texts_of(longer@)),
{
    let mut longer = predicates;
    longer.push(clause);
    proof {
        assert(texts_of(longer@) =~= texts_of(predicates@).push(clause@));
    }
    longer
}

/// The text of [`coalesced`].
fn coalesce(field: &str) -> (column: String)
    requires
        field@.len() > 0,
        graphic(field@.last()),
    ensures
        column@ == coalesced(field@),
        is_tight(column@),
{
    let mut column = String::from_str("COALESCE(p.");
    column.append(field);
    column.append(", rx.");
    column.append(field);
    column.append(", r.");
    column.append(field);
    column.append(") AS ");
    column.append(field);
    proof {
        reveal_strlit("COALESCE(p.");
    }
    column
}

/// Builds the join of the three aggregates.
fn join_categories() -> (q: Select)
    ensures
        select_model(q) == joined_select(),
{
    proof {
        lemma_columns_tight();
        reveal_strlit("game_id");
        reveal_strlit("game_date");
        reveal_strlit("week");
        reveal_strlit("team");
        reveal_strlit("player_id");
        reveal_strlit("player_name");
        reveal_strlit("passing p");
        reveal_strlit("FULL JOIN receiving rx USING (player_id, game_id)");
        reveal_strlit("FULL JOIN rushing r USING (player_id, game_id)");
    }
    let game_id = coalesce("game_id");
    let game_date = coalesce("game_date");
    let week = coalesce("week");
    let team = coalesce("team");
    let player_id = coalesce("player_id");
    let player_name = coalesce("player_name");
    let q = Select::new().select(game_id.as_str()).select(game_date.as_str()).select(
        week.as_str(),
    ).select(team.as_str()).select(player_id.as_str()).select(player_name.as_str()).select(
        CATEGORY_METRICS,
    ).from("passing p").raw_after(
        SelectClause::From,
        "FULL JOIN receiving rx USING (player_id, game_id)",
    ).raw_after(SelectClause::From, "FULL JOIN rushing r USING (player_id, game_id)");
    proof {
        lemma_joined_columns_distinct();
        assert(select_model(q).raw_after =~= joined_select().raw_after);
    }
    q
}

impl PbpQuery {
    /// The state that this query stands for.
    pub closed spec fn view(&self) -> PbpState {
        PbpState {
            passing: texts_of(self.passing@),
            receiving: texts_of(self.receiving@),
            rushing: texts_of(self.rushing@),
            roster: self.roster@,
            join_roster: self.join_roster,
            limit: self.limit,
        }
    }

    #[verifier::type_invariant]
    spec fn inv(self) -> bool {
        &&& self.year == self.roster@.year
        &&& self.passing.len() > 0
        &&& self.receiving.len() > 0
        &&& self.rushing.len() > 0
        &&& all_tight(self@.passing)
        &&& all_tight(self@.receiving)
        &&& all_tight(self@.rushing)
    }

    /// The passing statistics of each player in each game of `year`.
    pub fn passing(year: u16) -> (q: Select)
        ensures
            select_model(q) == stat_select(
                StatCategory::Passing,
                year,
                seq![StatCategory::Passing.attributed()],
            ),
    {
        proof {
            reveal_strlit("passer_player_name IS NOT NULL");
        }
        let predicates = attributed_only("passer_player_name IS NOT NULL");
        Self::passing_where(year, &predicates)
    }

    /// The receiving statistics of each player in each game of `year`.
    pub fn receiving(year: u16) -> (q: Select)
        ensures
            select_model(q) == stat_select(
                StatCategory::Receiving,
                year,
                seq![StatCategory::Receiving.attributed()],
            ),
    {
        proof {
            reveal_strlit("receiver_player_name IS NOT NULL");
        }
        let predicates = attributed_only("receiver_player_name IS NOT NULL");
        Self::receiving_where(year, &predicates)
    }

    /// The rushing statistics of each player in each game of `year`.
    pub fn rushing(year: u16) -> (q: Select)
        ensures
            select_model(q) == stat_select(
                StatCategory::Rushing,
                year,
                seq![StatCategory::Rushing.attributed()],
            ),
    {
        proof {
            reveal_strlit("rusher_player_name IS NOT NULL");
        }
        let predicates = attributed_only("rusher_player_name IS NOT NULL");
        Self::rushing_where(year, &predicates)
    }

    /// The passing aggregate under `predicates`.
    fn passing_where(year: u16, predicates: &Vec<String>) -> (q: Select)
        requires
            predicates.len() > 0,
            all_tight(texts_of(predicates@)),
        ensures
            select_model(q) == stat_select(StatCategory::Passing, year, texts_of(predicates@)),
    {
        proof {
            lemma_columns_tight();
            reveal_strlit("game_id, posteam, passer_player_id, passer_player_name");
        }
        aggregate(
            PASSING_COLUMNS,
            year,
            predicates,
            "game_id, posteam, passer_player_id, passer_player_name",
        )
    }

    /// The receiving aggregate under `predicates`.
    fn receiving_where(year: u16, predicates: &Vec<String>) -> (q: Select)
        requires
            predicates.len() > 0,
            all_tight(texts_of(predicates@)),
        ensures
            select_model(q) == stat_select(StatCategory::Receiving, year, texts_of(predicates@)),
    {
        proof {
            lemma_columns_tight();
            reveal_strlit("game_id, posteam, receiver_player_id, receiver_player_name");
        }
        aggregate(
            RECEIVING_COLUMNS,
            year,
            predicates,
            "game_id, posteam, receiver_player_id, receiver_player_name",
        )
    }

    /// The rushing aggregate under `predicates`.
    fn rushing_where(year: u16, predicates: &Vec<String>) -> (q: Select)
        requires
            predicates.len() > 0,
            all_tight(texts_of(predicates@)),
        ensures
            select_model(q) == stat_select(StatCategory::Rushing, year, texts_of(predicates@)),
    {
        proof {
            lemma_columns_tight();
            reveal_strlit("game_id, posteam, rusher_player_id, rusher_player_name");
        }
        aggregate(
            RUSHING_COLUMNS,
            year,
            predicates,
            "game_id, posteam, rusher_player_id, rusher_player_name",
        )
    }

    /// A query on the plays of `year`, without filters.
    pub fn year(year: u16) -> (r: PbpQuery)
        ensures
            r@ == PbpState::initial(year),
    {
        proof {
            reveal_strlit("passer_player_name IS NOT NULL");
            reveal_strlit("receiver_player_name IS NOT NULL");
            reveal_strlit("rusher_player_name IS NOT NULL");
        }
        let passing = attributed_only("passer_player_name IS NOT NULL");
        let receiving = attributed_only("receiver_player_name IS NOT NULL");
        let rushing = attributed_only("rusher_player_name IS NOT NULL");
        let roster = RosterQuery::new(year);
        PbpQuery {
            passing,
            receiving,
            rushing,
            roster,
            year,
            limit: DEFAULT_LIMIT,
            join_roster: false,
        }
    }

    /// Keeps the players whose full name contains `player_name`, and joins
    /// the roster, where the names are.
    pub fn filter_player(self, player_name: &str) -> (r: PbpQuery)
        ensures
            r@ == self@.with_player(player_name@),
    {
        proof {
            use_type_invariant(&self);
        }
        let PbpQuery { passing, receiving, rushing, roster, year, limit, join_roster: _ } = self;
        let roster = roster.name_search(player_name);
        PbpQuery { passing, receiving, rushing, roster, year, limit, join_roster: true }
    }

    /// Keeps, in each aggregate, the plays of the player with this id.
    pub fn filter_player_id(self, player_id: &str) -> (r: PbpQuery)
        ensures
            r@ == self@.with_player_id(player_id@),
    {
        self.filter_passer_id(player_id).filter_rusher_id(player_id).filter_receiver_id(player_id)
    }

    /// Keeps the passes of the player with this id.
    pub fn filter_passer_id(self, player_id: &str) -> (r: PbpQuery)
        ensures
            r@ == self@.with_passer_id(player_id@),
    {
        proof {
            use_type_invariant(&self);
            reveal_strlit("passer_player_id");
        }
        let clause = quoted_match_clause("passer_player_id", player_id);
        let PbpQuery { passing, receiving, rushing, roster, year, limit, join_roster } = self;
        let passing = with_clause(passing, clause);
        PbpQuery { passing, receiving, rushing, roster, year, limit, join_roster }
    }

    /// Keeps the rushes of the player with this id.
    pub fn filter_rusher_id(self, player_id: &str) -> (r: PbpQuery)
        ensures
            r@ == self@.with_rusher_id(player_id@),
    {
        proof {
            use_type_invariant(&self);
            reveal_strlit("rusher_player_id");
        }
        let clause = quoted_match_clause("rusher_player_id", player_id);
        let PbpQuery { passing, receiving, rushing, roster, year, limit, join_roster } = self;
        let rushing = with_clause(rushing, clause);
        PbpQuery { passing, receiving, rushing, roster, year, limit, join_roster }
    }

    /// Keeps the receptions of the player with this id.
    pub fn filter_receiver_id(self, player_id: &str) -> (r: PbpQuery)
        ensures
            r@ == self@.with_receiver_id(player_id@),
    {
        proof {
            use_type_invariant(&self);
            reveal_strlit("receiver_player_id");
        }
        let clause = quoted_match_clause("receiver_player_id", player_id);
        let PbpQuery { passing, receiving, rushing, roster, year, limit, join_roster } = self;
        let receiving = with_clause(receiving, clause);
        PbpQuery { passing, receiving, rushing, roster, year, limit, join_roster }
    }

    /// Keeps the players of one position, given in any case, and joins the
    /// roster, where the positions are.
    pub fn filter_position(self, position: &str) -> (r: PbpQuery)
        ensures
            r@ == self@.with_position(position@),
    {
        proof {
            use_type_invariant(&self);
        }
        let PbpQuery { passing, receiving, rushing, roster, year, limit, join_roster: _ } = self;
        let roster = roster.position(position);
        PbpQuery { passing, receiving, rushing, roster, year, limit, join_roster: true }
    }

    /// Adds one predicate to each of the three aggregates.
    fn where_and_each(self, clause: &str) -> (r: PbpQuery)
        requires
            is_tight(clause@),
        ensures
            r@ == self@.with_stat_predicate(clause@),
    {
        proof {
            use_type_invariant(&self);
        }
        let PbpQuery { passing, receiving, rushing, roster, year, limit, join_roster } = self;
        let passing = with_clause(passing, String::from_str(clause));
        let receiving = with_clause(receiving, String::from_str(clause));
        let rushing = with_clause(rushing, String::from_str(clause));
        PbpQuery { passing, receiving, rushing, roster, year, limit, join_roster }
    }

    /// Keeps one week, in the roster and in each aggregate.
    pub fn filter_week(self, week: u16) -> (r: PbpQuery)
        ensures
            r@ == self@.with_week(week),
    {
        proof {
            use_type_invariant(&self);
        }
        let PbpQuery { passing, receiving, rushing, roster, year, limit, join_roster } = self;
        let roster = roster.single_week(Some(week));
        let clause = week_clause(week);
        PbpQuery {
            passing,
            receiving,
            rushing,
            roster,
            year,
            limit,
            join_roster,
        }.where_and_each(clause.as_str())
    }

    /// Keeps the weeks from `start` to `end`, both included, in the roster and
    /// in each aggregate. A range whose start lies after its end is written
    /// as it is given, and no row is in it.
    pub fn filter_week_range(self, start: u16, end: u16) -> (r: PbpQuery)
        ensures
            r@ == self@.with_week_range(start, end),
    {
        proof {
            use_type_invariant(&self);
        }
        let PbpQuery { passing, receiving, rushing, roster, year, limit, join_roster } = self;
        let roster = roster.week_range(start, end);
        let clause = week_range_clause(start, end);
        PbpQuery {
            passing,
            receiving,
            rushing,
            roster,
            year,
            limit,
            join_roster,
        }.where_and_each(clause.as_str())
    }

    /// Keeps one team, in the roster and in each aggregate.
    pub fn filter_team(self, team: &str) -> (r: PbpQuery)
        ensures
            r@ == self@.with_team(team@),
    {
        proof {
            use_type_invariant(&self);
            reveal_strlit("posteam");
        }
        let PbpQuery { passing, receiving, rushing, roster, year, limit, join_roster } = self;
        let roster = roster.team(team);
        let clause = quoted_match_clause("posteam", team);
        PbpQuery {
            passing,
            receiving,
            rushing,
            roster,
            year,
            limit,
            join_roster,
        }.where_and_each(clause.as_str())
    }

    /// Joins the roster, without a filter on it.
    pub fn join_roster(self) -> (r: PbpQuery)
        ensures
            r@ == self@.with_roster(),
    {
        proof {
            use_type_invariant(&self);
        }
        let PbpQuery { passing, receiving, rushing, roster, year, limit, join_roster: _ } = self;
        PbpQuery { passing, receiving, rushing, roster, year, limit, join_roster: true }
    }

    /// The text of the query: the three aggregates and their join as named
    /// subqueries, the roster and the join to it where it is joined, the order
    /// of the rows and the row limit.
    pub fn sql(self) -> (text: String)
        ensures
            text@ == select_text(self@.assembled()),
    {
        proof {
            use_type_invariant(&self);
            reveal_strlit("passing");
            reveal_strlit("receiving");
            reveal_strlit("rushing");
            reveal_strlit("pbpjoin");
            reveal_strlit("rosters");
            reveal_strlit("*");
            reveal_strlit(
                "game_date, passing_yards DESC NULLS LAST, receiving_yards DESC NULLS LAST, rushing_yards DESC NULLS LAST",
            );
            reveal_strlit(
                "ROUND(arrow_cast(pbpjoin.game_date::DATE - rosters.birth_date::DATE, 'Int64') / (60*60*24*365.25), 1) AS age",
            );
            reveal_strlit(
                "rosters ON pbpjoin.player_id = rosters.id AND pbpjoin.week = rosters.week",
            );
            reveal_strlit("passing p");
            reveal_strlit("pbp");
            lemma_decimal_tight(self@.limit as nat);
            lemma_conjoined_tight(self@.passing);
            lemma_conjoined_tight(self@.receiving);
            lemma_conjoined_tight(self@.rushing);
        }
        let ghost state = self@;
        let PbpQuery { passing, receiving, rushing, roster, year, limit, join_roster } = self;
        let passing = Self::passing_where(year, &passing);
        let receiving = Self::receiving_where(year, &receiving);
        let rushing = Self::rushing_where(year, &rushing);
        let pbp_join = join_categories();
        let join = with_select(Select::new(), "passing", passing);
        let join = with_select(join, "receiving", receiving);
        let join = with_select(join, "rushing", rushing);
        let join = with_select(join, "pbpjoin", pbp_join);
        let mut join = join.select("*").from("pbpjoin").order_by(ROW_ORDER);
        if join_roster {
            join = with_select(join, "rosters", roster.query()).select(AGE_COLUMN).inner_join(
                ROSTER_MATCH,
            );
        }
        let mut cap = String::new();
        push_decimal(&mut cap, limit);
        let join = join.limit(cap.as_str());
        proof {
            let m = select_model(join);
            let goal = state.assembled();
            assert(cap@ =~= decimal(limit as nat));
            assert(m.with =~= goal.with);
            assert(m.select =~= goal.select);
            assert(m.from =~= goal.from);
            assert(m.join =~= goal.join);
            assert(m.order_by =~= goal.order_by);
        }
        join.as_string()
    }

    /// Sets the number of rows that the query returns at most.
    pub fn limit(self, limit: u16) -> (r: PbpQuery)
        ensures
            r@ == self@.with_limit(limit),
    {
        proof {
            use_type_invariant(&self);
        }
        let PbpQuery { passing, receiving, rushing, roster, year, limit: _, join_roster } = self;
        PbpQuery { passing, receiving, rushing, roster, year, limit, join_roster }
    }
}

} // verus!
