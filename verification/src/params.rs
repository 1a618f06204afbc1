//! The parameters of a request, and the query that each kind of request asks
//! for.

use crate::pbp::{PbpQuery, PbpState};
use crate::rosters::{roster_select, RosterQuery, RosterState};
use crate::select::select_text;
use crate::weeks::Weeks;
use vstd::prelude::*;

verus! {

/// The season of a request that names none.
pub const DEFAULT_YEAR: u16 = 2024;

/// The season that a request asks for.
pub open spec fn year_or_default(year: Option<u16>) -> u16 {
    match year {
        Some(year) => year,
        None => DEFAULT_YEAR,
    }
}

impl PbpState {
    /// This state, filtered by the player's name if there is one.
    pub open spec fn with_player_if(self, player: Option<String>) -> PbpState {
        match player {
            Some(name) => self.with_player(name@),
            None => self,
        }
    }

    /// This state, filtered by team if there is one.
    pub open spec fn with_team_if(self, team: Option<String>) -> PbpState {
        match team {
            Some(team) => self.with_team(team@),
            None => self,
        }
    }

    /// This state, filtered by position if there is one.
    pub open spec fn with_position_if(self, position: Option<String>) -> PbpState {
        match position {
            Some(position) => self.with_position(position@),
            None => self,
        }
    }

    /// This state, filtered to the weeks if there are any.
    pub open spec fn with_weeks_if(self, weeks: Option<Weeks>) -> PbpState {
        match weeks {
            Some(Weeks::Week(week)) => self.with_week(week),
            Some(Weeks::WeekRange(start, end)) => self.with_week_range(start, end),
            None => self,
        }
    }
}

/// Applies the filters that are there, in the order player, team, position,
/// weeks.
fn apply_filters(
    query: PbpQuery,
    player: &Option<String>,
    team: &Option<String>,
    position: &Option<String>,
    weeks: Option<Weeks>,
) -> (r: PbpQuery)
    ensures
        r@ == query@.with_player_if(*player).with_team_if(*team).with_position_if(
            *position,
        ).with_weeks_if(weeks),
{
    let mut query = query;
    if let Some(name) = player {
        query = query.filter_player(name.as_str());
    }
    if let Some(team) = team {
        query = query.filter_team(team.as_str());
    }
    if let Some(position) = position {
        query = query.filter_position(position.as_str());
    }
    match weeks {
        Some(Weeks::Week(week)) => {
            query = query.filter_week(week);
        },
        Some(Weeks::WeekRange(start, end)) => {
            query = query.filter_week_range(start, end);
        },
        None => {},
    }
    query
}

/// A search for players by a part of their name.
pub struct SearchPlayersParams {
    pub search: String,
    pub year: Option<u16>,
    pub week: Option<u16>,
}

impl SearchPlayersParams {
    /// The roster query that the search asks for: the names that contain the
    /// text, in the given week or else in each player's last week.
    pub open spec fn state(self) -> RosterState {
        RosterState::initial(year_or_default(self.year)).with_name_search(
            self.search@,
        ).with_single_week(self.week)
    }

    /// The text of the query.
    pub fn make_query(&self) -> (text: String)
        ensures
            text@ == select_text(roster_select(self.state())),
    {
        let year = match self.year {
            Some(year) => year,
            None => DEFAULT_YEAR,
        };
        RosterQuery::new(year).name_search(self.search.as_str()).single_week(self.week).sql()
    }
}

/// A request for statistics, as the service takes it.
pub struct GetStatsParams {
    pub year: Option<u16>,
    pub player: Option<String>,
    pub position: Option<String>,
    pub weeks: Option<Weeks>,
    pub team: Option<String>,
}

impl GetStatsParams {
    /// The query that the request asks for. The roster is always joined, so
    /// that every row has the player's age.
    pub open spec fn state(self) -> PbpState {
        PbpState::initial(year_or_default(self.year)).with_roster().with_player_if(
            self.player,
        ).with_team_if(self.team).with_position_if(self.position).with_weeks_if(self.weeks)
    }

    /// The text of the query.
    pub fn make_query(&self) -> (text: String)
        ensures
            text@ == select_text(self.state().assembled()),
    {
        let year = match self.year {
            Some(year) => year,
            None => DEFAULT_YEAR,
        };
        let query = PbpQuery::year(year).join_roster();
        apply_filters(query, &self.player, &self.team, &self.position, self.weeks).sql()
    }
}

/// A request for statistics, as the command line takes it.
pub struct StatsArgs {
    pub year: u16,
    pub player: Option<String>,
    pub weeks: Option<Weeks>,
    pub team: Option<String>,
}

impl StatsArgs {
    /// The query that the arguments ask for. The roster is joined only where
    /// the name of a player is given.
    pub open spec fn state(self) -> PbpState {
        PbpState::initial(self.year).with_player_if(self.player).with_team_if(
            self.team,
        ).with_weeks_if(self.weeks)
    }

    /// The text of the query.
    pub fn make_query(&self) -> (text: String)
        ensures
            text@ == select_text(self.state().assembled()),
    {
        let query = PbpQuery::year(self.year);
        apply_filters(query, &self.player, &self.team, &None, self.weeks).sql()
    }
}

} // verus!
