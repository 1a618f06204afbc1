use fff::pbp::PbpQuery;

const SEP: &str = ",\n                ";

fn columns(items: &[&str]) -> String {
    items.join(SEP)
}

fn passing(year: &str, predicates: &str) -> String {
    let select = columns(&[
        "game_id",
        "MIN(game_date) as game_date",
        "MIN(week) as week",
        "posteam as team",
        "passer_player_id as player_id",
        "passer_player_name as player_name",
        "SUM(passing_yards) as passing_yards",
        "SUM(pass_touchdown) as pass_touchdowns",
        "SUM(interception) as interceptions",
        "SUM(CASE WHEN passing_yards > 50 THEN pass_touchdown ELSE 0 END) as passing_50yd_td",
    ]);
    format!(
        "passing AS (SELECT {select} FROM pbp{year} WHERE passer_player_name IS NOT NULL{predicates} GROUP BY game_id, posteam, passer_player_id, passer_player_name)"
    )
}

fn receiving(year: &str, predicates: &str) -> String {
    let select = columns(&[
        "game_id",
        "MIN(game_date) as game_date",
        "MIN(week) as week",
        "posteam as team",
        "receiver_player_id as player_id",
        "receiver_player_name as player_name",
        "SUM(complete_pass) as receptions",
        "SUM(receiving_yards) as receiving_yards",
        "SUM(pass_touchdown) as receiving_touchdowns",
        "SUM(CASE WHEN two_point_conv_result = 'success' THEN 1 ELSE 0 END) as receiving_2pt_conv",
        "SUM(CASE WHEN receiving_yards > 50 THEN pass_touchdown ELSE 0 END) as receiving_50yd_td",
    ]);
    format!(
        "receiving AS (SELECT {select} FROM pbp{year} WHERE receiver_player_name IS NOT NULL{predicates} GROUP BY game_id, posteam, receiver_player_id, receiver_player_name)"
    )
}

fn rushing(year: &str, predicates: &str) -> String {
    let select = columns(&[
        "game_id",
        "MIN(game_date) as game_date",
        "MIN(week) as week",
        "posteam as team",
        "rusher_player_id as player_id",
        "rusher_player_name as player_name",
        "SUM(rushing_yards) as rushing_yards",
        "SUM(rush_touchdown) as rush_touchdowns",
        "SUM(CASE WHEN two_point_conv_result = 'success' THEN 1 ELSE 0 END) as rushing_2pt_conv",
        "SUM(CASE WHEN rushing_yards > 50 THEN rush_touchdown ELSE 0 END) as rushing_50yd_td",
    ]);
    format!(
        "rushing AS (SELECT {select} FROM pbp{year} WHERE rusher_player_name IS NOT NULL{predicates} GROUP BY game_id, posteam, rusher_player_id, rusher_player_name)"
    )
}

fn pbpjoin() -> String {
    let metrics = columns(&[
        "p.passing_yards",
        "p.pass_touchdowns",
        "p.interceptions",
        "p.passing_50yd_td",
        "rx.receptions",
        "rx.receiving_yards",
        "rx.receiving_touchdowns",
        "rx.receiving_2pt_conv",
        "rx.receiving_50yd_td",
        "r.rushing_yards",
        "r.rush_touchdowns",
        "r.rushing_2pt_conv",
        "r.rushing_50yd_td",
    ]);
    format!(
        "pbpjoin AS (SELECT COALESCE(p.game_id, rx.game_id, r.game_id) AS game_id, COALESCE(p.game_date, rx.game_date, r.game_date) AS game_date, COALESCE(p.week, rx.week, r.week) AS week, COALESCE(p.team, rx.team, r.team) AS team, COALESCE(p.player_id, rx.player_id, r.player_id) AS player_id, COALESCE(p.player_name, rx.player_name, r.player_name) AS player_name, {metrics} FROM passing p FULL JOIN receiving rx USING (player_id, game_id) FULL JOIN rushing r USING (player_id, game_id))"
    )
}

fn stats(year: &str, predicates: &str) -> String {
    format!(
        "WITH {}, {}, {}, {}",
        passing(year, predicates),
        receiving(year, predicates),
        rushing(year, predicates),
        pbpjoin()
    )
}

const ROSTER_COLUMNS: &str =
    "gsis_id AS id, full_name, team, position, birth_date, height, weight, week, status";
const ORDER: &str = "ORDER BY game_date, passing_yards DESC NULLS LAST, receiving_yards DESC NULLS LAST, rushing_yards DESC NULLS LAST";
const AGE: &str = "ROUND(arrow_cast(pbpjoin.game_date::DATE - rosters.birth_date::DATE, 'Int64') / (60*60*24*365.25), 1) AS age";
const ROSTER_JOIN: &str =
    "INNER JOIN rosters ON pbpjoin.player_id = rosters.id AND pbpjoin.week = rosters.week";

fn plain(year: &str, predicates: &str, limit: &str) -> String {
    format!("{} SELECT * FROM pbpjoin {ORDER} LIMIT {limit}", stats(year, predicates))
}

fn joined(year: &str, predicates: &str, roster: &str, limit: &str) -> String {
    format!(
        "{}, rosters AS (SELECT {ROSTER_COLUMNS} FROM roster{year} r{roster}) SELECT *, {AGE} FROM pbpjoin {ROSTER_JOIN} {ORDER} LIMIT {limit}",
        stats(year, predicates)
    )
}

fn count(text: &str, part: &str) -> usize {
    text.matches(part).count()
}

#[test]
fn unfiltered_query_is_the_join_of_the_three_aggregates() {
    assert_eq!(PbpQuery::year(2024).sql(), plain("2024", "", "500"));
}

#[test]
fn unfiltered_query_has_three_aggregates_and_no_roster_in_every_season() {
    for year in [0u16, 1, 1999, 2023, 2024, 65535] {
        let text = PbpQuery::year(year).sql();
        assert!(text.starts_with("WITH passing AS (SELECT "));
        assert_eq!(count(&text, " AS (SELECT "), 4);
        assert_eq!(count(&text, "passing AS (SELECT "), 1);
        assert_eq!(count(&text, ", receiving AS (SELECT "), 1);
        assert_eq!(count(&text, ", rushing AS (SELECT "), 1);
        assert_eq!(count(&text, ", pbpjoin AS (SELECT "), 1);
        assert_eq!(count(&text, &format!(" FROM pbp{year} WHERE ")), 3);
        assert!(!text.contains("roster"));
        assert!(!text.contains("INNER JOIN"));
        assert!(!text.contains(" AS age"));
        assert_eq!(text, plain(&year.to_string(), "", "500"));
    }
}

#[test]
fn the_aggregates_alone() {
    assert_eq!(
        format!("passing AS ({})", PbpQuery::passing(2024).as_string()),
        passing("2024", "")
    );
    assert_eq!(
        format!("receiving AS ({})", PbpQuery::receiving(2024).as_string()),
        receiving("2024", "")
    );
    assert_eq!(
        format!("rushing AS ({})", PbpQuery::rushing(2024).as_string()),
        rushing("2024", "")
    );
}

#[test]
fn filter_player_searches_the_roster_and_joins_it() {
    let text = PbpQuery::year(2024).filter_player("O'Brien").sql();
    assert!(text.contains("full_name ILIKE '%O''Brien%'"));
    assert_eq!(
        text,
        joined("2024", "", " WHERE full_name ILIKE '%O''Brien%'", "500")
    );
}

#[test]
fn filter_player_leaves_the_aggregates_alone() {
    let text = PbpQuery::year(2024).filter_player("Mahomes").sql();
    assert!(text.starts_with(&stats("2024", "")));
    assert!(!text.contains("passer_player_name = "));
}

#[test]
fn filter_player_id_matches_the_id_column_of_each_category() {
    let text = PbpQuery::year(2024).filter_player_id("00-0033873").sql();
    let expected = format!(
        "WITH {}, {}, {}, {} SELECT * FROM pbpjoin {ORDER} LIMIT 500",
        passing("2024", " AND passer_player_id = '00-0033873'"),
        receiving("2024", " AND receiver_player_id = '00-0033873'"),
        rushing("2024", " AND rusher_player_id = '00-0033873'"),
        pbpjoin()
    );
    assert_eq!(text, expected);
    assert!(!text.contains("rosters"));
}

#[test]
fn the_id_filters_of_one_category() {
    let passer = PbpQuery::year(2024).filter_passer_id("a'b").sql();
    assert_eq!(
        passer,
        format!(
            "WITH {}, {}, {}, {} SELECT * FROM pbpjoin {ORDER} LIMIT 500",
            passing("2024", " AND passer_player_id = 'a''b'"),
            receiving("2024", ""),
            rushing("2024", ""),
            pbpjoin()
        )
    );
    let rusher = PbpQuery::year(2024).filter_rusher_id("x").sql();
    assert_eq!(
        rusher,
        format!(
            "WITH {}, {}, {}, {} SELECT * FROM pbpjoin {ORDER} LIMIT 500",
            passing("2024", ""),
            receiving("2024", ""),
            rushing("2024", " AND rusher_player_id = 'x'"),
            pbpjoin()
        )
    );
    let receiver = PbpQuery::year(2024).filter_receiver_id("x").sql();
    assert_eq!(
        receiver,
        format!(
            "WITH {}, {}, {}, {} SELECT * FROM pbpjoin {ORDER} LIMIT 500",
            passing("2024", ""),
            receiving("2024", " AND receiver_player_id = 'x'"),
            rushing("2024", ""),
            pbpjoin()
        )
    );
}

#[test]
fn filter_position_joins_the_roster() {
    assert_eq!(
        PbpQuery::year(2024).filter_position("qb").sql(),
        joined("2024", "", " WHERE position = 'QB'", "500")
    );
}

#[test]
fn filter_week_is_in_every_aggregate_and_in_the_roster() {
    let text = PbpQuery::year(2024).filter_week(5).sql();
    assert_eq!(count(&text, " AND week = 5 GROUP BY "), 3);
    assert_eq!(text, plain("2024", " AND week = 5", "500"));
    let with_roster = PbpQuery::year(2024).filter_week(5).join_roster().sql();
    assert_eq!(
        with_roster,
        joined("2024", " AND week = 5", " WHERE week = 5", "500")
    );
}

#[test]
fn filter_week_range_is_in_every_aggregate_and_in_the_roster() {
    let text = PbpQuery::year(2024).filter_week_range(3, 5).sql();
    assert_eq!(count(&text, " AND week BETWEEN 3 AND 5 GROUP BY "), 3);
    assert_eq!(text, plain("2024", " AND week BETWEEN 3 AND 5", "500"));
    let with_roster = PbpQuery::year(2024).join_roster().filter_week_range(3, 5).sql();
    assert_eq!(
        with_roster,
        joined(
            "2024",
            " AND week BETWEEN 3 AND 5",
            " WHERE week BETWEEN 3 AND 5",
            "500"
        )
    );
}

#[test]
fn a_range_that_holds_no_week_is_written_as_given() {
    assert_eq!(
        PbpQuery::year(2024).filter_week_range(9, 2).sql(),
        plain("2024", " AND week BETWEEN 9 AND 2", "500")
    );
}

#[test]
fn filter_team_twice_keeps_both_predicates() {
    let text = PbpQuery::year(2024).filter_team("KC").filter_team("SF").sql();
    assert_eq!(count(&text, " AND posteam = 'KC' AND posteam = 'SF' GROUP BY "), 3);
    assert_eq!(
        text,
        plain("2024", " AND posteam = 'KC' AND posteam = 'SF'", "500")
    );
    let with_roster = PbpQuery::year(2024).filter_team("KC").filter_team("SF").join_roster().sql();
    assert_eq!(
        with_roster,
        joined(
            "2024",
            " AND posteam = 'KC' AND posteam = 'SF'",
            " WHERE team = 'KC' AND team = 'SF'",
            "500"
        )
    );
}

#[test]
fn filter_team_with_the_same_value_is_added_again() {
    let text = PbpQuery::year(2024).filter_team("KC").filter_team("KC").sql();
    assert_eq!(count(&text, " AND posteam = 'KC' AND posteam = 'KC' GROUP BY "), 3);
    assert_eq!(text, plain("2024", " AND posteam = 'KC' AND posteam = 'KC'", "500"));
    assert_eq!(
        PbpQuery::year(2024).filter_team("KC").filter_team("KC\n").sql(),
        plain("2024", " AND posteam = 'KC' AND posteam = 'KC'", "500")
    );
    assert_eq!(
        PbpQuery::year(2024).filter_team("KC").filter_team("KC").join_roster().sql(),
        joined(
            "2024",
            " AND posteam = 'KC' AND posteam = 'KC'",
            " WHERE team = 'KC' AND team = 'KC'",
            "500"
        )
    );
}

#[test]
fn every_repeated_filter_is_added_again_to_the_aggregates() {
    assert_eq!(
        PbpQuery::year(2024).filter_week(5).filter_week(5).sql(),
        plain("2024", " AND week = 5 AND week = 5", "500")
    );
    assert_eq!(
        PbpQuery::year(2024).filter_week_range(3, 5).filter_week_range(3, 5).sql(),
        plain("2024", " AND week BETWEEN 3 AND 5 AND week BETWEEN 3 AND 5", "500")
    );
    let ids = PbpQuery::year(2024).filter_player_id("x").filter_player_id("x").sql();
    assert_eq!(
        ids,
        format!(
            "WITH {}, {}, {}, {} SELECT * FROM pbpjoin {ORDER} LIMIT 500",
            passing("2024", " AND passer_player_id = 'x' AND passer_player_id = 'x'"),
            receiving("2024", " AND receiver_player_id = 'x' AND receiver_player_id = 'x'"),
            rushing("2024", " AND rusher_player_id = 'x' AND rusher_player_id = 'x'"),
            pbpjoin()
        )
    );
    assert_eq!(
        PbpQuery::year(2024).filter_player("Al").filter_player("Al").filter_position("qb").filter_position("qb").sql(),
        joined(
            "2024",
            "",
            " WHERE full_name ILIKE '%Al%' AND full_name ILIKE '%Al%' AND position = 'QB' AND position = 'QB'",
            "500"
        )
    );
}

#[test]
fn a_filter_that_repeats_the_first_predicate_of_an_aggregate_is_added() {
    let text = PbpQuery::year(2024)
        .filter_week(1)
        .filter_team("KC")
        .filter_week(1)
        .sql();
    assert_eq!(
        text,
        plain("2024", " AND week = 1 AND posteam = 'KC' AND week = 1", "500")
    );
}

#[test]
fn filter_team_is_sanitized() {
    assert_eq!(
        PbpQuery::year(2024).filter_team("K'C\\").sql(),
        plain("2024", " AND posteam = 'K''C\\\\'", "500")
    );
}

#[test]
fn the_limit_is_500_unless_it_is_set() {
    assert!(PbpQuery::year(2024).sql().ends_with(" LIMIT 500"));
    assert!(PbpQuery::year(2024).limit(10).sql().ends_with(" LIMIT 10"));
    assert!(PbpQuery::year(2024).limit(0).sql().ends_with(" LIMIT 0"));
    assert!(PbpQuery::year(2024).limit(65535).sql().ends_with(" LIMIT 65535"));
    assert!(PbpQuery::year(2024).limit(10).limit(20).sql().ends_with(" LIMIT 20"));
    assert_eq!(PbpQuery::year(2024).limit(10).sql(), plain("2024", "", "10"));
}

#[test]
fn join_roster_alone_adds_the_roster_the_join_and_the_age() {
    let text = PbpQuery::year(2024).join_roster().sql();
    assert!(text.contains(&format!(", rosters AS (SELECT {ROSTER_COLUMNS} FROM roster2024 r)")));
    assert!(text.contains(
        " INNER JOIN rosters ON pbpjoin.player_id = rosters.id AND pbpjoin.week = rosters.week "
    ));
    assert!(text.contains(&format!(" SELECT *, {AGE} FROM pbpjoin ")));
    assert_eq!(text, joined("2024", "", "", "500"));
}

#[test]
fn every_filter_together() {
    let text = PbpQuery::year(2023)
        .join_roster()
        .filter_player("O'Brien")
        .filter_team("KC")
        .filter_position("qb")
        .filter_week(5)
        .filter_week_range(3, 5)
        .filter_player_id("00-1")
        .limit(10)
        .sql();
    let shared = " AND posteam = 'KC' AND week = 5 AND week BETWEEN 3 AND 5";
    let expected = format!(
        "WITH {}, {}, {}, {}, rosters AS (SELECT {ROSTER_COLUMNS} FROM roster2023 r WHERE full_name ILIKE '%O''Brien%' AND team = 'KC' AND position = 'QB' AND week = 5 AND week BETWEEN 3 AND 5) SELECT *, {AGE} FROM pbpjoin {ROSTER_JOIN} {ORDER} LIMIT 10",
        passing("2023", &format!("{shared} AND passer_player_id = '00-1'")),
        receiving("2023", &format!("{shared} AND receiver_player_id = '00-1'")),
        rushing("2023", &format!("{shared} AND rusher_player_id = '00-1'")),
        pbpjoin()
    );
    assert_eq!(text, expected);
}

#[test]
fn equal_filters_give_equal_text() {
    let one = PbpQuery::year(2024).filter_team("KC").filter_week(3).join_roster().limit(7).sql();
    let other = PbpQuery::year(2024).filter_team("KC").filter_week(3).join_roster().limit(7).sql();
    assert_eq!(one, other);
}
