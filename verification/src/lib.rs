//! Builds the text of the queries that ask a columnar store for football
//! statistics: play-by-play statistics of one season, aggregated by player and
//! game for passing, receiving and rushing, and the roster of the season.
//!
//! A query is built from typed filters. [`pbp::PbpQuery`] and
//! [`rosters::RosterQuery`] each stand for a state, [`pbp::PbpState`] and
//! [`rosters::RosterState`], which says which predicates the query has; every
//! filter is specified as a step from state to state, and the text of a query
//! is the rendering of the statement that its state describes. A filter
//! always adds its predicate, also where the same filter was applied before.
//! Free text is put between single quotes only after
//! [`sanitize::safe_spice`] has escaped it.
//!
//! The statements are built and rendered by `sql_query_builder`. What is
//! taken on trust of it is written down in [`select`].

pub mod error;
pub mod params;
pub mod pbp;
pub mod predicates;
pub mod records;
pub mod relay;
pub mod rosters;
pub mod sanitize;
pub mod select;
pub mod text;
pub mod weeks;
