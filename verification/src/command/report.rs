//! Reports and trends.

use crate::command::{asks, Call};
use crate::json::{no_members, set_member, Doc, Json};
use vstd::prelude::*;

verus! {

/// Nothing to say.
#[derive(Debug, PartialEq, Eq)]
pub struct GenerateReportsArgs {}

/// Has the server generate today's reports, unless it has them.
pub fn generate_reports(_args: &GenerateReportsArgs) -> (call: Call)
    ensures
        asks(
            call,
            "generate_reports"@,
            Map::empty(),
        ),
{
    let members = no_members();
    Call { method: "generate_reports".to_owned(), params: Json::Object(members) }
}

/// A period, by ISO dates.
#[derive(Debug, PartialEq, Eq)]
pub struct GetTrendingCountriesArgs {
    pub period_start: String,
    pub period_end: String,
}

/// Asks which countries were trending in a period.
pub fn get_trending_countries(args: &GetTrendingCountriesArgs) -> (call: Call)
    ensures
        asks(
            call,
            "get_trending_countries"@,
            Map::empty()
                .insert("period_start"@, Doc::Text(args.period_start@))
                .insert("period_end"@, Doc::Text(args.period_end@)),
        ),
{
    let mut members = no_members();
    set_member(&mut members, "period_start", Json::text(args.period_start.as_str()));
    set_member(&mut members, "period_end", Json::text(args.period_end.as_str()));
    Call { method: "get_trending_countries".to_owned(), params: Json::Object(members) }
}

/// A period, by ISO dates.
#[derive(Debug, PartialEq, Eq)]
pub struct GetTrendingCommunitiesArgs {
    pub period_start: String,
    pub period_end: String,
}

/// Asks which communities were trending in a period.
pub fn get_trending_communities(args: &GetTrendingCommunitiesArgs) -> (call: Call)
    ensures
        asks(
            call,
            "get_trending_communities"@,
            Map::empty()
                .insert("period_start"@, Doc::Text(args.period_start@))
                .insert("period_end"@, Doc::Text(args.period_end@)),
        ),
{
    let mut members = no_members();
    set_member(&mut members, "period_start", Json::text(args.period_start.as_str()));
    set_member(&mut members, "period_end", Json::text(args.period_end.as_str()));
    Call { method: "get_trending_communities".to_owned(), params: Json::Object(members) }
}

/// A period, by ISO dates.
#[derive(Debug, PartialEq, Eq)]
pub struct GetMostCommentedCountriesArgs {
    pub period_start: String,
    pub period_end: String,
}

/// Asks which countries had the most comments in a period.
pub fn get_most_commented_countries(args: &GetMostCommentedCountriesArgs) -> (call: Call)
    ensures
        asks(
            call,
            "get_most_commented_countries"@,
            Map::empty()
                .insert("period_start"@, Doc::Text(args.period_start@))
                .insert("period_end"@, Doc::Text(args.period_end@)),
        ),
{
    let mut members = no_members();
    set_member(&mut members, "period_start", Json::text(args.period_start.as_str()));
    set_member(&mut members, "period_end", Json::text(args.period_end.as_str()));
    Call { method: "get_most_commented_countries".to_owned(), params: Json::Object(members) }
}

} // verus!
