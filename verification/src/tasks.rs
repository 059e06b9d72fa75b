//! The decisions of the background tasks: the debounced search and the
//! look at the followed channels.

use vstd::prelude::*;
use crate::notify::live_logins;
use crate::twitch::{merge_live_status, texts, views, with_live, Channel, ChannelView};

verus! {

/// How long a search waits, in milliseconds, before it asks: a newer edit
/// of the query in that time replaces it.
pub const SEARCH_DELAY_MS: u64 = 280;

/// How many channels a search asks for.
pub const SEARCH_RESULTS: u32 = 20;

/// Where a search stands: just asked for, its wait over, or its answer in
/// (well or not).
#[derive(Debug, Clone, Copy, PartialEq, Eq, Structural)]
pub enum SearchStage {
    Start,
    AfterWait,
    AfterSearch(bool),
}

/// What a search does next.
#[derive(Debug, Clone, Copy, PartialEq, Eq, Structural)]
pub enum SearchAction {
    /// Answer at once with no results (the query is empty).
    AnswerEmpty,
    /// Wait `SEARCH_DELAY_MS` first.
    Wait,
    /// Ask the API.
    Search,
    /// Hand the results over.
    Deliver,
    /// Report the error.
    Fail,
    /// Stop without a word: a newer search replaced this one.
    Discard,
}

/// The next step of the search numbered `my_seq` for a query (empty or
/// not) when the latest search is `current_seq`: an empty query is answered
/// at once with no results; otherwise the search waits, asks unless a newer
/// one came meanwhile, and hands its results over unless a newer one came
/// meanwhile. A failed search is reported in any case.
pub open spec fn search_step_spec(stage: SearchStage, query_empty: bool, my_seq: u64, current_seq: u64) -> SearchAction {
    match stage {
        SearchStage::Start => if query_empty {
            SearchAction::AnswerEmpty
        } else {
            SearchAction::Wait
        },
        SearchStage::AfterWait => if my_seq != current_seq {
            SearchAction::Discard
        } else {
            SearchAction::Search
        },
        SearchStage::AfterSearch(ok) => if !ok {
            SearchAction::Fail
        } else if my_seq != current_seq {
            SearchAction::Discard
        } else {
            SearchAction::Deliver
        },
    }
}

/// The next step of a search (see `search_step_spec`).
pub fn search_step(stage: SearchStage, query_empty: bool, my_seq: u64, current_seq: u64) -> (res: SearchAction)
    ensures
        res == search_step_spec(stage, query_empty, my_seq, current_seq),
{
    match stage {
        SearchStage::Start => if query_empty {
            SearchAction::AnswerEmpty
        } else {
            SearchAction::Wait
        },
        SearchStage::AfterWait => if my_seq != current_seq {
            SearchAction::Discard
        } else {
            SearchAction::Search
        },
        SearchStage::AfterSearch(ok) => if !ok {
            SearchAction::Fail
        } else if my_seq != current_seq {
            SearchAction::Discard
        } else {
            SearchAction::Deliver
        },
    }
}

/// What the user is told when a search failed.
pub fn search_error(reason: &str) -> (res: String)
    ensures
        res@ == "Search error: "@ + reason@,
{
    String::from_str("Search error: ").concat(reason)
}

/// The next step of the look at the followed channels.
#[derive(Debug)]
pub enum FollowedStep {
    /// Fetch the channels this user follows.
    FetchFollows { user_id: String },
    /// Look which of these logins are live.
    FetchLive { logins: Vec<String> },
    /// Hand the followed channels over as they are.
    Deliver,
    /// Report the error and stop.
    Fail { error: String },
}

/// What a step holds, as text.
pub enum FollowedStepView {
    FetchFollows { user_id: Seq<char> },
    FetchLive { logins: Seq<Seq<char>> },
    Deliver,
    Fail { error: Seq<char> },
}

impl View for FollowedStep {
    type V = FollowedStepView;

    open spec fn view(&self) -> FollowedStepView {
        match self {
            FollowedStep::FetchFollows { user_id } => FollowedStepView::FetchFollows { user_id: user_id@ },
            FollowedStep::FetchLive { logins } => FollowedStepView::FetchLive { logins: texts(logins@) },
            FollowedStep::Deliver => FollowedStepView::Deliver,
            FollowedStep::Fail { error } => FollowedStepView::Fail { error: error@ },
        }
    }
}

/// After asking who the token belongs to: fetch that user's follows, or
/// report that the user could not be told.
pub fn followed_after_user(user: Result<String, String>) -> (res: FollowedStep)
    ensures
        user matches Ok(id) ==> res@ == (FollowedStepView::FetchFollows { user_id: id@ }),
        user matches Err(e) ==> res@ == (FollowedStepView::Fail { error: "User info error: "@ + e@ }),
{
    match user {
        Ok(id) => FollowedStep::FetchFollows { user_id: id },
        Err(e) => FollowedStep::Fail { error: String::from_str("User info error: ").concat(e.as_str()) },
    }
}

/// After fetching the follows: report an error; hand an empty list over as
/// it is; otherwise look which of the followed logins are live.
pub fn followed_after_follows(follows: &Result<Vec<Channel>, String>) -> (res: FollowedStep)
    ensures
        match follows {
            Err(e) => res@ == (FollowedStepView::Fail { error: "Followed error: "@ + e@ }),
            Ok(chs) => if chs@.len() == 0 {
                res@ == FollowedStepView::Deliver
            } else {
                res@ == (FollowedStepView::FetchLive { logins: views(chs@).map_values(|c: ChannelView| c.name) })
            },
        },
{
    match follows {
        Ok(chs) => if chs.len() == 0 {
            FollowedStep::Deliver
        } else {
            let logins = live_logins(chs);
            assert(views(chs@).map_values(|c: ChannelView| c.name) =~= chs@.map_values(|c: Channel| c@.name));
            FollowedStep::FetchLive { logins }
        },
        Err(e) => FollowedStep::Fail { error: String::from_str("Followed error: ").concat(e.as_str()) },
    }
}

/// After looking which followed channels are live: the followed channels
/// with the live ones marked (see `merge_live_status`); when the look
/// failed, the channels as they were, and the error to report first.
pub fn followed_after_live(followed: Vec<Channel>, live: Result<Vec<Channel>, String>) -> (res: (Vec<Channel>, Option<String>))
    ensures
        live matches Ok(l) ==> views(res.0@) == views(followed@).map_values(|c: ChannelView| with_live(c, views(l@)))
            && res.1.is_none(),
        live matches Err(e) ==> res.0@ == followed@ && res.1.is_some() && res.1.unwrap()@
            == "Followed live check: "@ + e@,
{
    match live {
        Ok(l) => (merge_live_status(followed, &l), None),
        Err(e) => (followed, Some(String::from_str("Followed live check: ").concat(e.as_str()))),
    }
}

} // verus!
