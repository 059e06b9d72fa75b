//! What the Twitch service tells about channels, categories, videos and chat.

pub mod api;
pub mod auth;

use vstd::prelude::*;
use crate::text::{copy_opt_string, copy_strings, same_text};

verus! {

/// A channel, live or not, as the browse and detail panes list it.
#[derive(Debug)]
pub struct Channel {
    pub twitch_id: String,
    pub name: String,
    pub display_name: String,
    pub is_live: bool,
    pub title: Option<String>,
    pub game_name: Option<String>,
    pub viewer_count: Option<u32>,
    pub started_at: Option<String>,
    pub thumbnail_url: Option<String>,
    pub tags: Vec<String>,
}

/// What a channel holds, as text.
pub struct ChannelView {
    pub twitch_id: Seq<char>,
    pub name: Seq<char>,
    pub display_name: Seq<char>,
    pub is_live: bool,
    pub title: Option<Seq<char>>,
    pub game_name: Option<Seq<char>>,
    pub viewer_count: Option<u32>,
    pub started_at: Option<Seq<char>>,
    pub thumbnail_url: Option<Seq<char>>,
    pub tags: Seq<Seq<char>>,
}

/// The text of an optional string.
pub open spec fn opt_text(s: Option<String>) -> Option<Seq<char>> {
    match s {
        Some(t) => Some(t@),
        None => None,
    }
}

/// The texts of a list of strings.
pub open spec fn texts(v: Seq<String>) -> Seq<Seq<char>> {
    v.map_values(|s: String| s@)
}

impl View for Channel {
    type V = ChannelView;

    open spec fn view(&self) -> ChannelView {
        ChannelView {
            twitch_id: self.twitch_id@,
            name: self.name@,
            display_name: self.display_name@,
            is_live: self.is_live,
            title: opt_text(self.title),
            game_name: opt_text(self.game_name),
            viewer_count: self.viewer_count,
            started_at: opt_text(self.started_at),
            thumbnail_url: opt_text(self.thumbnail_url),
            tags: texts(self.tags@),
        }
    }
}

impl Clone for Channel {
    fn clone(&self) -> (res: Self)
        ensures
            res@ == self@,
    {
        let res = Channel {
            twitch_id: self.twitch_id.clone(),
            name: self.name.clone(),
            display_name: self.display_name.clone(),
            is_live: self.is_live,
            title: copy_opt_string(&self.title),
            game_name: copy_opt_string(&self.game_name),
            viewer_count: self.viewer_count,
            started_at: copy_opt_string(&self.started_at),
            thumbnail_url: copy_opt_string(&self.thumbnail_url),
            tags: copy_strings(&self.tags),
        };
        assert(res@.tags =~= self@.tags);
        res
    }
}

/// A category (game) of streams.
#[derive(Debug)]
pub struct Game {
    pub id: String,
    pub name: String,
    pub box_art_url: Option<String>,
}

/// What a category holds, as text.
pub struct GameView {
    pub id: Seq<char>,
    pub name: Seq<char>,
    pub box_art_url: Option<Seq<char>>,
}

impl View for Game {
    type V = GameView;

    open spec fn view(&self) -> GameView {
        GameView { id: self.id@, name: self.name@, box_art_url: opt_text(self.box_art_url) }
    }
}

impl Clone for Game {
    fn clone(&self) -> (res: Self)
        ensures
            res == *self,
    {
        Game { id: self.id.clone(), name: self.name.clone(), box_art_url: copy_opt_string(&self.box_art_url) }
    }
}

/// A past broadcast (video on demand).
#[derive(Debug)]
pub struct Vod {
    pub id: String,
    pub title: String,
    pub duration: String,
    pub created_at: String,
    pub thumbnail_url: String,
    pub user_name: String,
}

/// What a video holds, as text.
pub struct VodView {
    pub id: Seq<char>,
    pub title: Seq<char>,
    pub duration: Seq<char>,
    pub created_at: Seq<char>,
    pub thumbnail_url: Seq<char>,
    pub user_name: Seq<char>,
}

impl View for Vod {
    type V = VodView;

    open spec fn view(&self) -> VodView {
        VodView {
            id: self.id@,
            title: self.title@,
            duration: self.duration@,
            created_at: self.created_at@,
            thumbnail_url: self.thumbnail_url@,
            user_name: self.user_name@,
        }
    }
}

impl Clone for Vod {
    fn clone(&self) -> (res: Self)
        ensures
            res == *self,
    {
        Vod {
            id: self.id.clone(),
            title: self.title.clone(),
            duration: self.duration.clone(),
            created_at: self.created_at.clone(),
            thumbnail_url: self.thumbnail_url.clone(),
            user_name: self.user_name.clone(),
        }
    }
}

/// A line of chat: a message from a user, or a notice of the client itself.
#[derive(Debug)]
pub struct ChatMessage {
    pub sender: String,
    pub message: String,
    pub system: bool,
}

/// What a chat line holds, as text.
pub struct ChatMessageView {
    pub sender: Seq<char>,
    pub message: Seq<char>,
    pub system: bool,
}

impl View for ChatMessage {
    type V = ChatMessageView;

    open spec fn view(&self) -> ChatMessageView {
        ChatMessageView { sender: self.sender@, message: self.message@, system: self.system }
    }
}

impl Clone for ChatMessage {
    fn clone(&self) -> (res: Self)
        ensures
            res == *self,
    {
        ChatMessage { sender: self.sender.clone(), message: self.message.clone(), system: self.system }
    }
}


/// The first channel of `live` with login `name`.
pub open spec fn find_by_name(live: Seq<ChannelView>, name: Seq<char>) -> Option<ChannelView>
    decreases live.len(),
{
    if live.len() == 0 {
        None
    } else if live[0].name == name {
        Some(live[0])
    } else {
        find_by_name(live.subrange(1, live.len() as int), name)
    }
}

/// A followed channel with its stream filled in from the live channel of the
/// same login, if there is one.
pub open spec fn with_live(ch: ChannelView, live: Seq<ChannelView>) -> ChannelView {
    match find_by_name(live, ch.name) {
        Some(l) => ChannelView {
            is_live: true,
            title: l.title,
            game_name: l.game_name,
            viewer_count: l.viewer_count,
            started_at: l.started_at,
            ..ch
        },
        None => ch,
    }
}

/// The views of a list of channels.
pub open spec fn views(v: Seq<Channel>) -> Seq<ChannelView> {
    v.map_values(|c: Channel| c@)
}

fn find_live<'a>(live: &'a Vec<Channel>, name: &String) -> (res: Option<&'a Channel>)
    ensures
        res.is_some() == find_by_name(views(live@), name@).is_some(),
        res matches Some(c) ==> find_by_name(views(live@), name@) == Some(c@),
{
    let mut i: usize = 0;
    assert(views(live@).subrange(0, live@.len() as int) =~= views(live@));
    while i < live.len()
        invariant
            i <= live.len(),
            find_by_name(views(live@), name@) == find_by_name(
                views(live@).subrange(i as int, live@.len() as int),
                name@,
            ),
        decreases live.len() - i,
    {
        let ghost rest = views(live@).subrange(i as int, live@.len() as int);
        assert(rest[0] == live@[i as int]@);
        assert(rest.subrange(1, rest.len() as int) =~= views(live@).subrange(i + 1, live@.len() as int));
        if same_text(live[i].name.as_str(), name.as_str()) {
            return Some(&live[i]);
        }
        i = i + 1;
    }
    None
}

/// The followed channels with the live ones marked live and their streams
/// filled in (see `with_live`).
pub fn merge_live_status(followed: Vec<Channel>, live: &Vec<Channel>) -> (res: Vec<Channel>)
    ensures
        views(res@) == views(followed@).map_values(|c: ChannelView| with_live(c, views(live@))),
{
    let mut out: Vec<Channel> = Vec::new();
    let mut rest = followed;
    let ghost all = views(rest@);
    let mut i: usize = 0;
    let n = rest.len();
    while i < n
        invariant
            n == rest.len(),
            views(rest@) == all,
            i <= n,
            views(out@) == all.subrange(0, i as int).map_values(|c: ChannelView| with_live(c, views(live@))),
        decreases n - i,
    {
        let ch = rest[i].clone();
        let ghost cv = all[i as int];
        assert(ch@ == cv);
        let merged = match find_live(live, &ch.name) {
            Some(l) => Channel {
                is_live: true,
                title: copy_opt_string(&l.title),
                game_name: copy_opt_string(&l.game_name),
                viewer_count: l.viewer_count,
                started_at: copy_opt_string(&l.started_at),
                ..ch
            },
            None => ch,
        };
        assert(merged@ == with_live(cv, views(live@)));
        let ghost before = views(out@);
        out.push(merged);
        assert(views(out@) =~= before.push(with_live(cv, views(live@))));
        assert(all.subrange(0, i + 1).map_values(|c: ChannelView| with_live(c, views(live@))) =~= all.subrange(0, i as int).map_values(|c: ChannelView| with_live(c, views(live@))).push(with_live(cv, views(live@))));
        i = i + 1;
    }
    assert(all.subrange(0, n as int) =~= all);
    out
}

} // verus!
