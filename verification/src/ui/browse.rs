//! The browse pane: its titles.

use vstd::prelude::*;
use crate::app::{AppMode, ModeView};
use crate::text::{decimal, push_decimal, push_str, string_of};
use crate::twitch::{Channel, ChannelView, Game, GameView, Vod, VodView};
use crate::ui::format::{compact_count, format_viewers};
use crate::ui::pane::{pieces, piece, push_piece, pv, Emphasis, Piece, PieceView, Tone};

verus! {

/// The title of the browse pane for a mode.
pub open spec fn header_text(mode: ModeView) -> Seq<char> {
    match mode {
        ModeView::SavedChannels => "Saved Channels"@,
        ModeView::Followed => "Following"@,
        ModeView::Categories => "Categories"@,
        ModeView::CategoryStreams { game_name, .. } => game_name,
        ModeView::Search { query } => "Search: "@ + query,
        ModeView::Vods { channel_name, .. } => "VODs: "@ + channel_name,
        ModeView::QualitySelect { .. } => Seq::empty(),
    }
}

/// The title of the browse pane for a mode (while loading).
pub fn header_title(mode: &AppMode) -> (res: String)
    ensures
        res@ == header_text(mode@),
{
    match mode {
        AppMode::SavedChannels => String::from_str("Saved Channels"),
        AppMode::Followed => String::from_str("Following"),
        AppMode::Categories => String::from_str("Categories"),
        AppMode::CategoryStreams { game_name, .. } => game_name.clone(),
        AppMode::Search { query } => String::from_str("Search: ").concat(query.as_str()),
        AppMode::Vods { channel_name, .. } => String::from_str("VODs: ").concat(channel_name.as_str()),
        AppMode::QualitySelect { .. } => String::new(),
    }
}

/// How many of the channels are live.
pub open spec fn live_count(chs: Seq<ChannelView>) -> nat
    decreases chs.len(),
{
    if chs.len() == 0 {
        0
    } else {
        live_count(chs.drop_last()) + if chs.last().is_live {
            1nat
        } else {
            0nat
        }
    }
}

/// The title over a list of channels: how many, and how many are live.
pub open spec fn channels_header_text(followed: bool, chs: Seq<ChannelView>) -> Seq<char> {
    (if followed {
        " Following · "@
    } else {
        " Saved · "@
    }) + crate::text::decimal(chs.len()) + " channels · "@ + crate::text::decimal(live_count(chs)) + " live "@
}

/// The title over the saved (or followed) channels.
pub fn channels_header(followed: bool, channels: &Vec<Channel>) -> (res: String)
    ensures
        res@ == channels_header_text(followed, channels@.map_values(|c: Channel| c@)),
{
    let ghost chs = channels@.map_values(|c: Channel| c@);
    let mut live: usize = 0;
    let mut i: usize = 0;
    while i < channels.len()
        invariant
            chs == channels@.map_values(|c: Channel| c@),
            i <= channels.len(),
            live == live_count(chs.subrange(0, i as int)),
            live <= i,
        decreases channels.len() - i,
    {
        assert(chs.subrange(0, i + 1).drop_last() =~= chs.subrange(0, i as int));
        if channels[i].is_live {
            live = live + 1;
        }
        i = i + 1;
    }
    assert(chs.subrange(0, chs.len() as int) =~= chs);
    let mut out: Vec<char> = Vec::new();
    if followed {
        push_str(&mut out, " Following · ");
    } else {
        push_str(&mut out, " Saved · ");
    }
    push_decimal(&mut out, channels.len() as u64);
    push_str(&mut out, " channels · ");
    push_decimal(&mut out, live as u64);
    push_str(&mut out, " live ");
    string_of(&out)
}

/// Bold for the selected row, normal otherwise.
pub open spec fn name_emphasis(selected: bool) -> Emphasis {
    if selected {
        Emphasis::Bold
    } else {
        Emphasis::Normal
    }
}

/// An optional text, or the empty text.
pub open spec fn or_empty(t: Option<Seq<char>>) -> Seq<char> {
    match t {
        Some(x) => x,
        None => Seq::empty(),
    }
}

/// A viewer count in short form, or the empty text.
pub open spec fn viewers_text(v: Option<u32>) -> Seq<char> {
    match v {
        Some(c) => compact_count(c as nat),
        None => Seq::empty(),
    }
}

/// Two spaces between the fields of a row.
pub open spec fn gap() -> PieceView {
    pv("  "@, Tone::Plain, Emphasis::Normal)
}

/// A row of the saved or followed channels: a live one with a red dot, its
/// name, the age of the stream, the game and the viewers; an offline one
/// with a hollow dot, its name dimmed and "offline" in italics.
pub open spec fn channel_row_text(ch: ChannelView, uptime: Seq<char>, selected: bool) -> Seq<PieceView> {
    if ch.is_live {
        seq![
            pv("●"@, Tone::Red, Emphasis::Normal),
            pv(" "@, Tone::Plain, Emphasis::Normal),
            pv(ch.display_name, Tone::Text, name_emphasis(selected)),
            gap(),
            pv(uptime, Tone::Dim, Emphasis::Normal),
            gap(),
            pv(or_empty(ch.game_name), Tone::Dim, Emphasis::Normal),
            gap(),
            pv(viewers_text(ch.viewer_count), Tone::Green, Emphasis::Normal),
        ]
    } else {
        seq![
            pv("○"@, Tone::Dim, Emphasis::Normal),
            pv(" "@, Tone::Plain, Emphasis::Normal),
            pv(ch.display_name, Tone::Dim, name_emphasis(selected)),
            pv("  offline"@, Tone::Dim, Emphasis::Italic),
        ]
    }
}

/// A row of a category's streams: a red dot, the name, the age of the
/// stream and the viewers.
pub open spec fn stream_row_text(ch: ChannelView, uptime: Seq<char>, selected: bool) -> Seq<PieceView> {
    seq![
        pv("●"@, Tone::Red, Emphasis::Normal),
        pv(" "@, Tone::Plain, Emphasis::Normal),
        pv(ch.display_name, Tone::Text, name_emphasis(selected)),
        gap(),
        pv(uptime, Tone::Dim, Emphasis::Normal),
        gap(),
        pv(viewers_text(ch.viewer_count), Tone::Green, Emphasis::Normal),
    ]
}

/// A row of the search results: a red or hollow dot and the name, bold when
/// selected, dimmed when offline.
pub open spec fn search_row_text(ch: ChannelView, selected: bool) -> Seq<PieceView> {
    seq![
        if ch.is_live {
            pv("●"@, Tone::Red, Emphasis::Normal)
        } else {
            pv("○"@, Tone::Dim, Emphasis::Normal)
        },
        pv(" "@, Tone::Plain, Emphasis::Normal),
        if selected {
            pv(ch.display_name, Tone::Text, Emphasis::Bold)
        } else if ch.is_live {
            pv(ch.display_name, Tone::Text, Emphasis::Normal)
        } else {
            pv(ch.display_name, Tone::Dim, Emphasis::Normal)
        },
    ]
}

/// A row of the videos: the duration in brackets and the title.
pub open spec fn vod_row_text(vod: VodView, selected: bool) -> Seq<PieceView> {
    seq![
        pv(" "@, Tone::Plain, Emphasis::Normal),
        pv("["@ + vod.duration + "]"@, Tone::Green, Emphasis::Normal),
        pv(" "@, Tone::Plain, Emphasis::Normal),
        pv(vod.title, Tone::Text, name_emphasis(selected)),
    ]
}

/// A row of the categories: the name after a space.
pub open spec fn category_row_text(game: GameView, selected: bool) -> Seq<PieceView> {
    seq![pv(" "@ + game.name, Tone::Text, name_emphasis(selected))]
}

/// Bold for the selected row (see `name_emphasis`).
fn emphasis_for(selected: bool) -> (res: Emphasis)
    ensures
        res == name_emphasis(selected),
{
    if selected {
        Emphasis::Bold
    } else {
        Emphasis::Normal
    }
}

/// A viewer count in short form, or the empty text (see `viewers_text`).
fn viewers_of(v: Option<u32>) -> (res: String)
    ensures
        res@ == viewers_text(v),
{
    match v {
        Some(c) => format_viewers(c),
        None => String::new(),
    }
}

/// A row of the saved or followed channels (see `channel_row_text`), with
/// `uptime` the age of the stream as `format_uptime` gives it.
pub fn channel_row(channel: &Channel, uptime: &str, selected: bool) -> (res: Vec<Piece>)
    ensures
        pieces(res@) == channel_row_text(channel@, uptime@, selected),
{
    assert(pieces(Seq::<Piece>::empty()) =~= Seq::<PieceView>::empty());
    let mut row: Vec<Piece> = Vec::new();
    if channel.is_live {
        push_piece(&mut row, piece("●", Tone::Red, Emphasis::Normal));
        push_piece(&mut row, piece(" ", Tone::Plain, Emphasis::Normal));
        push_piece(&mut row, piece(channel.display_name.as_str(), Tone::Text, emphasis_for(selected)));
        push_piece(&mut row, piece("  ", Tone::Plain, Emphasis::Normal));
        push_piece(&mut row, piece(uptime, Tone::Dim, Emphasis::Normal));
        push_piece(&mut row, piece("  ", Tone::Plain, Emphasis::Normal));
        let game = match &channel.game_name {
            Some(g) => piece(g.as_str(), Tone::Dim, Emphasis::Normal),
            None => Piece { text: String::new(), tone: Tone::Dim, emphasis: Emphasis::Normal },
        };
        push_piece(&mut row, game);
        push_piece(&mut row, piece("  ", Tone::Plain, Emphasis::Normal));
        push_piece(&mut row, Piece { text: viewers_of(channel.viewer_count), tone: Tone::Green, emphasis: Emphasis::Normal });
    } else {
        push_piece(&mut row, piece("○", Tone::Dim, Emphasis::Normal));
        push_piece(&mut row, piece(" ", Tone::Plain, Emphasis::Normal));
        push_piece(&mut row, piece(channel.display_name.as_str(), Tone::Dim, emphasis_for(selected)));
        push_piece(&mut row, piece("  offline", Tone::Dim, Emphasis::Italic));
    }
    assert(pieces(row@) =~= channel_row_text(channel@, uptime@, selected));
    row
}

/// A row of a category's streams (see `stream_row_text`).
pub fn stream_row(channel: &Channel, uptime: &str, selected: bool) -> (res: Vec<Piece>)
    ensures
        pieces(res@) == stream_row_text(channel@, uptime@, selected),
{
    assert(pieces(Seq::<Piece>::empty()) =~= Seq::<PieceView>::empty());
    let mut row: Vec<Piece> = Vec::new();
    push_piece(&mut row, piece("●", Tone::Red, Emphasis::Normal));
    push_piece(&mut row, piece(" ", Tone::Plain, Emphasis::Normal));
    push_piece(&mut row, piece(channel.display_name.as_str(), Tone::Text, emphasis_for(selected)));
    push_piece(&mut row, piece("  ", Tone::Plain, Emphasis::Normal));
    push_piece(&mut row, piece(uptime, Tone::Dim, Emphasis::Normal));
    push_piece(&mut row, piece("  ", Tone::Plain, Emphasis::Normal));
    push_piece(&mut row, Piece { text: viewers_of(channel.viewer_count), tone: Tone::Green, emphasis: Emphasis::Normal });
    assert(pieces(row@) =~= stream_row_text(channel@, uptime@, selected));
    row
}

/// A row of the search results (see `search_row_text`).
pub fn search_row(channel: &Channel, selected: bool) -> (res: Vec<Piece>)
    ensures
        pieces(res@) == search_row_text(channel@, selected),
{
    assert(pieces(Seq::<Piece>::empty()) =~= Seq::<PieceView>::empty());
    let mut row: Vec<Piece> = Vec::new();
    if channel.is_live {
        push_piece(&mut row, piece("●", Tone::Red, Emphasis::Normal));
    } else {
        push_piece(&mut row, piece("○", Tone::Dim, Emphasis::Normal));
    }
    push_piece(&mut row, piece(" ", Tone::Plain, Emphasis::Normal));
    let name = if selected {
        piece(channel.display_name.as_str(), Tone::Text, Emphasis::Bold)
    } else if channel.is_live {
        piece(channel.display_name.as_str(), Tone::Text, Emphasis::Normal)
    } else {
        piece(channel.display_name.as_str(), Tone::Dim, Emphasis::Normal)
    };
    push_piece(&mut row, name);
    assert(pieces(row@) =~= search_row_text(channel@, selected));
    row
}

/// A row of the videos (see `vod_row_text`).
pub fn vod_row(vod: &Vod, selected: bool) -> (res: Vec<Piece>)
    ensures
        pieces(res@) == vod_row_text(vod@, selected),
{
    assert(pieces(Seq::<Piece>::empty()) =~= Seq::<PieceView>::empty());
    let mut row: Vec<Piece> = Vec::new();
    push_piece(&mut row, piece(" ", Tone::Plain, Emphasis::Normal));
    let duration = String::from_str("[").concat(vod.duration.as_str()).concat("]");
    push_piece(&mut row, Piece { text: duration, tone: Tone::Green, emphasis: Emphasis::Normal });
    push_piece(&mut row, piece(" ", Tone::Plain, Emphasis::Normal));
    push_piece(&mut row, piece(vod.title.as_str(), Tone::Text, emphasis_for(selected)));
    assert(pieces(row@) =~= vod_row_text(vod@, selected));
    row
}

/// A row of the categories (see `category_row_text`).
pub fn category_row(game: &Game, selected: bool) -> (res: Vec<Piece>)
    ensures
        pieces(res@) == category_row_text(game@, selected),
{
    assert(pieces(Seq::<Piece>::empty()) =~= Seq::<PieceView>::empty());
    let mut row: Vec<Piece> = Vec::new();
    let name = String::from_str(" ").concat(game.name.as_str());
    push_piece(&mut row, Piece { text: name, tone: Tone::Text, emphasis: emphasis_for(selected) });
    assert(pieces(row@) =~= category_row_text(game@, selected));
    row
}

/// The title over a list of `count` items in a mode: " Categories · 20 ",
/// " Category: Just Chatting · 20 streams ", " Search: "foo" · 3 results ",
/// " VODs: Shroud · 10 videos "; for the channel lists see
/// `channels_header_text`, and the other modes have none.
pub open spec fn list_title_text(mode: ModeView, count: nat) -> Seq<char> {
    match mode {
        ModeView::Categories => " Categories · "@ + decimal(count) + " "@,
        ModeView::CategoryStreams { game_name, .. } => " Category: "@ + game_name + " · "@ + decimal(count)
            + " streams "@,
        ModeView::Search { query } => " Search: \""@ + query + "\" · "@ + decimal(count) + " results "@,
        ModeView::Vods { channel_name, .. } => " VODs: "@ + channel_name + " · "@ + decimal(count) + " videos "@,
        _ => Seq::empty(),
    }
}

/// The title over a list of `count` items (see `list_title_text`).
pub fn list_title(mode: &AppMode, count: usize) -> (res: String)
    ensures
        res@ == list_title_text(mode@, count as nat),
{
    let mut out: Vec<char> = Vec::new();
    match mode {
        AppMode::Categories => {
            push_str(&mut out, " Categories · ");
            push_decimal(&mut out, count as u64);
            push_str(&mut out, " ");
        },
        AppMode::CategoryStreams { game_name, .. } => {
            push_str(&mut out, " Category: ");
            push_str(&mut out, game_name.as_str());
            push_str(&mut out, " · ");
            push_decimal(&mut out, count as u64);
            push_str(&mut out, " streams ");
        },
        AppMode::Search { query } => {
            push_str(&mut out, " Search: \"");
            push_str(&mut out, query.as_str());
            push_str(&mut out, "\" · ");
            push_decimal(&mut out, count as u64);
            push_str(&mut out, " results ");
        },
        AppMode::Vods { channel_name, .. } => {
            push_str(&mut out, " VODs: ");
            push_str(&mut out, channel_name.as_str());
            push_str(&mut out, " · ");
            push_decimal(&mut out, count as u64);
            push_str(&mut out, " videos ");
        },
        _ => {},
    }
    assert(out@ =~= list_title_text(mode@, count as nat));
    string_of(&out)
}

} // verus!
