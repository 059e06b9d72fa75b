//! Styled text for the panes: pieces of text with a colour and an emphasis,
//! and the lines of the detail pane made of them.

use vstd::prelude::*;
use crate::text::{decimal, string_of};
use crate::twitch::{Channel, ChannelView, Vod, VodView};
use crate::ui::format::{format_viewers_full, group_thousands};

verus! {

/// The colour a piece of text is drawn in (`Plain`: the pane's own).
#[derive(Debug, Clone, Copy, PartialEq, Eq, Structural)]
pub enum Tone {
    Plain,
    Text,
    Dim,
    Red,
    Green,
    Yellow,
    Cyan,
    Border,
}

/// How a piece of text is set.
#[derive(Debug, Clone, Copy, PartialEq, Eq, Structural)]
pub enum Emphasis {
    Normal,
    Bold,
    Italic,
}

/// A piece of text with its colour and emphasis.
#[derive(Debug)]
pub struct Piece {
    pub text: String,
    pub tone: Tone,
    pub emphasis: Emphasis,
}

/// What a piece holds.
pub struct PieceView {
    pub text: Seq<char>,
    pub tone: Tone,
    pub emphasis: Emphasis,
}

impl View for Piece {
    type V = PieceView;

    open spec fn view(&self) -> PieceView {
        PieceView { text: self.text@, tone: self.tone, emphasis: self.emphasis }
    }
}

/// A piece, as the contracts write it.
pub open spec fn pv(text: Seq<char>, tone: Tone, emphasis: Emphasis) -> PieceView {
    PieceView { text, tone, emphasis }
}

/// What the pieces of a line hold.
pub open spec fn pieces(line: Seq<Piece>) -> Seq<PieceView> {
    line.map_values(|p: Piece| p@)
}

/// What the pieces of each line hold.
pub open spec fn lines_of(lines: Seq<Vec<Piece>>) -> Seq<Seq<PieceView>> {
    lines.map_values(|l: Vec<Piece>| pieces(l@))
}

/// A line of `n` heavy horizontal bars.
pub open spec fn bars(n: nat) -> Seq<char> {
    Seq::new(n, |_i: int| '━')
}

/// The colour of the `i`-th tag: cyan, green, red and yellow in turn.
pub open spec fn tag_tone(i: int) -> Tone {
    let k = i % 4;
    if k == 0 {
        Tone::Cyan
    } else if k == 1 {
        Tone::Green
    } else if k == 2 {
        Tone::Red
    } else {
        Tone::Yellow
    }
}

/// The tags in brackets, each in its colour, one space between two.
pub open spec fn tag_pieces(tags: Seq<Seq<char>>) -> Seq<PieceView>
    decreases tags.len(),
{
    if tags.len() == 0 {
        Seq::empty()
    } else {
        let n = tags.len() - 1;
        tag_pieces(tags.drop_last()) + (if n > 0 {
            seq![pv(" "@, Tone::Plain, Emphasis::Normal)]
        } else {
            Seq::empty()
        }) + seq![pv("["@ + tags[n] + "]"@, tag_tone(n), Emphasis::Normal)]
    }
}

/// The first line of the detail pane: a red dot, the name and how long the
/// stream has run when it is live; a hollow dot, the name and "Offline" when
/// it is not.
pub open spec fn detail_header(ch: ChannelView, uptime: Seq<char>) -> Seq<PieceView> {
    if ch.is_live {
        seq![
            pv("●"@, Tone::Red, Emphasis::Normal),
            pv(" "@, Tone::Plain, Emphasis::Normal),
            pv(ch.display_name, Tone::Text, Emphasis::Bold),
            pv("  "@, Tone::Plain, Emphasis::Normal),
            pv("LIVE for "@ + uptime, Tone::Green, Emphasis::Normal),
        ]
    } else {
        seq![
            pv("○"@, Tone::Dim, Emphasis::Normal),
            pv(" "@, Tone::Plain, Emphasis::Normal),
            pv(ch.display_name, Tone::Dim, Emphasis::Bold),
            pv("  "@, Tone::Plain, Emphasis::Normal),
            pv("Offline"@, Tone::Dim, Emphasis::Normal),
        ]
    }
}

/// A rule of bars across `width` columns.
pub open spec fn rule(width: nat) -> Seq<PieceView> {
    seq![pv(bars(width), Tone::Border, Emphasis::Normal)]
}

/// The key hints at the foot of the detail pane.
pub open spec fn detail_hint(watching: bool) -> Seq<char> {
    if watching {
        "j/k quality · Enter confirm · Esc default"@
    } else {
        "[s] save · [Enter] watch · [v] vods"@
    }
}

/// The lines of the detail pane for a channel: the header, a rule as wide
/// as the text area, "Now playing" and a blank line while the quality is
/// picked, the title, then after a blank line each the game, the viewer
/// count in full and the tags where the channel has them, and after a
/// blank line the key hints.
pub open spec fn channel_detail(ch: ChannelView, uptime: Seq<char>, watching: bool, width: nat) -> Seq<Seq<PieceView>> {
    seq![detail_header(ch, uptime), rule(width)] + (if watching {
        seq![
            seq![
                pv(" ▶ "@, Tone::Green, Emphasis::Normal),
                pv("Now playing"@, Tone::Green, Emphasis::Bold),
            ],
            Seq::empty(),
        ]
    } else {
        Seq::empty()
    }) + (match ch.title {
        Some(t) => seq![seq![pv(t, Tone::Text, Emphasis::Normal)]],
        None => Seq::empty(),
    }) + (match ch.game_name {
        Some(g) => seq![
            Seq::empty(),
            seq![pv("Game "@, Tone::Dim, Emphasis::Normal), pv(g, Tone::Yellow, Emphasis::Normal)],
        ],
        None => Seq::empty(),
    }) + (match ch.viewer_count {
        Some(v) => seq![
            Seq::empty(),
            seq![
                pv("△ "@, Tone::Green, Emphasis::Normal),
                pv(group_thousands(decimal(v as nat)) + " viewers"@, Tone::Green, Emphasis::Normal),
            ],
        ],
        None => Seq::empty(),
    }) + (if ch.tags.len() > 0 {
        seq![Seq::empty(), tag_pieces(ch.tags)]
    } else {
        Seq::empty()
    }) + seq![Seq::empty(), seq![pv(detail_hint(watching), Tone::Dim, Emphasis::Normal)]]
}

/// The lines of the detail pane for a video: its title, a rule, its
/// duration, channel and creation time, a blank line and the key hints.
pub open spec fn vod_detail(vod: VodView, width: nat) -> Seq<Seq<PieceView>> {
    seq![
        seq![pv(vod.title, Tone::Text, Emphasis::Bold)],
        rule(width),
        seq![pv("Duration "@, Tone::Dim, Emphasis::Normal), pv(vod.duration, Tone::Green, Emphasis::Normal)],
        seq![pv("Channel  "@, Tone::Dim, Emphasis::Normal), pv(vod.user_name, Tone::Text, Emphasis::Normal)],
        seq![pv("Created  "@, Tone::Dim, Emphasis::Normal), pv(vod.created_at, Tone::Dim, Emphasis::Normal)],
        Seq::empty(),
        seq![pv("[Enter] play · [Esc] back"@, Tone::Dim, Emphasis::Normal)],
    ]
}

/// A piece made of a copy of `text`.
pub fn piece(text: &str, tone: Tone, emphasis: Emphasis) -> (res: Piece)
    ensures
        res@ == pv(text@, tone, emphasis),
{
    Piece { text: String::from_str(text), tone, emphasis }
}

/// Appends a piece to a line.
pub fn push_piece(line: &mut Vec<Piece>, p: Piece)
    ensures
        pieces(final(line)@) == pieces(old(line)@).push(p@),
{
    let ghost before = line@;
    line.push(p);
    assert(pieces(line@) =~= pieces(before).push(line@.last()@));
}

/// Appends a line.
pub fn push_line(lines: &mut Vec<Vec<Piece>>, line: Vec<Piece>)
    ensures
        lines_of(final(lines)@) == lines_of(old(lines)@).push(pieces(line@)),
{
    let ghost before = lines@;
    let ghost added = pieces(line@);
    lines.push(line);
    assert(lines_of(lines@) =~~= lines_of(before).push(added));
}

/// A line of `n` heavy horizontal bars.
pub fn bar_text(n: usize) -> (res: String)
    ensures
        res@ == bars(n as nat),
{
    let mut out: Vec<char> = Vec::new();
    let mut i: usize = 0;
    while i < n
        invariant
            i <= n,
            out@ == bars(i as nat),
        decreases n - i,
    {
        out.push('━');
        i = i + 1;
        assert(out@ =~= bars(i as nat));
    }
    string_of(&out)
}

/// The colour of the `i`-th tag (see `tag_tone`).
pub fn tag_tone_of(i: usize) -> (res: Tone)
    ensures
        res == tag_tone(i as int),
{
    let k = i % 4;
    if k == 0 {
        Tone::Cyan
    } else if k == 1 {
        Tone::Green
    } else if k == 2 {
        Tone::Red
    } else {
        Tone::Yellow
    }
}

/// The tags of a channel in brackets (see `tag_pieces`).
pub fn tag_line(tags: &Vec<String>) -> (res: Vec<Piece>)
    ensures
        pieces(res@) == tag_pieces(tags@.map_values(|s: String| s@)),
{
    let ghost all = tags@.map_values(|s: String| s@);
    let mut line: Vec<Piece> = Vec::new();
    let mut i: usize = 0;
    while i < tags.len()
        invariant
            i <= tags.len(),
            all == tags@.map_values(|s: String| s@),
            pieces(line@) == tag_pieces(all.subrange(0, i as int)),
        decreases tags.len() - i,
    {
        assert(all.subrange(0, i + 1).drop_last() =~= all.subrange(0, i as int));
        if i > 0 {
            push_piece(&mut line, piece(" ", Tone::Plain, Emphasis::Normal));
        }
        let text = String::from_str("[").concat(tags[i].as_str()).concat("]");
        push_piece(&mut line, Piece { text, tone: tag_tone_of(i), emphasis: Emphasis::Normal });
        i = i + 1;
    }
    assert(all.subrange(0, tags.len() as int) =~= all);
    line
}

/// The first line of the detail pane (see `detail_header`).
pub fn header_line(channel: &Channel, uptime: &str) -> (res: Vec<Piece>)
    ensures
        pieces(res@) == detail_header(channel@, uptime@),
{
    let mut line: Vec<Piece> = Vec::new();
    if channel.is_live {
        push_piece(&mut line, piece("●", Tone::Red, Emphasis::Normal));
        push_piece(&mut line, piece(" ", Tone::Plain, Emphasis::Normal));
        push_piece(&mut line, piece(channel.display_name.as_str(), Tone::Text, Emphasis::Bold));
        push_piece(&mut line, piece("  ", Tone::Plain, Emphasis::Normal));
        push_piece(
            &mut line,
            Piece {
                text: String::from_str("LIVE for ").concat(uptime),
                tone: Tone::Green,
                emphasis: Emphasis::Normal,
            },
        );
    } else {
        push_piece(&mut line, piece("○", Tone::Dim, Emphasis::Normal));
        push_piece(&mut line, piece(" ", Tone::Plain, Emphasis::Normal));
        push_piece(&mut line, piece(channel.display_name.as_str(), Tone::Dim, Emphasis::Bold));
        push_piece(&mut line, piece("  ", Tone::Plain, Emphasis::Normal));
        push_piece(&mut line, piece("Offline", Tone::Dim, Emphasis::Normal));
    }
    assert(pieces(line@) =~= detail_header(channel@, uptime@));
    line
}

/// The lines of the detail pane for a channel (see `channel_detail`), with
/// `uptime` the age of the stream as `format_uptime` gives it and `width`
/// the width of the text area.
pub fn channel_detail_lines(channel: &Channel, uptime: &str, watching: bool, width: u16) -> (res: Vec<Vec<Piece>>)
    ensures
        lines_of(res@) == channel_detail(channel@, uptime@, watching, width as nat),
{
    let ghost ch = channel@;
    proof {
        assert(pieces(Seq::<Piece>::empty()) =~= Seq::<PieceView>::empty());
        assert(lines_of(Seq::<Vec<Piece>>::empty()) =~= Seq::<Seq<PieceView>>::empty());
    }
    let mut lines: Vec<Vec<Piece>> = Vec::new();
    let ghost mut want: Seq<Seq<PieceView>> = Seq::empty();
    push_line(&mut lines, header_line(channel, uptime));
    let mut r: Vec<Piece> = Vec::new();
    push_piece(&mut r, Piece { text: bar_text(width as usize), tone: Tone::Border, emphasis: Emphasis::Normal });
    push_line(&mut lines, r);
    proof {
        want = seq![detail_header(ch, uptime@), rule(width as nat)];
        assert(lines_of(lines@) =~~= want);
    }
    if watching {
        let mut l: Vec<Piece> = Vec::new();
        push_piece(&mut l, piece(" ▶ ", Tone::Green, Emphasis::Normal));
        push_piece(&mut l, piece("Now playing", Tone::Green, Emphasis::Bold));
        push_line(&mut lines, l);
        push_line(&mut lines, Vec::new());
        proof {
            let added: Seq<Seq<PieceView>> = seq![
                seq![
                    pv(" ▶ "@, Tone::Green, Emphasis::Normal),
                    pv("Now playing"@, Tone::Green, Emphasis::Bold),
                ],
                Seq::empty(),
            ];
            assert(pieces(Seq::<Piece>::empty()) =~= Seq::<PieceView>::empty());
            assert(lines_of(lines@) =~~= want + added);
            want = want + added;
        }
    }
    let ghost w1 = want;
    match &channel.title {
        Some(t) => {
            let mut l: Vec<Piece> = Vec::new();
            push_piece(&mut l, piece(t.as_str(), Tone::Text, Emphasis::Normal));
            push_line(&mut lines, l);
            proof {
                want = want + seq![seq![pv(t@, Tone::Text, Emphasis::Normal)]];
                assert(lines_of(lines@) =~~= want);
            }
        },
        None => {},
    }
    match &channel.game_name {
        Some(g) => {
            push_line(&mut lines, Vec::new());
            let mut l: Vec<Piece> = Vec::new();
            push_piece(&mut l, piece("Game ", Tone::Dim, Emphasis::Normal));
            push_piece(&mut l, piece(g.as_str(), Tone::Yellow, Emphasis::Normal));
            push_line(&mut lines, l);
            proof {
                assert(pieces(Seq::<Piece>::empty()) =~= Seq::<PieceView>::empty());
                let added: Seq<Seq<PieceView>> = seq![
                    Seq::empty(),
                    seq![pv("Game "@, Tone::Dim, Emphasis::Normal), pv(g@, Tone::Yellow, Emphasis::Normal)],
                ];
                assert(lines_of(lines@) =~~= want + added);
                want = want + added;
            }
        },
        None => {},
    }
    match channel.viewer_count {
        Some(v) => {
            push_line(&mut lines, Vec::new());
            let mut l: Vec<Piece> = Vec::new();
            push_piece(&mut l, piece("△ ", Tone::Green, Emphasis::Normal));
            let count = format_viewers_full(v).concat(" viewers");
            push_piece(&mut l, Piece { text: count, tone: Tone::Green, emphasis: Emphasis::Normal });
            let ghost lv = pieces(l@);
            assert(lv =~= seq![
                pv("△ "@, Tone::Green, Emphasis::Normal),
                pv(group_thousands(decimal(v as nat)) + " viewers"@, Tone::Green, Emphasis::Normal),
            ]);
            push_line(&mut lines, l);
            proof {
                assert(pieces(Seq::<Piece>::empty()) =~= Seq::<PieceView>::empty());
                let added: Seq<Seq<PieceView>> = seq![
                    Seq::empty(),
                    seq![
                        pv("△ "@, Tone::Green, Emphasis::Normal),
                        pv(group_thousands(decimal(v as nat)) + " viewers"@, Tone::Green, Emphasis::Normal),
                    ],
                ];
                assert(lines_of(lines@) =~~= want + added);
                want = want + added;
            }
        },
        None => {},
    }
    if channel.tags.len() > 0 {
        push_line(&mut lines, Vec::new());
        push_line(&mut lines, tag_line(&channel.tags));
        proof {
            assert(pieces(Seq::<Piece>::empty()) =~= Seq::<PieceView>::empty());
            let added: Seq<Seq<PieceView>> = seq![Seq::empty(), tag_pieces(ch.tags)];
            assert(lines_of(lines@) =~~= want + added);
            want = want + added;
        }
    }
    push_line(&mut lines, Vec::new());
    let mut h: Vec<Piece> = Vec::new();
    if watching {
        push_piece(&mut h, piece("j/k quality · Enter confirm · Esc default", Tone::Dim, Emphasis::Normal));
    } else {
        push_piece(&mut h, piece("[s] save · [Enter] watch · [v] vods", Tone::Dim, Emphasis::Normal));
    }
    push_line(&mut lines, h);
    proof {
        assert(pieces(Seq::<Piece>::empty()) =~= Seq::<PieceView>::empty());
        let added: Seq<Seq<PieceView>> = seq![
            Seq::empty(),
            seq![pv(detail_hint(watching), Tone::Dim, Emphasis::Normal)],
        ];
        assert(lines_of(lines@) =~~= want + added);
        want = want + added;
        assert(want =~~= channel_detail(ch, uptime@, watching, width as nat));
    }
    lines
}

/// The lines of the detail pane for a video (see `vod_detail`), `width`
/// the width of the rule.
pub fn vod_detail_lines(vod: &Vod, width: u16) -> (res: Vec<Vec<Piece>>)
    ensures
        lines_of(res@) == vod_detail(vod@, width as nat),
{
    proof {
        assert(pieces(Seq::<Piece>::empty()) =~= Seq::<PieceView>::empty());
        assert(lines_of(Seq::<Vec<Piece>>::empty()) =~= Seq::<Seq<PieceView>>::empty());
    }
    let mut lines: Vec<Vec<Piece>> = Vec::new();
    let mut l0: Vec<Piece> = Vec::new();
    push_piece(&mut l0, piece(vod.title.as_str(), Tone::Text, Emphasis::Bold));
    push_line(&mut lines, l0);
    let mut l1: Vec<Piece> = Vec::new();
    push_piece(&mut l1, Piece { text: bar_text(width as usize), tone: Tone::Border, emphasis: Emphasis::Normal });
    push_line(&mut lines, l1);
    let mut l2: Vec<Piece> = Vec::new();
    push_piece(&mut l2, piece("Duration ", Tone::Dim, Emphasis::Normal));
    push_piece(&mut l2, piece(vod.duration.as_str(), Tone::Green, Emphasis::Normal));
    push_line(&mut lines, l2);
    let mut l3: Vec<Piece> = Vec::new();
    push_piece(&mut l3, piece("Channel  ", Tone::Dim, Emphasis::Normal));
    push_piece(&mut l3, piece(vod.user_name.as_str(), Tone::Text, Emphasis::Normal));
    push_line(&mut lines, l3);
    let mut l4: Vec<Piece> = Vec::new();
    push_piece(&mut l4, piece("Created  ", Tone::Dim, Emphasis::Normal));
    push_piece(&mut l4, piece(vod.created_at.as_str(), Tone::Dim, Emphasis::Normal));
    push_line(&mut lines, l4);
    push_line(&mut lines, Vec::new());
    let mut l6: Vec<Piece> = Vec::new();
    push_piece(&mut l6, piece("[Enter] play · [Esc] back", Tone::Dim, Emphasis::Normal));
    push_line(&mut lines, l6);
    assert(pieces(Seq::<Piece>::empty()) =~= Seq::<PieceView>::empty());
    assert(lines_of(lines@) =~~= vod_detail(vod@, width as nat));
    lines
}

} // verus!
