//! Playing streams and videos with streamlink, and desktop notices with
//! notify-send: the commands the front end runs.

use vstd::prelude::*;
use crate::notify::Notice;
use crate::text::chars_of;

verus! {

/// The page of a channel's live stream.
pub open spec fn stream_page(channel: Seq<char>) -> Seq<char> {
    "https://twitch.tv/"@ + channel
}

/// The page of a video.
pub open spec fn vod_page(vod_id: Seq<char>) -> Seq<char> {
    "https://twitch.tv/videos/"@ + vod_id
}

/// A character a channel name may hold: an ASCII letter or digit, or `_`.
pub open spec fn name_char_ok(c: char) -> bool {
    ('a' <= c && c <= 'z') || ('A' <= c && c <= 'Z') || ('0' <= c && c <= '9') || c == '_'
}

/// A channel name that is safe to hand to the player: not empty, and made
/// of ASCII letters, digits and underscores only.
pub open spec fn channel_name_ok(name: Seq<char>) -> bool {
    name.len() > 0 && forall|i: int| 0 <= i < name.len() ==> name_char_ok(#[trigger] name[i])
}

/// Whether `name` is a channel name safe to hand to the player (see
/// `channel_name_ok`).
pub fn valid_channel_name(name: &str) -> (res: bool)
    ensures
        res == channel_name_ok(name@),
{
    let cs = chars_of(name);
    if cs.len() == 0 {
        return false;
    }
    let mut i: usize = 0;
    while i < cs.len()
        invariant
            cs@ == name@,
            i <= cs.len(),
            forall|j: int| 0 <= j < i ==> name_char_ok(#[trigger] name@[j]),
        decreases cs.len() - i,
    {
        let c = cs[i];
        if !(('a' <= c && c <= 'z') || ('A' <= c && c <= 'Z') || ('0' <= c && c <= '9') || c == '_') {
            assert(!name_char_ok(name@[i as int]));
            return false;
        }
        i = i + 1;
    }
    true
}

/// The page of a channel's live stream (see `stream_page`); an error naming
/// the channel when its name is not safe to hand to the player.
pub fn stream_url(channel: &str) -> (res: Result<String, String>)
    ensures
        channel_name_ok(channel@) ==> (res matches Ok(u) && u@ == stream_page(channel@)),
        !channel_name_ok(channel@) ==> (res matches Err(e) && e@ == "Invalid channel name: "@ + channel@),
{
    if valid_channel_name(channel) {
        Ok(String::from_str("https://twitch.tv/").concat(channel))
    } else {
        Err(String::from_str("Invalid channel name: ").concat(channel))
    }
}

/// The page of a video (see `vod_page`).
pub fn vod_url(vod_id: &str) -> (res: String)
    ensures
        res@ == vod_page(vod_id@),
{
    String::from_str("https://twitch.tv/videos/").concat(vod_id)
}

/// The arguments of streamlink: the page, the quality, and mpv as player.
pub fn player_args(url: &str, quality: &str) -> (res: Vec<String>)
    ensures
        res@.map_values(|s: String| s@) == seq![url@, quality@, "--player"@, "mpv"@],
{
    let mut args: Vec<String> = Vec::new();
    args.push(String::from_str(url));
    args.push(String::from_str(quality));
    args.push(String::from_str("--player"));
    args.push(String::from_str("mpv"));
    assert(args@.map_values(|s: String| s@) =~= seq![url@, quality@, "--player"@, "mpv"@]);
    args
}

/// What the user is told when the player could not be started: how to
/// install it when it is missing, the reason otherwise.
pub open spec fn launch_error_text(missing: bool, reason: Seq<char>) -> Seq<char> {
    if missing {
        "streamlink not found. Install: sudo pacman -S streamlink mpv"@
    } else {
        "Failed to start streamlink: "@ + reason
    }
}

/// What the user is told when the player could not be started (see
/// `launch_error_text`).
pub fn launch_error(missing: bool, reason: &str) -> (res: String)
    ensures
        res@ == launch_error_text(missing, reason@),
{
    if missing {
        String::from_str("streamlink not found. Install: sudo pacman -S streamlink mpv")
    } else {
        String::from_str("Failed to start streamlink: ").concat(reason)
    }
}

/// The arguments of notify-send for a notice: the application name, the
/// title and the body.
pub fn notice_args(notice: &Notice) -> (res: Vec<String>)
    ensures
        res@.map_values(|s: String| s@) == seq!["-a"@, "twitch-tui"@, notice.title@, notice.body@],
{
    let mut args: Vec<String> = Vec::new();
    args.push(String::from_str("-a"));
    args.push(String::from_str("twitch-tui"));
    args.push(notice.title.clone());
    args.push(notice.body.clone());
    assert(args@.map_values(|s: String| s@) =~= seq!["-a"@, "twitch-tui"@, notice.title@, notice.body@]);
    args
}

} // verus!
