//! The Twitch Helix API: the addresses and headers of its requests, and
//! what its answers become.

use vstd::prelude::*;
use vstd::string::StringSliceAdditionalSpecFns;
use crate::text::{push_decimal, same_text, string_of};
use crate::twitch::auth::Auth;
use crate::twitch::{opt_text, texts, Channel, ChannelView, Game, Vod};

verus! {

/// The Helix API as the client uses it: its address and the credentials.
pub struct TwitchApi {
    pub auth: Auth,
    pub base_url: String,
}

/// The headers of a request, by name.
#[derive(Debug)]
pub struct Headers {
    pub entries: Vec<(String, String)>,
}

/// The name and value of each header, as text.
pub open spec fn header_texts(h: Seq<(String, String)>) -> Seq<(Seq<char>, Seq<char>)> {
    h.map_values(|e: (String, String)| (e.0@, e.1@))
}

/// What a header value may hold: visible ASCII, spaces, tabs, and any
/// character outside ASCII.
pub open spec fn header_text_ok(s: Seq<char>) -> bool {
    forall|i: int| 0 <= i < s.len() ==> ((s[i] as u32 >= 32 && s[i] as u32 != 127) || s[i] as u32 == 9)
}

/// `HeaderValue::from_str` of the `http` crate (as `reqwest::header`
/// re-exports it), reduced to whether it accepts the text: it accepts
/// exactly when every byte is at least 32 and not 127, or is a tab. Every
/// byte of a character outside ASCII is 128 or more, so this is
/// `header_text_ok` on the characters.
#[verifier::external_body]
fn header_value_ok(s: &str) -> (res: bool)
    ensures
        res == header_text_ok(s@),
{
    s.parse::<reqwest::header::HeaderValue>().is_ok()
}

/// The value of the first header named `name`.
pub open spec fn header_lookup(h: Seq<(Seq<char>, Seq<char>)>, name: Seq<char>) -> Option<Seq<char>>
    decreases h.len(),
{
    if h.len() == 0 {
        None
    } else if h[0].0 == name {
        Some(h[0].1)
    } else {
        header_lookup(h.subrange(1, h.len() as int), name)
    }
}

impl Headers {
    /// The value of the header named `name` (the first, if several).
    pub fn get(&self, name: &str) -> (res: Option<&str>)
        ensures
            res.is_some() == header_lookup(header_texts(self.entries@), name@).is_some(),
            res matches Some(v) ==> header_lookup(header_texts(self.entries@), name@) == Some(v@),
    {
        let ghost all = header_texts(self.entries@);
        let mut i: usize = 0;
        assert(all.subrange(0, all.len() as int) =~= all);
        while i < self.entries.len()
            invariant
                all == header_texts(self.entries@),
                i <= self.entries.len(),
                header_lookup(all, name@) == header_lookup(all.subrange(i as int, all.len() as int), name@),
            decreases self.entries.len() - i,
        {
            let ghost rest = all.subrange(i as int, all.len() as int);
            assert(rest[0] == all[i as int]);
            assert(rest.subrange(1, rest.len() as int) =~= all.subrange(i + 1, all.len() as int));
            if same_text(self.entries[i].0.as_str(), name) {
                return Some(self.entries[i].1.as_str());
            }
            i = i + 1;
        }
        None
    }
}

/// The address of the Helix API.
pub open spec fn helix_url() -> Seq<char> {
    "https://api.twitch.tv/helix"@
}

/// The query of a list of logins: `user_login=<login>` for each, joined by `&`.
pub open spec fn logins_query(logins: Seq<Seq<char>>) -> Seq<char>
    decreases logins.len(),
{
    if logins.len() == 0 {
        Seq::empty()
    } else if logins.len() == 1 {
        "user_login="@ + logins[0]
    } else {
        logins_query(logins.drop_last()) + "&user_login="@ + logins.last()
    }
}

/// `&after=<cursor>` when a page cursor is given.
pub open spec fn after_query(after: Option<Seq<char>>) -> Seq<char> {
    match after {
        Some(c) => "&after="@ + c,
        None => Seq::empty(),
    }
}

fn decimal_string(n: u32) -> (res: String)
    ensures
        res@ == crate::text::decimal(n as nat),
{
    let mut v: Vec<char> = Vec::new();
    push_decimal(&mut v, n as u64);
    string_of(&v)
}

fn push_after(url: &mut String, after: Option<&str>)
    ensures
        final(url)@ == old(url)@ + after_query(
            match after {
                Some(a) => Some(a@),
                None => None,
            },
        ),
{
    match after {
        Some(c) => {
            url.append("&after=");
            url.append(c);
        },
        None => {
            assert(old(url)@ + Seq::<char>::empty() =~= old(url)@);
        },
    }
}

/// A byte that a form-encoded query value keeps as it is: an ASCII letter
/// or digit, `*`, `-`, `.` or `_`.
pub open spec fn form_safe(b: u8) -> bool {
    (48 <= b && b <= 57) || (65 <= b && b <= 90) || (97 <= b && b <= 122) || b == 42 || b == 45 || b == 46
        || b == 95
}

/// The upper-case hexadecimal digit of `n` (below sixteen).
pub open spec fn hex_digit(n: nat) -> char {
    if n < 10 {
        (48 + n) as char
    } else {
        (55 + n) as char
    }
}

/// One byte of a form-encoded query value: kept when safe, `+` for a space,
/// `%` and two hexadecimal digits otherwise.
pub open spec fn form_byte(b: u8) -> Seq<char> {
    if form_safe(b) {
        seq![b as char]
    } else if b == 32 {
        seq!['+']
    } else {
        seq!['%', hex_digit(b as nat / 16), hex_digit(b as nat % 16)]
    }
}

/// Bytes as a form-encoded query value (`application/x-www-form-urlencoded`,
/// as reqwest writes query parameters): each byte in turn, so that no `&`,
/// `=`, `#` or space of the value reaches the address as itself.
pub open spec fn form_encode(bytes: Seq<u8>) -> Seq<char>
    decreases bytes.len(),
{
    if bytes.len() == 0 {
        Seq::empty()
    } else {
        form_encode(bytes.drop_last()) + form_byte(bytes.last())
    }
}

fn hex_char(n: u8) -> (c: char)
    requires
        n < 16,
    ensures
        c == hex_digit(n as nat),
{
    if n < 10 {
        (48 + n) as char
    } else {
        (55 + n) as char
    }
}

/// The UTF-8 bytes of `s` form-encoded (see `form_encode`).
pub fn form_encoded(s: &str) -> (res: String)
    ensures
        res@ == form_encode(s.spec_bytes()),
{
    let bytes = s.as_bytes();
    let mut out: Vec<char> = Vec::new();
    let mut i: usize = 0;
    while i < bytes.len()
        invariant
            bytes@ == s.spec_bytes(),
            i <= bytes@.len(),
            out@ == form_encode(bytes@.subrange(0, i as int)),
        decreases bytes.len() - i,
    {
        let b = bytes[i];
        assert(bytes@.subrange(0, i + 1).drop_last() =~= bytes@.subrange(0, i as int));
        if (48 <= b && b <= 57) || (65 <= b && b <= 90) || (97 <= b && b <= 122) || b == 42 || b == 45
            || b == 46 || b == 95 {
            out.push(b as char);
        } else if b == 32 {
            out.push('+');
        } else {
            out.push('%');
            out.push(hex_char(b / 16));
            out.push(hex_char(b % 16));
        }
        i = i + 1;
        assert(out@ =~= form_encode(bytes@.subrange(0, i as int)));
    }
    assert(bytes@.subrange(0, bytes@.len() as int) =~= bytes@);
    string_of(&out)
}

/// The optional text of an optional string slice.
pub open spec fn opt_str(s: Option<&str>) -> Option<Seq<char>> {
    match s {
        Some(a) => Some(a@),
        None => None,
    }
}

impl TwitchApi {
    /// The API at its public address, with these credentials.
    pub fn new(auth: Auth) -> (res: Self)
        ensures
            res.auth == auth,
            res.base_url@ == helix_url(),
    {
        TwitchApi { auth, base_url: String::from_str("https://api.twitch.tv/helix") }
    }

    /// The headers of every request: the client id, and the token when there
    /// is one; an error when either is no valid header value.
    pub fn build_headers(&self) -> (res: Result<Headers, String>)
        ensures
            !header_text_ok(self.auth.client_id@) ==> (res matches Err(e) && e@ == "Invalid client ID"@),
            header_text_ok(self.auth.client_id@) && (self.auth.oauth_token matches Some(t)
                && !header_text_ok("Bearer "@ + t@)) ==> (res matches Err(e) && e@ == "Invalid token"@),
            res is Ok <==> (header_text_ok(self.auth.client_id@) && (self.auth.oauth_token matches Some(t)
                ==> header_text_ok("Bearer "@ + t@))),
            res matches Ok(h) ==> header_texts(h.entries@) == match self.auth.oauth_token {
                Some(t) => seq![("Client-Id"@, self.auth.client_id@), ("Authorization"@, "Bearer "@ + t@)],
                None => seq![("Client-Id"@, self.auth.client_id@)],
            },
    {
        if !header_value_ok(self.auth.client_id.as_str()) {
            return Err(String::from_str("Invalid client ID"));
        }
        let mut entries: Vec<(String, String)> = Vec::new();
        entries.push((String::from_str("Client-Id"), self.auth.client_id.clone()));
        match self.auth.bearer() {
            Some(value) => {
                if !header_value_ok(value.as_str()) {
                    return Err(String::from_str("Invalid token"));
                }
                entries.push((String::from_str("Authorization"), value));
            },
            None => {},
        }
        let res = Headers { entries };
        assert(header_texts(res.entries@) =~= match self.auth.oauth_token {
            Some(t) => seq![("Client-Id"@, self.auth.client_id@), ("Authorization"@, "Bearer "@ + t@)],
            None => seq![("Client-Id"@, self.auth.client_id@)],
        });
        Ok(res)
    }

    /// Which of the channels `user_logins` are live (`/streams`).
    pub fn streams_url(&self, user_logins: &Vec<String>, after: Option<&str>) -> (res: String)
        ensures
            res@ == self.base_url@ + "/streams?"@ + logins_query(texts(user_logins@)) + after_query(opt_str(after)),
    {
        let mut url = self.base_url.clone();
        url.append("/streams?");
        let ghost start = url@;
        let mut i: usize = 0;
        while i < user_logins.len()
            invariant
                i <= user_logins.len(),
                url@ == start + logins_query(texts(user_logins@.subrange(0, i as int))),
            decreases user_logins.len() - i,
        {
            let ghost before = url@;
            let ghost ls = texts(user_logins@.subrange(0, i + 1));
            assert(ls.drop_last() =~= texts(user_logins@.subrange(0, i as int)));
            assert(ls.last() == user_logins@[i as int]@);
            if i > 0 {
                url.append("&user_login=");
            } else {
                url.append("user_login=");
            }
            url.append(user_logins[i].as_str());
            proof {
                if i == 0 {
                    assert(logins_query(texts(user_logins@.subrange(0, i as int))) =~= Seq::<char>::empty());
                    assert(url@ =~= start + logins_query(ls));
                } else {
                    assert(url@ =~= start + logins_query(ls));
                }
            }
            i = i + 1;
        }
        assert(user_logins@.subrange(0, user_logins@.len() as int) =~= user_logins@);
        push_after(&mut url, after);
        url
    }

    /// The most watched categories (`/games/top`).
    pub fn top_games_url(&self, first: u32, after: Option<&str>) -> (res: String)
        ensures
            res@ == self.base_url@ + "/games/top?first="@ + crate::text::decimal(first as nat) + after_query(opt_str(after)),
    {
        let mut url = self.base_url.clone();
        url.append("/games/top?first=");
        url.append(decimal_string(first).as_str());
        push_after(&mut url, after);
        url
    }

    /// The live streams of a category (`/streams?game_id=`).
    pub fn streams_by_game_url(&self, game_id: &str, first: u32, after: Option<&str>) -> (res: String)
        ensures
            res@ == self.base_url@ + "/streams?game_id="@ + game_id@ + "&first="@ + crate::text::decimal(first as nat)
                + after_query(opt_str(after)),
    {
        let mut url = self.base_url.clone();
        url.append("/streams?game_id=");
        url.append(game_id);
        url.append("&first=");
        url.append(decimal_string(first).as_str());
        push_after(&mut url, after);
        url
    }

    /// Channels matching a search (`/search/channels`), the query
    /// form-encoded as one parameter.
    pub fn search_channels_url(&self, query: &str, first: u32) -> (res: String)
        ensures
            res@ == self.base_url@ + "/search/channels?query="@ + form_encode(query.spec_bytes()) + "&first="@
                + crate::text::decimal(first as nat),
    {
        let mut url = self.base_url.clone();
        url.append("/search/channels?query=");
        url.append(form_encoded(query).as_str());
        url.append("&first=");
        url.append(decimal_string(first).as_str());
        url
    }

    /// The videos of a channel (`/videos?user_id=`).
    pub fn vods_url(&self, user_id: &str, first: u32, after: Option<&str>) -> (res: String)
        ensures
            res@ == self.base_url@ + "/videos?user_id="@ + user_id@ + "&first="@ + crate::text::decimal(first as nat)
                + after_query(opt_str(after)),
    {
        let mut url = self.base_url.clone();
        url.append("/videos?user_id=");
        url.append(user_id);
        url.append("&first=");
        url.append(decimal_string(first).as_str());
        push_after(&mut url, after);
        url
    }

    /// The user the token belongs to (`/users`).
    pub fn current_user_url(&self) -> (res: String)
        ensures
            res@ == self.base_url@ + "/users"@,
    {
        self.base_url.clone().concat("/users")
    }

    /// The channels a user follows (`/channels/followed`).
    pub fn followed_url(&self, user_id: &str, after: Option<&str>) -> (res: String)
        ensures
            res@ == self.base_url@ + "/channels/followed?user_id="@ + user_id@ + "&first=100"@
                + after_query(opt_str(after)),
    {
        let mut url = self.base_url.clone();
        url.append("/channels/followed?user_id=");
        url.append(user_id);
        url.append("&first=100");
        push_after(&mut url, after);
        url
    }
}

/// A live stream as `/streams` describes it.
#[derive(Debug)]
pub struct StreamData {
    pub user_id: String,
    pub user_login: String,
    pub user_name: String,
    pub title: String,
    pub game_name: String,
    pub viewer_count: u32,
    pub started_at: String,
    pub thumbnail_url: String,
    pub tags: Vec<String>,
}

/// A channel as `/search/channels` describes it.
#[derive(Debug)]
pub struct SearchChannelData {
    pub id: String,
    pub login: String,
    pub display_name: String,
    pub is_live: bool,
}

/// A category as `/games/top` describes it.
#[derive(Debug)]
pub struct GameData {
    pub id: String,
    pub name: String,
    pub box_art_url: Option<String>,
}

/// A video as `/videos` describes it.
#[derive(Debug)]
pub struct VideoData {
    pub id: String,
    pub title: String,
    pub duration: String,
    pub created_at: String,
    pub thumbnail_url: String,
    pub user_name: String,
}

impl StreamData {
    /// The live channel of this stream, with its tags; an empty game name
    /// means none.
    pub fn into_channel(self) -> (res: Channel)
        ensures
            res@ == (ChannelView {
                twitch_id: self.user_id@,
                name: self.user_login@,
                display_name: self.user_name@,
                is_live: true,
                title: Some(self.title@),
                game_name: if self.game_name@.len() == 0 {
                    None
                } else {
                    Some(self.game_name@)
                },
                viewer_count: Some(self.viewer_count),
                started_at: Some(self.started_at@),
                thumbnail_url: Some(self.thumbnail_url@),
                tags: texts(self.tags@),
            }),
    {
        let game_name = if self.game_name.as_str().is_empty() {
            None
        } else {
            Some(self.game_name)
        };
        let res = Channel {
            twitch_id: self.user_id,
            name: self.user_login,
            display_name: self.user_name,
            is_live: true,
            title: Some(self.title),
            game_name,
            viewer_count: Some(self.viewer_count),
            started_at: Some(self.started_at),
            thumbnail_url: Some(self.thumbnail_url),
            tags: self.tags,
        };
        res
    }
}

impl SearchChannelData {
    /// The channel of this search result, with nothing known of its stream.
    pub fn into_channel(self) -> (res: Channel)
        ensures
            res@ == (ChannelView {
                twitch_id: self.id@,
                name: self.login@,
                display_name: self.display_name@,
                is_live: self.is_live,
                title: None,
                game_name: None,
                viewer_count: None,
                started_at: None,
                thumbnail_url: None,
                tags: Seq::empty(),
            }),
    {
        let res = Channel {
            twitch_id: self.id,
            name: self.login,
            display_name: self.display_name,
            is_live: self.is_live,
            title: None,
            game_name: None,
            viewer_count: None,
            started_at: None,
            thumbnail_url: None,
            tags: Vec::new(),
        };
        assert(res@.tags =~= Seq::<Seq<char>>::empty());
        res
    }
}

impl GameData {
    /// The category.
    pub fn into_game(self) -> (res: Game)
        ensures
            res@.id == self.id@,
            res@.name == self.name@,
            res@.box_art_url == opt_text(self.box_art_url),
    {
        Game { id: self.id, name: self.name, box_art_url: self.box_art_url }
    }
}

impl VideoData {
    /// The video.
    pub fn into_vod(self) -> (res: Vod)
        ensures
            res@.id == self.id@,
            res@.title == self.title@,
            res@.duration == self.duration@,
            res@.created_at == self.created_at@,
            res@.thumbnail_url == self.thumbnail_url@,
            res@.user_name == self.user_name@,
    {
        Vod {
            id: self.id,
            title: self.title,
            duration: self.duration,
            created_at: self.created_at,
            thumbnail_url: self.thumbnail_url,
            user_name: self.user_name,
        }
    }
}

/// A followed channel as `/channels/followed` describes it.
#[derive(Debug)]
pub struct FollowData {
    pub broadcaster_id: String,
    pub broadcaster_login: String,
    pub broadcaster_name: String,
}

impl FollowData {
    /// The followed channel, offline until a look at its stream says more.
    pub fn into_channel(self) -> (res: Channel)
        ensures
            res@ == (ChannelView {
                twitch_id: self.broadcaster_id@,
                name: self.broadcaster_login@,
                display_name: self.broadcaster_name@,
                is_live: false,
                title: None,
                game_name: None,
                viewer_count: None,
                started_at: None,
                thumbnail_url: None,
                tags: Seq::empty(),
            }),
    {
        let res = Channel {
            twitch_id: self.broadcaster_id,
            name: self.broadcaster_login,
            display_name: self.broadcaster_name,
            is_live: false,
            title: None,
            game_name: None,
            viewer_count: None,
            started_at: None,
            thumbnail_url: None,
            tags: Vec::new(),
        };
        assert(res@.tags =~= Seq::<Seq<char>>::empty());
        res
    }
}

} // verus!
