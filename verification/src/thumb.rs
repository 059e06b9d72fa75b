//! Stream thumbnails: which image a channel shows, where it is fetched
//! from, the steps of a fetch, and a small cache of the images already
//! prepared for the terminal.

use vstd::prelude::*;
use crate::text::{chars_of, push_str, same_text, starts_with, string_of};
use crate::twitch::{Channel, ChannelView};

verus! {

/// How many prepared thumbnails the cache keeps.
pub const CACHE_CAPACITY: usize = 32;

/// How long a thumbnail fetch waits, in milliseconds, before it starts: a
/// newer request in that time replaces it.
pub const FETCH_DELAY_MS: u64 = 150;

/// How long the download of a thumbnail may take, in seconds.
pub const FETCH_TIMEOUT_SECS: u64 = 5;

/// A decoded image, as the `image` crate holds it.
#[verifier::external_type_specification]
#[verifier::external_body]
pub struct ExDynamicImage(image::DynamicImage);

/// Whether the `image` crate decodes these bytes: `load_from_memory` guesses
/// the format from the first bytes and decodes with it.
pub uninterp spec fn image_decodes(bytes: Seq<u8>) -> bool;

/// `image::load_from_memory`: the image the bytes hold, when the crate
/// recognises and decodes them. The claim is only that it succeeds exactly
/// when `image_decodes` holds of the bytes; nothing is said of the pixels.
#[verifier::external_body]
fn load_image(bytes: &[u8]) -> (res: Option<image::DynamicImage>)
    ensures
        res.is_some() == image_decodes(bytes@),
{
    image::load_from_memory(bytes).ok()
}

/// The thumbnail held by the downloaded bytes, when they decode.
pub fn decode_thumbnail(bytes: &[u8]) -> (res: Option<image::DynamicImage>)
    ensures
        res.is_some() == image_decodes(bytes@),
{
    load_image(bytes)
}

/// Where a thumbnail fetch stands: its wait is over, its download ended
/// (well or not), or its decoding ended (well or not).
#[derive(Debug, Clone, Copy, PartialEq, Eq, Structural)]
pub enum FetchStage {
    AfterWait,
    AfterDownload(bool),
    AfterDecode(bool),
}

/// What a thumbnail fetch does next.
#[derive(Debug, Clone, Copy, PartialEq, Eq, Structural)]
pub enum FetchAction {
    Download,
    Decode,
    Send,
    Discard,
}

/// The next step of the thumbnail fetch numbered `my_seq` when the latest
/// request is `current_seq`: it is dropped once a newer request came or a
/// step failed; otherwise it downloads after its wait, decodes after the
/// download, and sends the image after decoding.
pub open spec fn fetch_step_spec(stage: FetchStage, my_seq: u64, current_seq: u64) -> FetchAction {
    if my_seq != current_seq {
        FetchAction::Discard
    } else {
        match stage {
            FetchStage::AfterWait => FetchAction::Download,
            FetchStage::AfterDownload(ok) => if ok {
                FetchAction::Decode
            } else {
                FetchAction::Discard
            },
            FetchStage::AfterDecode(ok) => if ok {
                FetchAction::Send
            } else {
                FetchAction::Discard
            },
        }
    }
}

/// The next step of a thumbnail fetch (see `fetch_step_spec`).
pub fn fetch_step(stage: FetchStage, my_seq: u64, current_seq: u64) -> (res: FetchAction)
    ensures
        res == fetch_step_spec(stage, my_seq, current_seq),
{
    if my_seq != current_seq {
        return FetchAction::Discard;
    }
    match stage {
        FetchStage::AfterWait => FetchAction::Download,
        FetchStage::AfterDownload(ok) => if ok {
            FetchAction::Decode
        } else {
            FetchAction::Discard
        },
        FetchStage::AfterDecode(ok) => if ok {
            FetchAction::Send
        } else {
            FetchAction::Discard
        },
    }
}

/// The key of `channel`'s current thumbnail: its id and the start of the
/// broadcast, so that a new broadcast gets a new image; none when offline.
pub open spec fn thumb_key(channel: ChannelView) -> Option<Seq<char>> {
    if !channel.is_live {
        None
    } else {
        Some(channel.twitch_id + "@"@ + match channel.started_at {
            Some(s) => s,
            None => "live"@,
        })
    }
}

/// The cache key of `channel`'s thumbnail (see `thumb_key`).
pub fn cache_key(channel: &Channel) -> (res: Option<String>)
    ensures
        res.is_some() == thumb_key(channel@).is_some(),
        res matches Some(k) ==> k@ == thumb_key(channel@).unwrap(),
{
    if !channel.is_live {
        return None;
    }
    let mut key = channel.twitch_id.clone();
    key.append("@");
    match &channel.started_at {
        Some(s) => key.append(s.as_str()),
        None => key.append("live"),
    }
    Some(key)
}

/// `text` with every occurrence of `pat` replaced by `rep`, scanning from the
/// left without overlaps, as `str::replace` does.
pub open spec fn replaced(text: Seq<char>, pat: Seq<char>, rep: Seq<char>) -> Seq<char>
    decreases text.len(),
{
    if pat.len() == 0 || text.len() < pat.len() {
        text
    } else if text.subrange(0, pat.len() as int) == pat {
        rep + replaced(text.subrange(pat.len() as int, text.len() as int), pat, rep)
    } else {
        seq![text[0]] + replaced(text.subrange(1, text.len() as int), pat, rep)
    }
}

fn matches_at(text: &Vec<char>, i: usize, pat: &Vec<char>) -> (res: bool)
    requires
        i + pat.len() <= text.len(),
    ensures
        res == (text@.subrange(i as int, i + pat.len()) == pat@),
{
    let mut j: usize = 0;
    while j < pat.len()
        invariant
            i + pat.len() <= text.len(),
            j <= pat.len(),
            forall|k: int| 0 <= k < j ==> text@[i + k] == pat@[k],
        decreases pat.len() - j,
    {
        if text[i + j] != pat[j] {
            assert(text@.subrange(i as int, i + pat.len())[j as int] != pat@[j as int]);
            return false;
        }
        j = j + 1;
    }
    assert(text@.subrange(i as int, i + pat.len()) =~= pat@);
    true
}

/// `text` with every occurrence of `pat` replaced by `rep`.
pub fn replace_all(text: &Vec<char>, pat: &Vec<char>, rep: &Vec<char>) -> (res: Vec<char>)
    requires
        pat.len() > 0,
    ensures
        res@ == replaced(text@, pat@, rep@),
{
    let n = text.len();
    let mut out: Vec<char> = Vec::new();
    let mut i: usize = 0;
    assert(text@.subrange(0, n as int) == text@);
    while i < n
        invariant
            n == text.len(),
            pat.len() > 0,
            i <= n,
            replaced(text@, pat@, rep@) == out@ + replaced(
                text@.subrange(i as int, n as int),
                pat@,
                rep@,
            ),
        decreases n - i,
    {
        let ghost rest = text@.subrange(i as int, n as int);
        if pat.len() <= n - i && matches_at(text, i, pat) {
            assert(rest.subrange(0, pat.len() as int) == text@.subrange(i as int, i + pat.len()));
            assert(rest.subrange(pat.len() as int, rest.len() as int) == text@.subrange(
                i + pat.len(),
                n as int,
            ));
            let mut r = rep.clone();
            assert(r@ == rep@);
            out.append(&mut r);
            i = i + pat.len();
        } else {
            if pat.len() <= n - i {
                assert(rest.subrange(0, pat.len() as int) == text@.subrange(i as int, i + pat.len()));
            }
            assert(rest.subrange(1, rest.len() as int) == text@.subrange(i + 1, n as int));
            out.push(text[i]);
            i = i + 1;
        }
    }
    out
}

/// The thumbnail address with Twitch's size placeholders filled in
/// (640 by 360); none unless the address is a web address.
pub open spec fn resolved_url(raw: Seq<char>) -> Option<Seq<char>> {
    let h = "http"@;
    if raw.len() == 0 || !(h.len() <= raw.len() && raw.subrange(0, h.len() as int) == h) {
        None
    } else {
        Some(replaced(replaced(raw, "{width}"@, "640"@), "{height}"@, "360"@))
    }
}

/// Fills the `{width}` and `{height}` placeholders of a thumbnail address.
pub fn resolve_url(raw: &str) -> (res: Option<String>)
    ensures
        res.is_some() == resolved_url(raw@).is_some(),
        res matches Some(u) ==> u@ == resolved_url(raw@).unwrap(),
{
    if raw.is_empty() || !starts_with(raw, "http") {
        return None;
    }
    proof {
        reveal_strlit("{width}");
        reveal_strlit("{height}");
    }
    let text = chars_of(raw);
    let w = replace_all(&text, &chars_of("{width}"), &chars_of("640"));
    let h = replace_all(&w, &chars_of("{height}"), &chars_of("360"));
    Some(string_of(&h))
}

/// The thumbnails already prepared for the terminal, by key, least recently
/// used first (storing or drawing one moves it last).
/// No key occurs twice, and at most `CACHE_CAPACITY` are kept.
pub struct ThumbnailCache<V> {
    entries: Vec<(String, V)>,
}

impl<V> View for ThumbnailCache<V> {
    type V = Seq<(Seq<char>, V)>;

    closed spec fn view(&self) -> Seq<(Seq<char>, V)> {
        self.entries@.map_values(|e: (String, V)| (e.0@, e.1))
    }
}

/// Whether `key` is a key of `entries`.
pub open spec fn has_key<V>(entries: Seq<(Seq<char>, V)>, key: Seq<char>) -> bool {
    exists|i: int| 0 <= i < entries.len() && entries[i].0 == key
}

/// The position of `key` among the entries (meaningful when it is there).
pub open spec fn key_index<V>(entries: Seq<(Seq<char>, V)>, key: Seq<char>) -> int {
    choose|i: int| 0 <= i < entries.len() && entries[i].0 == key
}

/// The entries after storing `value` under `key`, most recently used last:
/// an entry with that key is taken out and the pair added last; otherwise,
/// when the cache is full, the least recently used entry (the first) goes,
/// and the pair is added last.
pub open spec fn stored<V>(entries: Seq<(Seq<char>, V)>, key: Seq<char>, value: V) -> Seq<(Seq<char>, V)> {
    if has_key(entries, key) {
        entries.remove(key_index(entries, key)).push((key, value))
    } else if entries.len() >= CACHE_CAPACITY {
        entries.drop_first().push((key, value))
    } else {
        entries.push((key, value))
    }
}

/// No key occurs twice and the capacity is kept.
pub open spec fn cache_ok<V>(entries: Seq<(Seq<char>, V)>) -> bool {
    &&& entries.len() <= CACHE_CAPACITY
    &&& forall|i: int, j: int|
        0 <= i < entries.len() && 0 <= j < entries.len() && i != j ==> entries[i].0 != entries[j].0
}

proof fn lemma_view_of_update<V>(entries: Seq<(String, V)>, i: int, x: V)
    requires
        0 <= i < entries.len(),
    ensures
        entries.update(i, (entries[i].0, x)).map_values(|e: (String, V)| (e.0@, e.1))
            == entries.map_values(|e: (String, V)| (e.0@, e.1)).update(i, (entries[i].0@, x)),
{
    assert(entries.update(i, (entries[i].0, x)).map_values(|e: (String, V)| (e.0@, e.1))
        =~= entries.map_values(|e: (String, V)| (e.0@, e.1)).update(i, (entries[i].0@, x)));
}

impl<V> Default for ThumbnailCache<V> {
    /// An empty cache (see `new`).
    fn default() -> (res: Self)
        ensures
            res@ == Seq::<(Seq<char>, V)>::empty(),
            res.wf(),
    {
        Self::new()
    }
}

impl<V> ThumbnailCache<V> {
    /// The cache holds a consistent set of entries.
    pub open spec fn wf(&self) -> bool {
        cache_ok(self@)
    }

    /// An empty cache.
    pub fn new() -> (res: Self)
        ensures
            res@ == Seq::<(Seq<char>, V)>::empty(),
            res.wf(),
    {
        let res = ThumbnailCache { entries: Vec::new() };
        assert(res@ =~= Seq::<(Seq<char>, V)>::empty());
        res
    }

    fn position(&self, key: &str) -> (res: Option<usize>)
        ensures
            res.is_none() == !has_key(self@, key@),
            res matches Some(i) ==> i < self@.len() && self@[i as int].0 == key@,
    {
        let mut i: usize = 0;
        while i < self.entries.len()
            invariant
                i <= self.entries.len(),
                forall|j: int| 0 <= j < i ==> self@[j].0 != key@,
            decreases self.entries.len() - i,
        {
            if same_text(self.entries[i].0.as_str(), key) {
                assert(self@[i as int].0 == key@);
                return Some(i);
            }
            i = i + 1;
        }
        None
    }

    /// Whether a thumbnail is stored under `key`.
    pub fn contains(&self, key: &str) -> (res: bool)
        ensures
            res == has_key(self@, key@),
    {
        self.position(key).is_some()
    }

    /// The thumbnail stored under `key`, to draw it; the entry becomes the
    /// most recently used (it moves last).
    pub fn get_mut(&mut self, key: &str) -> (res: Option<&mut V>)
        requires
            old(self).wf(),
        ensures
            res.is_none() == !has_key(old(self)@, key@),
            res.is_none() ==> final(self)@ == old(self)@,
            res matches Some(v) ==> exists|i: int|
                0 <= i < old(self)@.len() && old(self)@[i].0 == key@ && *v == old(self)@[i].1
                    && final(self)@ == old(self)@.remove(i).push((key@, *final(v))),
    {
        match self.position(key) {
            Some(i) => {
                assert(self@[i as int].0 == key@);
                let ghost before = self.entries@;
                let e = self.entries.remove(i);
                self.entries.push(e);
                let ghost moved = self.entries@;
                assert(moved =~= before.remove(i as int).push(before[i as int]));
                assert(moved.map_values(|e: (String, V)| (e.0@, e.1)) =~= old(self)@.remove(i as int).push(
                    old(self)@[i as int],
                ));
                let last = self.entries.len() - 1;
                let r = &mut self.entries[last].1;
                proof {
                    lemma_view_of_update(moved, last as int, *final(r));
                    assert(moved.map_values(|e: (String, V)| (e.0@, e.1)).update(
                        last as int,
                        (moved[last as int].0@, *final(r)),
                    ) =~= old(self)@.remove(i as int).push((key@, *final(r))));
                }
                Some(r)
            },
            None => None,
        }
    }

    /// Stores `value` under `key` (see `stored`).
    pub fn insert(&mut self, key: String, value: V)
        requires
            old(self).wf(),
        ensures
            final(self)@ == stored(old(self)@, key@, value),
            final(self).wf(),
    {
        match self.position(key.as_str()) {
            Some(i) => {
                let ghost k = key@;
                self.entries.remove(i);
                self.entries.push((key, value));
                proof {
                    let j = key_index(old(self)@, k);
                    assert(old(self)@[i as int].0 == k);
                    assert(j == i);
                    assert(self@ =~= old(self)@.remove(i as int).push((k, value)));
                }
            },
            None => {
                let ghost k = key@;
                if self.entries.len() >= CACHE_CAPACITY {
                    self.entries.remove(0);
                    assert(self@ =~= old(self)@.drop_first());
                }
                self.entries.push((key, value));
                assert(self@ =~= stored(old(self)@, k, value));
            },
        }
    }
}

} // verus!
