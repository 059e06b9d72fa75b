//! The chat pane: who is a bot, which color a name gets, how a message is
//! wrapped to the pane, and whether it mentions the user.

use vstd::prelude::*;
use vstd::string::StringSliceAdditionalSpecFns;
use vstd::utf8::encode_utf8;
use crate::text::{chars_of, decimal, push_decimal, push_str, string_of};
use crate::ui::help::spaces;

verus! {

/// The number of colors names are drawn in.
pub const NAME_COLOR_COUNT: usize = 12;

/// The hash of a name's bytes: each byte added to 31 times the hash so far,
/// modulo 2^32.
pub open spec fn name_hash(bytes: Seq<u8>) -> nat
    decreases bytes.len(),
{
    if bytes.len() == 0 {
        0
    } else {
        (name_hash(bytes.drop_last()) * 31 + bytes.last() as nat) % 4294967296
    }
}

/// Which of the name colors `name` is drawn in.
pub fn username_color_index(name: &str) -> (res: usize)
    ensures
        res == name_hash(name.spec_bytes()) % (NAME_COLOR_COUNT as nat),
        res < NAME_COLOR_COUNT,
{
    let bytes = name.as_bytes();
    let mut hash: u32 = 0;
    let mut i: usize = 0;
    while i < bytes.len()
        invariant
            bytes@ == name.spec_bytes(),
            i <= bytes@.len(),
            hash == name_hash(bytes@.subrange(0, i as int)),
        decreases bytes.len() - i,
    {
        assert(bytes@.subrange(0, i + 1).drop_last() =~= bytes@.subrange(0, i as int));
        hash = ((hash as u64 * 31 + bytes[i] as u64) % 4294967296) as u32;
        i = i + 1;
    }
    assert(bytes@.subrange(0, bytes@.len() as int) =~= bytes@);
    (hash as usize) % NAME_COLOR_COUNT
}

/// The chat bots that get a badge.
pub open spec fn is_bot(name: Seq<char>) -> bool {
    name == "nightbot"@ || name == "moobot"@ || name == "streamlabs"@ || name == "streamelements"@
        || name == "wizebot"@
}

/// The badge shown before a sender's name: "BOT" for the known chat bots.
pub fn user_badge(name: &str) -> (res: Option<&'static str>)
    ensures
        res.is_some() == is_bot(name@),
        res matches Some(b) ==> b@ == "BOT"@,
{
    let n = name.to_owned();
    if n == "nightbot".to_owned() || n == "moobot".to_owned() || n == "streamlabs".to_owned()
        || n == "streamelements".to_owned() || n == "wizebot".to_owned() {
        Some("BOT")
    } else {
        None
    }
}

/// Whether `c` is a control character (Unicode general category Cc:
/// U+0000 to U+001F and U+007F to U+009F), as `char::is_control` tells.
fn is_control(c: char) -> (res: bool)
    ensures
        res == (c as u32 <= 0x1f || (0x7f <= c as u32 && c as u32 <= 0x9f)),
{
    c <= '\u{1f}' || ('\u{7f}' <= c && c <= '\u{9f}')
}

/// The columns a character takes: none for a control character, two from
/// U+2E81 on (treated as wide), one otherwise.
pub open spec fn char_width(c: char) -> nat {
    if c as u32 <= 0x1f || (0x7f <= c as u32 && c as u32 <= 0x9f) {
        0
    } else if c as u32 > 0x2E80 {
        2
    } else {
        1
    }
}

/// The columns a text takes (an estimate: see `char_width`).
pub open spec fn text_width(s: Seq<char>) -> nat
    decreases s.len(),
{
    if s.len() == 0 {
        0
    } else {
        text_width(s.drop_last()) + char_width(s.last())
    }
}

proof fn lemma_text_width_bound(s: Seq<char>)
    ensures
        text_width(s) <= 2 * s.len(),
    decreases s.len(),
{
    if s.len() > 0 {
        lemma_text_width_bound(s.drop_last());
    }
}

fn chars_width(s: &Vec<char>) -> (res: usize)
    requires
        s@.len() <= usize::MAX / 2,
    ensures
        res == text_width(s@),
{
    let mut w: usize = 0;
    let mut i: usize = 0;
    while i < s.len()
        invariant
            s@.len() <= usize::MAX / 2,
            i <= s@.len(),
            w == text_width(s@.subrange(0, i as int)),
        decreases s.len() - i,
    {
        proof {
            assert(s@.subrange(0, i + 1).drop_last() =~= s@.subrange(0, i as int));
            lemma_text_width_bound(s@.subrange(0, i as int));
        }
        let c = s[i];
        let cw: usize = if is_control(c) {
            0
        } else if c as u32 > 0x2E80 {
            2
        } else {
            1
        };
        w = w + cw;
        i = i + 1;
    }
    assert(s@.subrange(0, s@.len() as int) =~= s@);
    w
}

/// The columns a text takes when printed (see `text_width`).
pub fn display_width(s: &str) -> (res: usize)
    requires
        s@.len() <= usize::MAX / 2,
    ensures
        res == text_width(s@),
{
    let cs = chars_of(s);
    chars_width(&cs)
}


/// What `str::to_lowercase` makes of a text (full Unicode lowercase mapping).
pub uninterp spec fn lowercase(s: Seq<char>) -> Seq<char>;

/// `str::to_lowercase`: the text in lowercase.
#[verifier::external_body]
fn to_lowercase(s: &str) -> (res: String)
    ensures
        res@ == lowercase(s@),
{
    s.to_lowercase()
}

/// `u8::is_ascii_alphanumeric`: an ASCII digit or letter.
pub open spec fn is_ascii_alnum(b: u8) -> bool {
    (48 <= b && b <= 57) || (65 <= b && b <= 90) || (97 <= b && b <= 122)
}

/// The first position at or after `from` where `n` occurs in `h`.
pub open spec fn first_match(h: Seq<u8>, n: Seq<u8>, from: nat) -> Option<nat>
    decreases h.len() + 1 - from,
{
    if from + n.len() > h.len() {
        None
    } else if h.subrange(from as int, from + n.len() as int) == n {
        Some(from)
    } else {
        first_match(h, n, from + 1)
    }
}

/// A match found from `from` on starts at `from` or later and lies within
/// the text.
pub proof fn lemma_first_match_bounds(h: Seq<u8>, n: Seq<u8>, from: nat)
    ensures
        first_match(h, n, from) matches Some(i) ==> from <= i && i + n.len() <= h.len()
            && h.subrange(i as int, i + n.len() as int) == n,
    decreases h.len() + 1 - from,
{
    if from + n.len() <= h.len() && h.subrange(from as int, from + n.len() as int) != n {
        lemma_first_match_bounds(h, n, from + 1);
    }
}

/// Whether `n` occurs in `h` from `start` on as a whole word. Occurrences are
/// looked at left to right without overlap; an occurrence counts when no
/// ASCII letter or digit of `h` touches it on either side.
pub open spec fn word_match_from(h: Seq<u8>, n: Seq<u8>, start: nat) -> bool
    decreases h.len() - start,
{
    if n.len() == 0 {
        false
    } else {
        match first_match(h, n, start) {
            None => false,
            Some(i) => {
                proof {
                    lemma_first_match_bounds(h, n, start);
                }
                let end = i + n.len();
                let before_ok = i == 0 || !is_ascii_alnum(h[i - 1]);
                let after_ok = end == h.len() || !is_ascii_alnum(h[end as int]);
                if before_ok && after_ok {
                    true
                } else {
                    word_match_from(h, n, end)
                }
            },
        }
    }
}

/// Whether a chat message mentions the user: the user's name, both
/// lowercased, occurs in the message as a word (see `word_match_from`).
pub open spec fn mentions(message: Seq<char>, username: Option<Seq<char>>) -> bool {
    match username {
        None => false,
        Some(u) => if u.len() == 0 {
            false
        } else {
            word_match_from(encode_utf8(lowercase(message)), encode_utf8(lowercase(u)), 0)
        },
    }
}

fn is_ascii_alphanumeric(b: u8) -> (res: bool)
    ensures
        res == is_ascii_alnum(b),
{
    (48 <= b && b <= 57) || (65 <= b && b <= 90) || (97 <= b && b <= 122)
}

fn find_from(h: &[u8], n: &[u8], from: usize) -> (res: Option<usize>)
    ensures
        res.is_some() == first_match(h@, n@, from as nat).is_some(),
        res matches Some(i) ==> first_match(h@, n@, from as nat) == Some(i as nat),
{
    let mut i: usize = from;
    while i <= h.len() && n.len() <= h.len() - i
        invariant
            from <= i,
            first_match(h@, n@, from as nat) == first_match(h@, n@, i as nat),
        decreases h.len() - i,
    {
        let mut j: usize = 0;
        let mut same = true;
        while j < n.len()
            invariant
                i + n.len() <= h.len(),
                j <= n.len(),
                same == (forall|k: int| 0 <= k < j ==> h@[i + k] == n@[k]),
            decreases n.len() - j,
        {
            if h[i + j] != n[j] {
                same = false;
            }
            j = j + 1;
        }
        if same {
            assert(h@.subrange(i as int, i + n.len()) =~= n@);
            return Some(i);
        } else {
            proof {
                let k = choose|k: int| 0 <= k < n@.len() && h@[i + k] != n@[k];
                assert(h@.subrange(i as int, i + n@.len())[k] != n@[k]);
            }
        }
        i = i + 1;
    }
    None
}

/// Whether `message` mentions the user `username` (see `mentions`).
pub fn mentions_user(message: &str, username: Option<&str>) -> (res: bool)
    ensures
        res == mentions(
            message@,
            match username {
                Some(u) => Some(u@),
                None => None,
            },
        ),
{
    let user = match username {
        Some(u) => u,
        None => {
            return false;
        },
    };
    if user.is_empty() {
        return false;
    }
    let needle_text = to_lowercase(user);
    let hay_text = to_lowercase(message);
    let needle_str = needle_text.as_str();
    let hay_str = hay_text.as_str();
    let needle = needle_str.as_bytes();
    let hay = hay_str.as_bytes();
    assert(needle@ == encode_utf8(lowercase(user@)));
    assert(hay@ == encode_utf8(lowercase(message@)));
    if needle.len() == 0 {
        return false;
    }
    let mut start: usize = 0;
    let ghost expected = mentions(
        message@,
        match username {
            Some(u) => Some(u@),
            None => None,
        },
    );
    assert(expected == word_match_from(hay@, needle@, 0));
    while start <= hay.len()
        invariant
            needle@.len() > 0,
            expected == mentions(
                message@,
                match username {
                    Some(u) => Some(u@),
                    None => None,
                },
            ),
            expected == word_match_from(hay@, needle@, start as nat),
        decreases hay.len() - start,
    {
        proof {
            lemma_first_match_bounds(hay@, needle@, start as nat);
        }
        match find_from(hay, needle, start) {
            None => {
                assert(!word_match_from(hay@, needle@, start as nat));
                return false;
            },
            Some(i) => {
                let end = i + needle.len();
                let before_ok = i == 0 || !is_ascii_alphanumeric(hay[i - 1]);
                let after_ok = end == hay.len() || !is_ascii_alphanumeric(hay[end]);
                if before_ok && after_ok {
                    assert(word_match_from(hay@, needle@, start as nat));
                    return true;
                }
                start = end;
            },
        }
    }
    false
}


/// The pieces of `s` between spaces, as `str::split(' ')` gives them: at
/// least one, possibly empty.
pub open spec fn split_spaces(s: Seq<char>) -> Seq<Seq<char>>
    decreases s.len(),
{
    if s.len() == 0 {
        seq![Seq::empty()]
    } else {
        let p = split_spaces(s.drop_last());
        if s.last() == ' ' {
            p.push(Seq::empty())
        } else {
            p.update(p.len() - 1, p.last().push(s.last()))
        }
    }
}

proof fn lemma_split_nonempty(s: Seq<char>)
    ensures
        split_spaces(s).len() >= 1,
    decreases s.len(),
{
    if s.len() > 0 {
        lemma_split_nonempty(s.drop_last());
    }
}

/// The characters the words take with one separator each.
pub open spec fn consumed(words: Seq<Seq<char>>) -> nat
    decreases words.len(),
{
    if words.len() == 0 {
        0
    } else {
        consumed(words.drop_last()) + words.last().len() + 1
    }
}

proof fn lemma_split_consumed(s: Seq<char>)
    ensures
        consumed(split_spaces(s)) == s.len() + 1,
    decreases s.len(),
{
    if s.len() == 0 {
        let e = seq![Seq::<char>::empty()];
        assert(e.drop_last() =~= Seq::<Seq<char>>::empty());
        assert(consumed(e) == consumed(e.drop_last()) + e.last().len() + 1);
    } else {
        lemma_split_consumed(s.drop_last());
        lemma_split_nonempty(s.drop_last());
        let p = split_spaces(s.drop_last());
        assert(consumed(p) == consumed(p.drop_last()) + p.last().len() + 1);
        if s.last() != ' ' {
            let q = p.update(p.len() - 1, p.last().push(s.last()));
            assert(q.drop_last() =~= p.drop_last());
            assert(consumed(q) == consumed(q.drop_last()) + q.last().len() + 1);
        } else {
            let q = p.push(Seq::<char>::empty());
            assert(q.drop_last() =~= p);
            assert(consumed(q) == consumed(q.drop_last()) + q.last().len() + 1);
        }
    }
}

proof fn lemma_consumed_prefix(words: Seq<Seq<char>>, k: int)
    requires
        0 <= k <= words.len(),
    ensures
        consumed(words.subrange(0, k)) <= consumed(words),
    decreases words.len() - k,
{
    if k < words.len() {
        lemma_consumed_prefix(words, k + 1);
        let a = words.subrange(0, k + 1);
        assert(a.drop_last() =~= words.subrange(0, k));
        assert(consumed(a) == consumed(a.drop_last()) + a.last().len() + 1);
    } else {
        assert(words.subrange(0, k) =~= words);
    }
}

/// Words joined with single spaces.
pub open spec fn join_words(ws: Seq<Seq<char>>) -> Seq<char>
    decreases ws.len(),
{
    if ws.len() == 0 {
        Seq::empty()
    } else if ws.len() == 1 {
        ws[0]
    } else {
        join_words(ws.drop_last()) + seq![' '] + ws.last()
    }
}

/// Where greedy wrapping stands after some words: the finished lines, the
/// words of the line being filled and its width, and whether it is the
/// first line (which is narrower).
pub struct WrapState {
    pub lines: Seq<Seq<Seq<char>>>,
    pub current: Seq<Seq<char>>,
    pub current_len: nat,
    pub is_first: bool,
}

/// One more word: it starts a new line when the line being filled is not
/// empty and the word, after a space, would pass the line's width.
pub open spec fn wrap_step(st: WrapState, word: Seq<char>, first_width: nat, max_width: nat) -> WrapState {
    let w = text_width(word);
    let line_max = if st.is_first {
        first_width
    } else {
        max_width
    };
    let st1 = if st.current_len > 0 && st.current_len + 1 + w > line_max {
        WrapState { lines: st.lines.push(st.current), current: Seq::empty(), current_len: 0, is_first: false }
    } else {
        st
    };
    WrapState {
        current_len: (if st1.current_len > 0 {
            st1.current_len + 1
        } else {
            st1.current_len
        }) + w,
        current: st1.current.push(word),
        ..st1
    }
}

/// Greedy wrapping of `words`, the first line `first_width` wide and the
/// others `max_width`.
pub open spec fn wrap_run(words: Seq<Seq<char>>, first_width: nat, max_width: nat) -> WrapState
    decreases words.len(),
{
    if words.len() == 0 {
        WrapState { lines: Seq::empty(), current: Seq::empty(), current_len: 0, is_first: true }
    } else {
        wrap_step(wrap_run(words.drop_last(), first_width, max_width), words.last(), first_width, max_width)
    }
}

/// The lines greedy wrapping makes of `words`, each its words joined by spaces.
pub open spec fn wrapped_lines(words: Seq<Seq<char>>, first_width: nat, max_width: nat) -> Seq<Seq<char>> {
    let st = wrap_run(words, first_width, max_width);
    let ls = if st.current.len() > 0 {
        st.lines.push(st.current)
    } else {
        st.lines
    };
    let ls2 = if ls.len() == 0 {
        seq![Seq::empty()]
    } else {
        ls
    };
    ls2.map_values(|l: Seq<Seq<char>>| join_words(l))
}

/// The bytes the chat line prefix takes: "[badge] " and "sender: ".
pub open spec fn prefix_bytes(badge: Option<Seq<char>>, sender: Seq<char>) -> nat {
    (match badge {
        Some(b) => encode_utf8(b).len() + 3,
        None => 0,
    }) + encode_utf8(sender).len() + 2
}

/// The lines with every line after the first indented by `n` spaces.
pub open spec fn indented(ls: Seq<Seq<char>>, n: nat) -> Seq<Seq<char>> {
    Seq::new(
        ls.len(),
        |i: int|
            if i == 0 {
                ls[i]
            } else {
                spaces(n) + ls[i]
            },
    )
}

/// How a chat message is laid out in a pane `max_width` columns wide: none
/// when the pane is narrower than ten columns or the prefix leaves no room
/// on the first line (the message then follows the prefix unwrapped);
/// otherwise the message wrapped to the width left after the prefix, the
/// first line following the prefix and the others indented by the prefix's
/// width, so that the text of every line starts in the same column.
pub open spec fn chat_layout(badge: Option<Seq<char>>, sender: Seq<char>, message: Seq<char>, max_width: nat) -> Option<Seq<Seq<char>>> {
    let prefix = prefix_bytes(badge, sender);
    let first_width: nat = if max_width > prefix {
        (max_width - prefix) as nat
    } else {
        0
    };
    if first_width == 0 || max_width < 10 {
        None
    } else {
        Some(indented(wrapped_lines(split_spaces(message), first_width, first_width), prefix))
    }
}

/// A line of `n` spaces.
fn space_text(n: usize) -> (res: String)
    ensures
        res@ == spaces(n as nat),
{
    let mut out: Vec<char> = Vec::new();
    let mut i: usize = 0;
    while i < n
        invariant
            i <= n,
            out@ == spaces(i as nat),
        decreases n - i,
    {
        out.push(' ');
        i = i + 1;
    }
    string_of(&out)
}

/// The lines with every line after the first indented (see `indented`).
fn indent_rest(lines: Vec<String>, n: usize) -> (res: Vec<String>)
    ensures
        crate::twitch::texts(res@) == indented(crate::twitch::texts(lines@), n as nat),
{
    let pad = space_text(n);
    let mut out: Vec<String> = Vec::new();
    let mut i: usize = 0;
    while i < lines.len()
        invariant
            i <= lines.len(),
            pad@ == spaces(n as nat),
            crate::twitch::texts(out@) == indented(crate::twitch::texts(lines@), n as nat).subrange(0, i as int),
        decreases lines.len() - i,
    {
        let ghost before = crate::twitch::texts(out@);
        let line = if i == 0 {
            lines[i].clone()
        } else {
            pad.clone().concat(lines[i].as_str())
        };
        out.push(line);
        assert(crate::twitch::texts(out@) =~= before.push(line@));
        i = i + 1;
        assert(crate::twitch::texts(out@) =~= indented(crate::twitch::texts(lines@), n as nat).subrange(0, i as int));
    }
    assert(indented(crate::twitch::texts(lines@), n as nat).subrange(0, i as int) =~= indented(
        crate::twitch::texts(lines@),
        n as nat,
    ));
    out
}

/// The words of a list of character lists.
pub open spec fn word_views(v: Seq<Vec<char>>) -> Seq<Seq<char>> {
    v.map_values(|w: Vec<char>| w@)
}

fn split_on_spaces(s: &Vec<char>) -> (res: Vec<Vec<char>>)
    ensures
        word_views(res@) == split_spaces(s@),
{
    let mut pieces: Vec<Vec<char>> = Vec::new();
    let mut cur: Vec<char> = Vec::new();
    let mut i: usize = 0;
    while i < s.len()
        invariant
            i <= s.len(),
            word_views(pieces@).push(cur@) == split_spaces(s@.subrange(0, i as int)),
        decreases s.len() - i,
    {
        let ghost before = word_views(pieces@).push(cur@);
        assert(s@.subrange(0, i + 1).drop_last() =~= s@.subrange(0, i as int));
        if s[i] == ' ' {
            let mut done: Vec<char> = Vec::new();
            std::mem::swap(&mut done, &mut cur);
            pieces.push(done);
            assert(word_views(pieces@).push(cur@) =~= before.push(Seq::empty()));
        } else {
            let ghost old_cur = cur@;
            cur.push(s[i]);
            assert(word_views(pieces@).push(cur@) =~= before.update(before.len() - 1, old_cur.push(s@[i as int])));
        }
        i = i + 1;
    }
    assert(s@.subrange(0, s@.len() as int) =~= s@);
    pieces.push(cur);
    pieces
}

fn join_with_spaces(ws: &Vec<Vec<char>>) -> (res: String)
    ensures
        res@ == join_words(word_views(ws@)),
{
    let mut out: Vec<char> = Vec::new();
    let mut i: usize = 0;
    while i < ws.len()
        invariant
            i <= ws.len(),
            out@ == join_words(word_views(ws@.subrange(0, i as int))),
        decreases ws.len() - i,
    {
        let ghost before = out@;
        assert(word_views(ws@.subrange(0, i + 1)).drop_last() =~= word_views(ws@.subrange(0, i as int)));
        if i > 0 {
            out.push(' ');
        }
        let mut w = ws[i].clone();
        out.append(&mut w);
        proof {
            let vs = word_views(ws@.subrange(0, i + 1));
            assert(vs.last() == ws@[i as int]@);
            if i == 0 {
                assert(out@ =~= vs[0]);
            } else {
                assert(out@ =~= before + seq![' '] + vs.last());
            }
        }
        i = i + 1;
    }
    assert(ws@.subrange(0, ws@.len() as int) =~= ws@);
    string_of(&out)
}

/// Lays a chat message out in a pane `max_width` columns wide (see
/// `chat_layout`).
pub fn wrap_chat_text(badge: Option<&str>, sender: &str, message: &str, max_width: usize) -> (res: Option<Vec<String>>)
    requires
        message@.len() <= usize::MAX / 4,
    ensures
        res.is_some() == chat_layout(
            match badge {
                Some(b) => Some(b@),
                None => None,
            },
            sender@,
            message@,
            max_width as nat,
        ).is_some(),
        res matches Some(lines) ==> crate::twitch::texts(lines@) == chat_layout(
            match badge {
                Some(b) => Some(b@),
                None => None,
            },
            sender@,
            message@,
            max_width as nat,
        ).unwrap(),
{
    let badge_len: Option<usize> = match badge {
        Some(b) => b.as_bytes().len().checked_add(3),
        None => Some(0),
    };
    let prefix = match badge_len {
        Some(l) => match l.checked_add(sender.as_bytes().len()) {
            Some(m) => m.checked_add(2),
            None => None,
        },
        None => None,
    };
    let prefix_len: usize = match prefix {
        Some(p) => p,
        None => {
            return None;
        },
    };
    let first_width: usize = if max_width > prefix_len {
        max_width - prefix_len
    } else {
        0
    };
    if first_width == 0 || max_width < 10 {
        return None;
    }
    let text = chars_of(message);
    let words = split_on_spaces(&text);
    proof {
        lemma_split_consumed(message@);
    }
    let ghost ws = split_spaces(message@);
    let ghost fw = first_width as nat;
    let body_width = first_width;
    let ghost mw = body_width as nat;
    let ghost bv = match badge {
        Some(b) => Some(b@),
        None => None,
    };
    assert(prefix_len == prefix_bytes(bv, sender@));
    let mut lines: Vec<String> = Vec::new();
    let mut current: Vec<Vec<char>> = Vec::new();
    let mut current_len: usize = 0;
    let mut is_first = true;
    let mut k: usize = 0;
    assert(words@.subrange(0, 0) =~= Seq::<Vec<char>>::empty());
    assert(word_views(current@) =~= Seq::<Seq<char>>::empty());
    while k < words.len()
        invariant
            word_views(words@) == ws,
            consumed(ws) == message@.len() + 1,
            message@.len() <= usize::MAX / 4,
            k <= words.len(),
            fw == first_width,
            mw == body_width,
            body_width == first_width,
            prefix_len == prefix_bytes(bv, sender@),
            max_width > prefix_len,
            first_width == max_width - prefix_len,
            ({
                let st = wrap_run(ws.subrange(0, k as int), fw, mw);
                &&& crate::twitch::texts(lines@) == st.lines.map_values(|l: Seq<Seq<char>>| join_words(l))
                &&& word_views(current@) == st.current
                &&& current_len == st.current_len
                &&& is_first == st.is_first
            }),
            current_len <= 3 * consumed(ws.subrange(0, k as int)),
        decreases words.len() - k,
    {
        proof {
            lemma_consumed_prefix(ws, k + 1);
            assert(ws.subrange(0, k + 1).drop_last() =~= ws.subrange(0, k as int));
            lemma_text_width_bound(ws[k as int]);
            assert(ws.subrange(0, k + 1).last() == ws[k as int]);
        }
        let w = chars_width(&words[k]);
        let line_max = if is_first {
            first_width
        } else {
            body_width
        };
        if current_len > 0 && current_len + 1 + w > line_max {
            let ghost before = crate::twitch::texts(lines@);
            let line = join_with_spaces(&current);
            lines.push(line);
            assert(crate::twitch::texts(lines@) =~= before.push(join_words(word_views(current@))));
            current = Vec::new();
            current_len = 0;
            is_first = false;
            assert(word_views(current@) =~= Seq::<Seq<char>>::empty());
        }
        if current_len > 0 {
            current_len = current_len + 1;
        }
        current_len = current_len + w;
        let ghost cv = word_views(current@);
        current.push(words[k].clone());
        assert(word_views(current@) =~= cv.push(ws[k as int]));
        k = k + 1;
    }
    assert(ws.subrange(0, k as int) =~= ws);
    let ghost st = wrap_run(ws, fw, mw);
    if current.len() > 0 {
        let ghost before = crate::twitch::texts(lines@);
        let line = join_with_spaces(&current);
        lines.push(line);
        assert(crate::twitch::texts(lines@) =~= before.push(join_words(st.current)));
    }
    if lines.len() == 0 {
        lines.push(String::new());
        assert(crate::twitch::texts(lines@) =~= seq![Seq::<Seq<char>>::empty()].map_values(
            |l: Seq<Seq<char>>| join_words(l),
        ));
    }
    assert(crate::twitch::texts(lines@) =~= wrapped_lines(ws, fw, mw));
    let res = indent_rest(lines, prefix_len);
    assert(crate::twitch::texts(res@) == chat_layout(bv, sender@, message@, max_width as nat).unwrap());
    Some(res)
}

/// The title of the chat pane: the number of lines once there are more than
/// fifty, a plain title while there are fewer, and how to connect while
/// there are no messages.
pub open spec fn chat_title_text(total_lines: nat, messages: nat) -> Seq<char> {
    if total_lines > 50 {
        " Chat · "@ + decimal(total_lines) + " lines "@
    } else if messages > 0 {
        " Chat "@
    } else {
        " Chat — press Enter on a stream to connect "@
    }
}

/// The title of the chat pane (see `chat_title_text`), for `messages`
/// messages that take `total_lines` lines.
pub fn chat_title(total_lines: usize, messages: usize) -> (res: String)
    ensures
        res@ == chat_title_text(total_lines as nat, messages as nat),
{
    if total_lines > 50 {
        let mut out: Vec<char> = Vec::new();
        push_str(&mut out, " Chat · ");
        push_decimal(&mut out, total_lines as u64);
        push_str(&mut out, " lines ");
        string_of(&out)
    } else if messages > 0 {
        String::from_str(" Chat ")
    } else {
        String::from_str(" Chat — press Enter on a stream to connect ")
    }
}

/// The message the chat list keeps in view: the last one (the first when
/// there is none), however many lines the messages take in the `height`
/// rows of the list.
pub fn last_visible(total_lines: usize, height: usize, messages: usize) -> (res: usize)
    ensures
        res == if messages > 0 { messages - 1 } else { 0 },
{
    messages.saturating_sub(1)
}

} // verus!
