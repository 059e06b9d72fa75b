//! Properties that hold across the operations of the library.

use vstd::prelude::*;
use crate::app::{quality_name, AppView, FocusTarget, ModeView, QUALITY_COUNT};
use crate::control::{ActionView, bounded_chat, chat_takes, quality_position, quality_position_from, without_id, EventView, Key, CHAT_LIMIT};
use crate::db::SavedChannelView;
use crate::notify::{live_notice, new_live_notices};
use crate::thumb::{cache_ok, has_key, key_index, stored, thumb_key, CACHE_CAPACITY};
use crate::twitch::{find_by_name, with_live, ChannelView, ChatMessageView, GameView, VodView};
use crate::ui::format::group_thousands;
use crate::ui::chat::{
    first_match, join_words, lemma_first_match_bounds, lowercase, mentions, split_spaces, word_match_from, wrap_run,
    wrap_step, wrapped_lines, WrapState,
};
use vstd::utf8::encode_utf8;
use vstd::arithmetic::div_mod::{lemma_mod_multiples_vanish, lemma_mod_self_0, lemma_small_mod};

verus! {

/// Every way of moving the selection leaves it on an item of a non-empty
/// list; moving it back inside an empty list puts it at the start.
pub proof fn lemma_selection_stays_in_list<P>(v: AppView<P>, page: usize)
    ensures
        v.list_len() > 0 ==> v.stepped_down().selected_index < v.list_len(),
        v.list_len() > 0 ==> v.stepped_up().selected_index < v.list_len(),
        v.list_len() > 0 ==> v.paged_down(page).selected_index < v.list_len(),
        v.list_len() > 0 ==> v.at_bottom().selected_index < v.list_len(),
        v.list_len() > 0 ==> v.clamped().selected_index < v.list_len(),
        v.list_len() == 0 ==> v.clamped().selected_index == 0,
        v.selected_index < v.list_len() ==> v.paged_up(page).selected_index < v.list_len(),
{
}

/// Moving the selection down and then up (or up and then down) returns to
/// the item it was on.
pub proof fn lemma_step_down_up_inverse<P>(v: AppView<P>)
    requires
        v.selected_index < v.list_len(),
        v.list_len() <= usize::MAX,
    ensures
        v.stepped_down().stepped_up() == v,
        v.stepped_up().stepped_down() == v,
{
    let len = v.list_len() as int;
    let i = v.selected_index as int;
    lemma_mod_self_0(len);
    if i + 1 < len {
        lemma_small_mod((i + 1) as nat, len as nat);
        lemma_mod_multiples_vanish(1, i, len);
        lemma_small_mod(i as nat, len as nat);
        assert(((i + 1) % len + len - 1) % len == i);
    } else {
        assert((i + 1) % len == 0);
        lemma_small_mod((len - 1) as nat, len as nat);
        assert(((i + 1) % len + len - 1) % len == i);
    }
    if i > 0 {
        lemma_mod_multiples_vanish(1, i - 1, len);
        lemma_small_mod((i - 1) as nat, len as nat);
        assert((i + len - 1) % len == i - 1);
        lemma_small_mod(i as nat, len as nat);
        assert(((i + len - 1) % len + 1) % len == i);
    } else {
        lemma_small_mod((len - 1) as nat, len as nat);
        assert(((i + len - 1) % len + 1) % len == i);
    }
}

/// Passing the focus on three times comes back to the same pane, and
/// passing it back undoes passing it on.
pub proof fn lemma_focus_cycle<P>(v: AppView<P>)
    ensures
        v.focus_cycled().focus_cycled().focus_cycled() == v,
        v.focus_cycled().focus_cycled_back() == v,
        v.focus_cycled_back().focus_cycled() == v,
{
}

/// The chat never keeps more than its limit of lines when it did not before
/// a message arrived.
pub proof fn lemma_chat_stays_bounded<P>(v: AppView<P>, m: ChatMessageView)
    requires
        v.chat_messages.len() <= CHAT_LIMIT,
    ensures
        v.on_event::<()>(EventView::ChatMessage(m)).chat_messages.len() <= CHAT_LIMIT,
        v.on_event::<()>(EventView::ChatMessage(m)).chat_messages.last() == m,
{
    let s = v.chat_messages.push(m);
    assert(bounded_chat(s).last() == m);
}

/// No two neighbours of `h` are equal.
pub open spec fn no_repeats(h: Seq<Seq<char>>) -> bool {
    forall|i: int, j: int| 0 <= i && j == i + 1 && j < h.len() ==> #[trigger] h[i] != #[trigger] h[j]
}

/// No message is remembered twice in a row, and at most fifty are kept.
pub proof fn lemma_history_without_repeats<P>(v: AppView<P>, msg: Seq<char>)
    requires
        no_repeats(v.chat_history),
        v.chat_history.len() <= 50,
    ensures
        ({
            let h = v.history_with(msg);
            &&& no_repeats(h)
            &&& h.len() <= 50
            &&& h.len() > 0 && h.last() == msg
        }),
{
    let h = v.history_with(msg);
    let old_h = v.chat_history;
    if old_h.len() > 0 && old_h.last() == msg {
    } else if old_h.len() + 1 > 50 {
        let p = old_h.push(msg);
        assert forall|i: int, j: int| 0 <= i && j == i + 1 && j < h.len() implies #[trigger] h[i] != #[trigger] h[j] by {
            assert(h[i] == p[i + 1]);
            assert(h[j] == p[j + 1]);
        }
    } else {
    }
}

/// After a thumbnail is stored under a key, that key holds it, the cache
/// keeps its bound and holds every key at most once.
pub proof fn lemma_cache_store_then_find<V>(entries: Seq<(Seq<char>, V)>, key: Seq<char>, value: V)
    requires
        cache_ok(entries),
    ensures
        cache_ok(stored(entries, key, value)),
        has_key(stored(entries, key, value), key),
        forall|i: int|
            0 <= i < stored(entries, key, value).len() && stored(entries, key, value)[i].0 == key
                ==> stored(entries, key, value)[i].1 == value,
        stored(entries, key, value).len() <= CACHE_CAPACITY,
{
    let s = stored(entries, key, value);
    if has_key(entries, key) {
        let k = key_index(entries, key);
        let r = entries.remove(k);
        assert(s[s.len() - 1].0 == key);
        assert forall|i: int| 0 <= i < r.len() implies #[trigger] r[i] == entries[if i < k { i } else { i + 1 }] by {}
        assert forall|i: int, j: int| 0 <= i < s.len() && 0 <= j < s.len() && i != j implies s[i].0 != s[j].0 by {
            if i < s.len() - 1 {
                assert(s[i] == r[i]);
            }
            if j < s.len() - 1 {
                assert(s[j] == r[j]);
            }
        }
    } else if entries.len() >= CACHE_CAPACITY {
        assert(s[s.len() - 1].0 == key);
        assert forall|i: int, j: int| 0 <= i < s.len() && 0 <= j < s.len() && i != j implies s[i].0 != s[j].0 by {
            if i < s.len() - 1 && j < s.len() - 1 {
                assert(s[i] == entries[i + 1]);
                assert(s[j] == entries[j + 1]);
            } else if i < s.len() - 1 {
                assert(s[i] == entries[i + 1]);
            } else if j < s.len() - 1 {
                assert(s[j] == entries[j + 1]);
            }
        }
    } else {
        assert(s[s.len() - 1].0 == key);
    }
}

/// The characters of `s` other than commas.
pub open spec fn without_commas(s: Seq<char>) -> Seq<char> {
    s.filter(|c: char| c != ',')
}

/// Grouping digits by thousands only adds commas: without them, the digits
/// are back.
pub proof fn lemma_thousands_keep_digits(d: Seq<char>)
    requires
        forall|i: int| 0 <= i < d.len() ==> d[i] != ',',
    ensures
        without_commas(group_thousands(d)) == d,
    decreases d.len(),
{
    reveal(Seq::filter);
    if d.len() <= 3 {
        lemma_no_commas_filter(d);
    } else {
        let m = d.len() - 3;
        let a = d.subrange(0, m);
        let b = d.subrange(m, d.len() as int);
        lemma_thousands_keep_digits(a);
        lemma_no_commas_filter(b);
        Seq::<char>::filter_distributes_over_add(
            group_thousands(a) + seq![','],
            b,
            |c: char| c != ',',
        );
        Seq::<char>::filter_distributes_over_add(group_thousands(a), seq![','], |c: char| c != ',');
        assert(seq![','].filter(|c: char| c != ',') =~= Seq::<char>::empty()) by {
            reveal_with_fuel(Seq::filter, 2);
            assert(seq![','].drop_last() =~= Seq::<char>::empty());
        }
        assert(a + b =~= d);
    }
}

proof fn lemma_no_commas_filter(d: Seq<char>)
    requires
        forall|i: int| 0 <= i < d.len() ==> d[i] != ',',
    ensures
        d.filter(|c: char| c != ',') == d,
    decreases d.len(),
{
    reveal(Seq::filter);
    if d.len() > 0 {
        lemma_no_commas_filter(d.drop_last());
        assert(d.drop_last().push(d.last()) =~= d);
    } else {
        assert(d.filter(|c: char| c != ',') =~= d);
    }
}

/// Saving a channel and removing it again leaves the saved list as it was
/// without that channel.
pub proof fn lemma_save_then_remove(s: Seq<SavedChannelView>, c: SavedChannelView)
    ensures
        without_id(s.push(c), c.twitch_id) == without_id(s, c.twitch_id),
{
    assert(s.push(c).drop_last() =~= s);
}

proof fn lemma_quality_names_distinct(a: int, b: int)
    requires
        0 <= a < b < QUALITY_COUNT,
    ensures
        quality_name(a) != quality_name(b),
{
    reveal_strlit("best");
    reveal_strlit("1080p");
    reveal_strlit("720p");
    reveal_strlit("480p");
    reveal_strlit("360p");
    reveal_strlit("audio_only");
    assert(quality_name(a).len() != quality_name(b).len() || quality_name(a)[0] != quality_name(b)[0]
        || quality_name(a)[1] != quality_name(b)[1]);
}

proof fn lemma_position_from(i: int, j: int)
    requires
        0 <= j <= i < QUALITY_COUNT,
    ensures
        quality_position_from(quality_name(i), j as nat) == i,
    decreases i - j,
{
    if j < i {
        lemma_quality_names_distinct(j, i);
        lemma_position_from(i, j + 1);
    }
}

/// The quality picker opens at the configured quality when it is one of
/// those offered.
pub proof fn lemma_picker_starts_at_configured(i: int)
    requires
        0 <= i < QUALITY_COUNT,
    ensures
        quality_position(quality_name(i)) == i,
{
    lemma_position_from(i, 0);
}

/// In search mode, typing a character and erasing it gives back the query
/// (each edit asks for a new search).
pub proof fn lemma_search_type_then_erase<P>(v: AppView<P>, c: char, quality: Seq<char>, has_token: bool, login: Option<(Seq<char>, Seq<char>)>)
    requires
        v.mode is Search,
        !v.show_help,
        v.focus != FocusTarget::Chat,
    ensures
        v.on_key(Key::Char(c), quality, has_token, login).0.on_key(Key::Backspace, quality, has_token, login).0
            == v,
{
    let q = v.mode->query;
    assert(q.push(c).drop_last() =~= q);
}


/// The words of the lines, in order.
pub open spec fn flatten(ls: Seq<Seq<Seq<char>>>) -> Seq<Seq<char>>
    decreases ls.len(),
{
    if ls.len() == 0 {
        Seq::empty()
    } else {
        flatten(ls.drop_last()) + ls.last()
    }
}

proof fn lemma_wrap_run_keeps_words(words: Seq<Seq<char>>, fw: nat, mw: nat)
    ensures
        ({
            let st = wrap_run(words, fw, mw);
            &&& flatten(st.lines) + st.current == words
            &&& forall|i: int| 0 <= i < st.lines.len() ==> #[trigger] st.lines[i].len() > 0
            &&& st.current_len > 0 ==> st.current.len() > 0
        }),
    decreases words.len(),
{
    if words.len() == 0 {
        let st = wrap_run(words, fw, mw);
        assert(flatten(st.lines) + st.current =~= words);
    } else {
        let prev = words.drop_last();
        lemma_wrap_run_keeps_words(prev, fw, mw);
        let st0 = wrap_run(prev, fw, mw);
        let st = wrap_run(words, fw, mw);
        assert(st == wrap_step(st0, words.last(), fw, mw));
        let w = crate::ui::chat::text_width(words.last());
        let line_max = if st0.is_first { fw } else { mw };
        if st0.current_len > 0 && st0.current_len + 1 + w > line_max {
            let lines1 = st0.lines.push(st0.current);
            assert(lines1.drop_last() =~= st0.lines);
            assert(flatten(lines1) == flatten(st0.lines) + st0.current);
            assert(st.lines == lines1);
            assert(st.current =~= seq![words.last()]);
            assert(flatten(st.lines) + st.current =~= prev.push(words.last()));
            assert forall|i: int| 0 <= i < st.lines.len() implies #[trigger] st.lines[i].len() > 0 by {
                if i < st0.lines.len() {
                    assert(st.lines[i] == st0.lines[i]);
                }
            }
        } else {
            assert(st.lines == st0.lines);
            assert(st.current == st0.current.push(words.last()));
            assert(flatten(st.lines) + st.current =~= (flatten(st0.lines) + st0.current).push(words.last()));
        }
        assert(prev.push(words.last()) =~= words);
    }
}

proof fn lemma_join_split(s: Seq<char>)
    ensures
        join_words(split_spaces(s)) == s,
    decreases s.len(),
{
    if s.len() == 0 {
        assert(join_words(seq![Seq::<char>::empty()]) == Seq::<char>::empty());
    } else {
        let prev = s.drop_last();
        lemma_join_split(prev);
        crate::laws::lemma_split_not_empty(prev);
        let p = split_spaces(prev);
        if s.last() == ' ' {
            let q = p.push(Seq::<char>::empty());
            assert(q.drop_last() =~= p);
            assert(join_words(q) =~= s);
        } else {
            let q = p.update(p.len() - 1, p.last().push(s.last()));
            if p.len() == 1 {
                assert(join_words(q) =~= s);
            } else {
                assert(q.drop_last() =~= p.drop_last());
                assert(join_words(q) =~= join_words(p.drop_last()) + seq![' '] + p.last().push(s.last()));
                assert(join_words(p) == join_words(p.drop_last()) + seq![' '] + p.last());
                assert(s =~= prev.push(s.last()));
                assert(join_words(q) =~= s);
            }
        }
    }
}

/// `split_spaces` gives at least one piece.
pub proof fn lemma_split_not_empty(s: Seq<char>)
    ensures
        split_spaces(s).len() >= 1,
    decreases s.len(),
{
    if s.len() > 0 {
        lemma_split_not_empty(s.drop_last());
    }
}

proof fn lemma_join_concat(a: Seq<Seq<char>>, b: Seq<Seq<char>>)
    requires
        a.len() > 0,
        b.len() > 0,
    ensures
        join_words(a + b) == join_words(a) + seq![' '] + join_words(b),
    decreases b.len(),
{
    if b.len() == 1 {
        assert((a + b).drop_last() =~= a);
        assert(b[0] == b.last());
    } else {
        lemma_join_concat(a, b.drop_last());
        assert((a + b).drop_last() =~= a + b.drop_last());
        assert(join_words(a + b) =~= join_words(a) + seq![' '] + join_words(b));
    }
}

proof fn lemma_join_lines(ls: Seq<Seq<Seq<char>>>)
    requires
        ls.len() > 0,
        forall|i: int| 0 <= i < ls.len() ==> #[trigger] ls[i].len() > 0,
    ensures
        join_words(ls.map_values(|l: Seq<Seq<char>>| join_words(l))) == join_words(flatten(ls)),
    decreases ls.len(),
{
    let m = ls.map_values(|l: Seq<Seq<char>>| join_words(l));
    let prev = ls.drop_last();
    if ls.len() == 1 {
        assert(prev =~= Seq::<Seq<Seq<char>>>::empty());
        assert(flatten(ls) =~= ls[0]);
    } else {
        assert forall|i: int| 0 <= i < prev.len() implies #[trigger] prev[i].len() > 0 by {
            assert(prev[i] == ls[i]);
        }
        lemma_join_lines(prev);
        assert(m.drop_last() =~= prev.map_values(|l: Seq<Seq<char>>| join_words(l)));
        lemma_flatten_not_empty(prev);
        lemma_join_concat(flatten(prev), ls.last());
    }
}

proof fn lemma_flatten_not_empty(ls: Seq<Seq<Seq<char>>>)
    requires
        ls.len() > 0,
        forall|i: int| 0 <= i < ls.len() ==> #[trigger] ls[i].len() > 0,
    ensures
        flatten(ls).len() > 0,
{
    assert(ls[ls.len() - 1] == ls.last());
}

/// Wrapping a chat message loses no text: the wrapped lines joined with
/// spaces are the message.
pub proof fn lemma_wrapping_keeps_text(message: Seq<char>, first_width: nat, max_width: nat)
    ensures
        join_words(wrapped_lines(split_spaces(message), first_width, max_width)) == message,
{
    let words = split_spaces(message);
    lemma_split_not_empty(message);
    lemma_wrap_run_keeps_words(words, first_width, max_width);
    let st = wrap_run(words, first_width, max_width);
    let ls = if st.current.len() > 0 {
        st.lines.push(st.current)
    } else {
        st.lines
    };
    if st.current.len() > 0 {
        assert(ls.drop_last() =~= st.lines);
        assert(flatten(ls) == flatten(st.lines) + st.current);
        assert forall|i: int| 0 <= i < ls.len() implies #[trigger] ls[i].len() > 0 by {
            if i < st.lines.len() {
                assert(ls[i] == st.lines[i]);
            }
        }
    } else {
        assert(flatten(st.lines) + st.current =~= flatten(st.lines));
    }
    assert(flatten(ls) == words);
    if ls.len() == 0 {
        assert(flatten(ls) =~= Seq::<Seq<char>>::empty());
    }
    lemma_join_lines(ls);
    lemma_join_split(message);
}

/// A new broadcast of a channel gets a new thumbnail key: two live states of
/// the same channel with different start times never share a key.
pub proof fn lemma_new_broadcast_new_key(a: ChannelView, b: ChannelView)
    requires
        a.is_live,
        b.is_live,
        a.twitch_id == b.twitch_id,
        a.started_at is Some,
        b.started_at is Some,
        a.started_at != b.started_at,
    ensures
        thumb_key(a) != thumb_key(b),
{
    let p = a.twitch_id + "@"@;
    let ka = p + a.started_at.unwrap();
    let kb = p + b.started_at.unwrap();
    assert(ka.subrange(p.len() as int, ka.len() as int) =~= a.started_at.unwrap());
    assert(kb.subrange(p.len() as int, kb.len() as int) =~= b.started_at.unwrap());
}

/// No notice for a channel that was live at the last poll: when every live
/// channel's login is among those seen live before, nothing is sent.
pub proof fn lemma_no_notice_when_already_live(before: Seq<Seq<char>>, live: Seq<ChannelView>)
    requires
        forall|i: int| 0 <= i < live.len() ==> before.contains(#[trigger] live[i].name),
    ensures
        new_live_notices(before, live) == Seq::<(Seq<char>, Seq<char>)>::empty(),
    decreases live.len(),
{
    if live.len() > 0 {
        assert(before.contains(live[live.len() - 1].name));
        lemma_no_notice_when_already_live(before, live.drop_last());
    }
}

/// Polling again right after a poll, with the same channels live, sends no
/// notice: the logins kept from the first poll cover them all.
pub proof fn lemma_repoll_sends_nothing(live: Seq<ChannelView>)
    ensures
        new_live_notices(live.map_values(|c: ChannelView| c.name), live) == Seq::<(Seq<char>, Seq<char>)>::empty(),
{
    let names = live.map_values(|c: ChannelView| c.name);
    assert forall|i: int| 0 <= i < live.len() implies names.contains(#[trigger] live[i].name) by {
        assert(names[i] == live[i].name);
    }
    lemma_no_notice_when_already_live(names, live);
}

/// A channel that went live gets its notice: with nothing live before, each
/// live channel gets one, in order.
pub proof fn lemma_first_poll_notices_all(live: Seq<ChannelView>)
    ensures
        new_live_notices(Seq::empty(), live) == live.map_values(|c: ChannelView| live_notice(c)),
    decreases live.len(),
{
    if live.len() > 0 {
        lemma_first_poll_notices_all(live.drop_last());
        assert(!Seq::<Seq<char>>::empty().contains(live.last().name));
        assert(live.map_values(|c: ChannelView| live_notice(c)) =~= live.drop_last().map_values(
            |c: ChannelView| live_notice(c),
        ).push(live_notice(live.last())));
    } else {
        assert(live.map_values(|c: ChannelView| live_notice(c)) =~= Seq::<(Seq<char>, Seq<char>)>::empty());
    }
}

/// A page that arrives while a next page was asked for (a cursor is held) is
/// added after the items already listed; otherwise it replaces them. The
/// cursor becomes the one that came with the page, and loading ends.
pub proof fn lemma_next_page_appends<P, I>(
    v: AppView<P>,
    channels: Seq<ChannelView>,
    games: Seq<GameView>,
    vods: Seq<VodView>,
    cursor: Option<Seq<char>>,
)
    ensures
        v.on_event(EventView::<I>::ChannelsLoaded(channels, cursor)).channels == if v.pagination_cursor is Some {
            v.channels + channels
        } else {
            channels
        },
        v.on_event(EventView::<I>::CategoriesLoaded(games, cursor)).categories == if v.pagination_cursor is Some {
            v.categories + games
        } else {
            games
        },
        v.on_event(EventView::<I>::CategoryStreamsLoaded(channels, cursor)).category_streams
            == if v.pagination_cursor is Some {
            v.category_streams + channels
        } else {
            channels
        },
        v.on_event(EventView::<I>::SearchResults(channels, cursor)).search_results == if v.pagination_cursor is Some {
            v.search_results + channels
        } else {
            channels
        },
        v.on_event(EventView::<I>::VodsLoaded(vods, cursor)).vods == if v.pagination_cursor is Some {
            v.vods + vods
        } else {
            vods
        },
        v.on_event(EventView::<I>::ChannelsLoaded(channels, cursor)).pagination_cursor == cursor,
        !v.on_event(EventView::<I>::ChannelsLoaded(channels, cursor)).is_loading,
{
}

/// Marking the followed channels live keeps every channel, in order, with
/// its id and names; a channel is live after it when it was, or when one of
/// the live streams has its login.
pub proof fn lemma_merge_keeps_channels(followed: Seq<ChannelView>, live: Seq<ChannelView>)
    ensures
        ({
            let merged = followed.map_values(|c: ChannelView| with_live(c, live));
            &&& merged.len() == followed.len()
            &&& forall|i: int|
                0 <= i < followed.len() ==> {
                    &&& (#[trigger] merged[i]).twitch_id == followed[i].twitch_id
                    &&& merged[i].name == followed[i].name
                    &&& merged[i].display_name == followed[i].display_name
                    &&& merged[i].is_live == (followed[i].is_live || find_by_name(live, followed[i].name) is Some)
                }
        }),
{
}

/// Esc goes back: with no help overlay open and the chat input not
/// focused, it always returns to the saved channels (the quality picker
/// first starts the stream at the configured quality); in the chat input it
/// leaves the chat pane.
pub proof fn lemma_esc_goes_back<P>(
    v: AppView<P>,
    quality: Seq<char>,
    has_token: bool,
    login: Option<(Seq<char>, Seq<char>)>,
)
    ensures
        (!v.show_help && v.focus != FocusTarget::Chat ==> v.on_key(Key::Esc, quality, has_token, login).0.mode
            == ModeView::SavedChannels),
        (!v.show_help && !(v.mode is QualitySelect) && v.focus == FocusTarget::Chat ==> v.on_key(
            Key::Esc,
            quality,
            has_token,
            login,
        ).0.focus == FocusTarget::Browse),
        (!v.show_help && (v.mode is QualitySelect) ==> v.on_key(Key::Esc, quality, has_token, login).1
            == (ActionView::WatchStream { channel: v.mode->QualitySelect_channel_name, quality })),
{
}

/// Watching a channel joins its chat: the messages of another channel are
/// cleared and a connection is asked for; when its chat is already the one
/// joined, the messages stay and nothing is asked.
pub proof fn lemma_watching_switches_chat<P>(
    v: AppView<P>,
    ch: ChannelView,
    quality: Seq<char>,
    login: Option<(Seq<char>, Seq<char>)>,
)
    ensures
        (v.chat_channel == Some(ch.name) ==> v.open_picker(ch, quality, login).0.chat_messages == v.chat_messages
            && v.open_picker(ch, quality, login).1 == ActionView::Nothing),
        (v.chat_channel != Some(ch.name) ==> v.open_picker(ch, quality, login).0.chat_messages.len() == 0
            && v.open_picker(ch, quality, login).1 == (ActionView::ConnectChat { channel: ch.name, login })),
        (v.open_picker(ch, quality, login).0.mode is QualitySelect),
        v.open_picker(ch, quality, login).0.watching_channel == Some(ch),
{
}

/// The cache drops the least recently used thumbnail: a thumbnail just drawn
/// (moved last by `get_mut`) stays when a new one is stored into the full
/// cache, and the one that goes is the first, the least recently used.
pub proof fn lemma_used_thumbnail_survives<V>(entries: Seq<(Seq<char>, V)>, i: int, key: Seq<char>, value: V)
    requires
        cache_ok(entries),
        entries.len() == CACHE_CAPACITY,
        0 <= i < entries.len(),
        !has_key(entries, key),
    ensures
        ({
            let used = entries.remove(i).push(entries[i]);
            &&& has_key(stored(used, key, value), entries[i].0)
            &&& has_key(stored(used, key, value), key)
            &&& stored(used, key, value) == used.drop_first().push((key, value))
        }),
{
    let used = entries.remove(i).push(entries[i]);
    assert forall|j: int| 0 <= j < used.len() implies #[trigger] used[j].0 != key by {
        if j < used.len() - 1 {
            assert(used[j] == entries[if j < i { j } else { j + 1 }]);
        }
    }
    assert(!has_key(used, key));
    let s = stored(used, key, value);
    assert(s[s.len() - 2] == entries[i]);
    assert(s[s.len() - 1].0 == key);
}

/// Which thumbnails the cache keeps after storing one: storing under a key
/// it holds keeps the same keys; a new key is added, and when the cache was
/// full exactly one key goes, the first (least recently used) one.
pub proof fn lemma_cache_keys_after_store<V>(entries: Seq<(Seq<char>, V)>, key: Seq<char>, value: V)
    requires
        cache_ok(entries),
    ensures
        has_key(entries, key) ==> forall|k: Seq<char>| #[trigger]
            has_key(stored(entries, key, value), k) == has_key(entries, k),
        !has_key(entries, key) && entries.len() < CACHE_CAPACITY ==> forall|k: Seq<char>| #[trigger]
            has_key(stored(entries, key, value), k) == (has_key(entries, k) || k == key),
        !has_key(entries, key) && entries.len() >= CACHE_CAPACITY ==> {
            &&& has_key(entries, entries[0].0)
            &&& !has_key(stored(entries, key, value), entries[0].0)
            &&& forall|k: Seq<char>| #[trigger]
                has_key(stored(entries, key, value), k) == ((has_key(entries, k) && k != entries[0].0) || k == key)
        },
        stored(entries, key, value).len() <= CACHE_CAPACITY,
{
    lemma_cache_store_then_find(entries, key, value);
    let s = stored(entries, key, value);
    if has_key(entries, key) {
        let i = key_index(entries, key);
        let r = entries.remove(i);
        assert forall|j: int| 0 <= j < r.len() implies #[trigger] r[j] == entries[if j < i { j } else { j + 1 }] by {}
        assert forall|k: Seq<char>| #[trigger] has_key(s, k) == has_key(entries, k) by {
            if has_key(entries, k) {
                let j = choose|j: int| 0 <= j < entries.len() && entries[j].0 == k;
                if j == i {
                    assert(s[s.len() - 1].0 == k);
                } else if j < i {
                    assert(s[j] == entries[j]);
                } else {
                    assert(s[j - 1] == entries[j]);
                }
            }
            if has_key(s, k) {
                let j = choose|j: int| 0 <= j < s.len() && s[j].0 == k;
                if j == s.len() - 1 {
                    assert(entries[i].0 == k);
                } else {
                    assert(s[j] == r[j]);
                }
            }
        }
    } else if entries.len() >= CACHE_CAPACITY {
        assert(entries[0].0 == entries[0].0);
        assert(has_key(entries, entries[0].0));
        assert forall|k: Seq<char>| #[trigger]
            has_key(s, k) == ((has_key(entries, k) && k != entries[0].0) || k == key) by {
            if has_key(entries, k) && k != entries[0].0 {
                let j = choose|j: int| 0 <= j < entries.len() && entries[j].0 == k;
                assert(j > 0);
                assert(s[j - 1] == entries[j]);
            }
            if k == key {
                assert(s[s.len() - 1].0 == key);
            }
            if has_key(s, k) {
                let j = choose|j: int| 0 <= j < s.len() && s[j].0 == k;
                if j < s.len() - 1 {
                    assert(s[j] == entries[j + 1]);
                    assert(entries[j + 1].0 != entries[0].0);
                }
            }
        }
        assert(!has_key(s, entries[0].0));
    } else {
        assert forall|k: Seq<char>| #[trigger] has_key(s, k) == (has_key(entries, k) || k == key) by {
            if has_key(entries, k) {
                let j = choose|j: int| 0 <= j < entries.len() && entries[j].0 == k;
                assert(s[j] == entries[j]);
            }
            if k == key {
                assert(s[s.len() - 1].0 == key);
            }
            if has_key(s, k) {
                let j = choose|j: int| 0 <= j < s.len() && s[j].0 == k;
                if j < s.len() - 1 {
                    assert(s[j] == entries[j]);
                }
            }
        }
    }
}

/// Paging moves the selection by a page and stops at the ends: down, it
/// goes `page` items on but never past the last item; up, `page` items back
/// but never before the first. Nothing else changes.
pub proof fn lemma_paging_moves_by_a_page<P>(v: AppView<P>, page: usize)
    ensures
        v.list_len() > 0 ==> v.paged_down(page) == (AppView {
            selected_index: (if v.selected_index + page <= v.list_len() - 1 {
                v.selected_index + page
            } else {
                v.list_len() - 1
            }) as usize,
            ..v
        }),
        v.list_len() > 0 && v.list_len() <= usize::MAX && v.selected_index + page < v.list_len() ==> v.paged_down(
            page,
        ).selected_index == v.selected_index + page,
        v.list_len() == 0 ==> v.paged_down(page) == v,
        v.paged_up(page) == (AppView {
            selected_index: (if v.selected_index >= page {
                v.selected_index - page
            } else {
                0
            }) as usize,
            ..v
        }),
{
}

/// One step down or up moves the selection to the neighbouring item,
/// wrapping from the last to the first and from the first to the last.
pub proof fn lemma_steps_move_to_the_neighbour<P>(v: AppView<P>)
    requires
        v.selected_index < v.list_len(),
        v.list_len() <= usize::MAX,
    ensures
        v.stepped_down().selected_index == if v.selected_index + 1 < v.list_len() {
            v.selected_index + 1
        } else {
            0
        },
        v.stepped_up().selected_index == if v.selected_index > 0 {
            v.selected_index - 1
        } else {
            v.list_len() - 1
        },
        v.stepped_down() == (AppView { selected_index: v.stepped_down().selected_index, ..v }),
        v.stepped_up() == (AppView { selected_index: v.stepped_up().selected_index, ..v }),
{
    let len = v.list_len() as int;
    let i = v.selected_index as int;
    if i + 1 < len {
        lemma_small_mod((i + 1) as nat, len as nat);
    } else {
        lemma_mod_self_0(len);
    }
    if i > 0 {
        assert(i + len - 1 == (i - 1) + len);
        lemma_mod_multiples_vanish(1, i - 1, len);
        lemma_small_mod((i - 1) as nat, len as nat);
    } else {
        lemma_small_mod((len - 1) as nat, len as nat);
    }
}

/// With a page cursor held, `n` asks for the page after it, of the kind of
/// items listed: the saved channels' streams, the categories, the
/// category's streams or the channel's videos, each with `after` the cursor
/// held; and loading starts. Without a cursor it does nothing.
pub proof fn lemma_next_page_asks_after_the_cursor<P>(
    v: AppView<P>,
    quality: Seq<char>,
    has_token: bool,
    login: Option<(Seq<char>, Seq<char>)>,
)
    requires
        !v.show_help,
        !(v.mode is QualitySelect),
        !(v.mode is Search),
        v.focus != FocusTarget::Chat,
    ensures
        v.pagination_cursor is None ==> v.on_key(Key::Char('n'), quality, has_token, login) == (v, ActionView::Nothing),
        v.pagination_cursor is Some ==> v.on_key(Key::Char('n'), quality, has_token, login).0 == (AppView {
            is_loading: true,
            ..v
        }),
        (v.pagination_cursor is Some && v.mode is SavedChannels) ==> v.on_key(Key::Char('n'), quality, has_token, login).1
            == (ActionView::FetchSavedStreams { after: v.pagination_cursor }),
        (v.pagination_cursor is Some && v.mode is Categories) ==> v.on_key(Key::Char('n'), quality, has_token, login).1
            == (ActionView::FetchCategories { after: v.pagination_cursor }),
        (v.pagination_cursor is Some && v.mode is CategoryStreams) ==> v.on_key(
            Key::Char('n'),
            quality,
            has_token,
            login,
        ).1 == (ActionView::FetchCategoryStreams { game_id: v.mode->game_id, after: v.pagination_cursor }),
        (v.pagination_cursor is Some && v.mode is Vods) ==> v.on_key(Key::Char('n'), quality, has_token, login).1
            == (ActionView::FetchVods { user_id: v.mode->user_id, after: v.pagination_cursor }),
{
}

/// In the chat input, Up recalls the sent message before the one recalled
/// (the last one sent when none is), stopping at the first; Down recalls
/// the next one, and past the last clears the input. Nothing else changes.
pub proof fn lemma_chat_recall_steps<P>(
    v: AppView<P>,
    quality: Seq<char>,
    has_token: bool,
    login: Option<(Seq<char>, Seq<char>)>,
)
    requires
        !v.show_help,
        !(v.mode is QualitySelect),
        v.focus == FocusTarget::Chat,
        v.chat_history_index matches Some(i) ==> i < v.chat_history.len(),
        v.chat_history.len() <= usize::MAX,
    ensures
        ({
            let (w, a) = v.on_key(Key::Up, quality, has_token, login);
            &&& a == ActionView::Nothing
            &&& v.chat_history.len() == 0 ==> w == v
            &&& v.chat_history.len() > 0 ==> {
                let idx: int = match v.chat_history_index {
                    None => v.chat_history.len() - 1,
                    Some(i) => if i > 0 {
                        i - 1
                    } else {
                        0
                    },
                };
                &&& w.chat_history_index == Some(idx as usize)
                &&& w.chat_input == v.chat_history[idx]
                &&& w == (AppView { chat_history_index: w.chat_history_index, chat_input: w.chat_input, ..v })
            }
        }),
        ({
            let (w, a) = v.on_key(Key::Down, quality, has_token, login);
            &&& a == ActionView::Nothing
            &&& v.chat_history_index is None ==> w == v
            &&& (v.chat_history_index matches Some(i) && i + 1 < v.chat_history.len()) ==> w == (AppView {
                chat_history_index: Some((v.chat_history_index.unwrap() + 1) as usize),
                chat_input: v.chat_history[v.chat_history_index.unwrap() + 1],
                ..v
            })
            &&& (v.chat_history_index matches Some(i) && i + 1 >= v.chat_history.len()) ==> w == (AppView {
                chat_history_index: None,
                chat_input: Seq::empty(),
                ..v
            })
        }),
{
}

/// The state after pressing Up `k` times.
pub open spec fn ups<P>(
    v: AppView<P>,
    k: nat,
    quality: Seq<char>,
    has_token: bool,
    login: Option<(Seq<char>, Seq<char>)>,
) -> AppView<P>
    decreases k,
{
    if k == 0 {
        v
    } else {
        ups(v, (k - 1) as nat, quality, has_token, login).on_key(Key::Up, quality, has_token, login).0
    }
}

/// Pressing Up `k` times in the chat input, with no message recalled yet,
/// recalls the `k`-th message from the end (the first one once `k` reaches
/// the number sent).
pub proof fn lemma_repeated_up_recalls_back<P>(
    v: AppView<P>,
    k: nat,
    quality: Seq<char>,
    has_token: bool,
    login: Option<(Seq<char>, Seq<char>)>,
)
    requires
        !v.show_help,
        !(v.mode is QualitySelect),
        v.focus == FocusTarget::Chat,
        v.chat_history_index is None,
        v.chat_history.len() > 0,
        v.chat_history.len() <= usize::MAX,
        k > 0,
    ensures
        ({
            let idx: int = if k <= v.chat_history.len() {
                v.chat_history.len() - k
            } else {
                0
            };
            let w = ups(v, k, quality, has_token, login);
            &&& w.chat_history_index == Some(idx as usize)
            &&& w.chat_input == v.chat_history[idx]
            &&& w.chat_history == v.chat_history
            &&& w.focus == v.focus
            &&& w.mode == v.mode
            &&& w.show_help == v.show_help
        }),
    decreases k,
{
    if k > 1 {
        lemma_repeated_up_recalls_back(v, (k - 1) as nat, quality, has_token, login);
        let u = ups(v, (k - 1) as nat, quality, has_token, login);
        lemma_chat_recall_steps(u, quality, has_token, login);
    } else {
        assert(ups(v, 0, quality, has_token, login) == v);
        lemma_chat_recall_steps(v, quality, has_token, login);
    }
}

/// Whether byte `b` is an ASCII letter or digit.
pub open spec fn letter_or_digit(b: u8) -> bool {
    (48 <= b && b <= 57) || (65 <= b && b <= 90) || (97 <= b && b <= 122)
}

/// Whether `n` occurs in `h` at `i`.
pub open spec fn occurs_at(h: Seq<u8>, n: Seq<u8>, i: int) -> bool {
    0 <= i && i + n.len() <= h.len() && h.subrange(i, i + n.len()) == n
}

/// Whether the occurrence of `n` at `i` in `h` stands as a word: no ASCII
/// letter or digit right before or right after it.
pub open spec fn stands_alone(h: Seq<u8>, n: Seq<u8>, i: int) -> bool {
    &&& (i == 0 || !letter_or_digit(h[i - 1]))
    &&& (i + n.len() == h.len() || !letter_or_digit(h[i + n.len()]))
}

proof fn lemma_first_match_no_later_than(h: Seq<u8>, n: Seq<u8>, s: nat, i: int)
    requires
        s <= i,
        occurs_at(h, n, i),
    ensures
        first_match(h, n, s) matches Some(m) && s <= m <= i,
    decreases i - s,
{
    if !(h.subrange(s as int, s + n.len() as int) == n) {
        assert(s < i);
        lemma_first_match_no_later_than(h, n, s + 1, i);
    }
}

/// An occurrence of the name that stands as a word is found by the scan from
/// `s` when no occurrence overlapping it from the left starts at `s` or
/// later: whatever the neighbouring characters, as long as they are no
/// ASCII letters or digits.
pub proof fn lemma_word_occurrence_is_found(h: Seq<u8>, n: Seq<u8>, s: nat, i: int)
    requires
        n.len() > 0,
        s <= i,
        occurs_at(h, n, i),
        stands_alone(h, n, i),
        forall|j: int| s <= j < i && i < j + n.len() ==> !occurs_at(h, n, j),
    ensures
        word_match_from(h, n, s),
    decreases h.len() - s,
{
    lemma_first_match_no_later_than(h, n, s, i);
    lemma_first_match_bounds(h, n, s);
    let m = first_match(h, n, s).unwrap();
    if m < i {
        assert(occurs_at(h, n, m as int));
        let end = m + n.len();
        if !((m == 0 || !letter_or_digit(h[m - 1])) && (end == h.len() || !letter_or_digit(h[end as int]))) {
            assert(end <= i);
            lemma_word_occurrence_is_found(h, n, end as nat, i);
        }
    }
}

/// The scan finds only occurrences that stand as words.
pub proof fn lemma_word_match_stands_alone(h: Seq<u8>, n: Seq<u8>, s: nat)
    requires
        word_match_from(h, n, s),
    ensures
        exists|i: int| s <= i && occurs_at(h, n, i) && stands_alone(h, n, i),
    decreases h.len() - s,
{
    lemma_first_match_bounds(h, n, s);
    let m = first_match(h, n, s).unwrap();
    let end = m + n.len();
    if (m == 0 || !letter_or_digit(h[m - 1])) && (end == h.len() || !letter_or_digit(h[end as int])) {
        assert(occurs_at(h, n, m as int) && stands_alone(h, n, m as int));
    } else {
        lemma_word_match_stands_alone(h, n, end as nat);
    }
}

/// A chat message mentions the user when the user's name (both lowercased)
/// occurs in it with no ASCII letter or digit right before or after it, as
/// in "@alice are you there?" for "alice", provided no earlier occurrence
/// overlaps it; and it mentions the user only when some occurrence stands
/// so.
pub proof fn lemma_mentions_whole_words(message: Seq<char>, user: Seq<char>, i: int)
    ensures
        ({
            let h = encode_utf8(lowercase(message));
            let n = encode_utf8(lowercase(user));
            &&& (user.len() > 0 && n.len() > 0 && occurs_at(h, n, i) && stands_alone(h, n, i) && (forall|j: int|
                0 <= j < i && i < j + n.len() ==> !occurs_at(h, n, j))) ==> mentions(message, Some(user))
            &&& mentions(message, Some(user)) ==> exists|k: int| occurs_at(h, n, k) && stands_alone(h, n, k)
        }),
{
    let h = encode_utf8(lowercase(message));
    let n = encode_utf8(lowercase(user));
    if user.len() > 0 && n.len() > 0 && occurs_at(h, n, i) && stands_alone(h, n, i) && (forall|j: int|
        0 <= j < i && i < j + n.len() ==> !occurs_at(h, n, j)) {
        lemma_word_occurrence_is_found(h, n, 0, i);
    }
    if mentions(message, Some(user)) {
        lemma_word_match_stands_alone(h, n, 0);
    }
}

proof fn lemma_find_first_with_name(live: Seq<ChannelView>, name: Seq<char>, k: int)
    requires
        0 <= k < live.len(),
        live[k].name == name,
        forall|j: int| 0 <= j < k ==> live[j].name != name,
    ensures
        find_by_name(live, name) == Some(live[k]),
    decreases k,
{
    if k > 0 {
        let rest = live.subrange(1, live.len() as int);
        assert forall|j: int| 0 <= j < k - 1 implies rest[j].name != name by {
            assert(rest[j] == live[j + 1]);
        }
        lemma_find_first_with_name(rest, name, k - 1);
    }
}

proof fn lemma_find_none_with_name(live: Seq<ChannelView>, name: Seq<char>)
    requires
        forall|j: int| 0 <= j < live.len() ==> live[j].name != name,
    ensures
        find_by_name(live, name) is None,
    decreases live.len(),
{
    if live.len() > 0 {
        let rest = live.subrange(1, live.len() as int);
        assert forall|j: int| 0 <= j < rest.len() implies rest[j].name != name by {
            assert(rest[j] == live[j + 1]);
        }
        lemma_find_none_with_name(rest, name);
    }
}

/// Merging the followed channels with the live streams: a followed channel
/// whose login has a live stream becomes live and takes that stream's
/// title, game, viewer count and start time (from the first stream with
/// its login), keeping everything else; a channel with no live stream stays
/// as it was.
pub proof fn lemma_merge_takes_stream_info(followed: Seq<ChannelView>, live: Seq<ChannelView>)
    ensures
        ({
            let merged = followed.map_values(|c: ChannelView| with_live(c, live));
            &&& merged.len() == followed.len()
            &&& forall|i: int, k: int|
                #![trigger merged[i], live[k]]
                0 <= i < followed.len() && 0 <= k < live.len() && live[k].name == followed[i].name && (forall|j: int|
                    0 <= j < k ==> live[j].name != followed[i].name) ==> merged[i] == (ChannelView {
                    is_live: true,
                    title: live[k].title,
                    game_name: live[k].game_name,
                    viewer_count: live[k].viewer_count,
                    started_at: live[k].started_at,
                    ..followed[i]
                })
            &&& forall|i: int|
                0 <= i < followed.len() && (forall|j: int| 0 <= j < live.len() ==> live[j].name != followed[i].name)
                    ==> #[trigger] merged[i] == followed[i]
        }),
{
    let merged = followed.map_values(|c: ChannelView| with_live(c, live));
    assert forall|i: int, k: int|
        #![trigger merged[i], live[k]]
        0 <= i < followed.len() && 0 <= k < live.len() && live[k].name == followed[i].name && (forall|j: int|
            0 <= j < k ==> live[j].name != followed[i].name) implies merged[i] == (ChannelView {
        is_live: true,
        title: live[k].title,
        game_name: live[k].game_name,
        viewer_count: live[k].viewer_count,
        started_at: live[k].started_at,
        ..followed[i]
    }) by {
        lemma_find_first_with_name(live, followed[i].name, k);
    }
    assert forall|i: int|
        0 <= i < followed.len() && (forall|j: int| 0 <= j < live.len() ==> live[j].name != followed[i].name)
            implies #[trigger] merged[i] == followed[i] by {
        lemma_find_none_with_name(live, followed[i].name);
    }
}

/// Jumping to the bottom selects the last item (the first of an empty
/// list), and moving the selection back inside the list leaves an item of
/// the list selected as it was, and puts one past the end on the last item.
pub proof fn lemma_bottom_and_clamp<P>(v: AppView<P>)
    requires
        v.list_len() <= usize::MAX,
    ensures
        v.at_bottom() == (AppView {
            selected_index: (if v.list_len() > 0 {
                v.list_len() - 1
            } else {
                0
            }) as usize,
            ..v
        }),
        v.selected_index < v.list_len() ==> v.clamped() == v,
        v.list_len() > 0 && v.selected_index >= v.list_len() ==> v.clamped() == (AppView {
            selected_index: (v.list_len() - 1) as usize,
            ..v
        }),
        v.list_len() == 0 ==> v.clamped() == (AppView { selected_index: 0, ..v }),
{
}

} // verus!
