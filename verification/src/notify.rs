//! Desktop notices for channels that went live.

use vstd::prelude::*;
use crate::text::same_text;
use crate::twitch::{texts, Channel, ChannelView};

verus! {

/// A desktop notice: its title and body.
#[derive(Debug)]
pub struct Notice {
    pub title: String,
    pub body: String,
}

/// The notice for a channel that went live: "<name> is LIVE", and the game
/// and title of the stream, as far as they are known.
pub open spec fn live_notice(ch: ChannelView) -> (Seq<char>, Seq<char>) {
    (
        ch.display_name + " is LIVE"@,
        match (ch.game_name, ch.title) {
            (Some(g), Some(t)) => g + " - "@ + t,
            (Some(g), None) => g,
            (None, Some(t)) => t,
            (None, None) => Seq::empty(),
        },
    )
}

/// The notices for the channels of `live` that were not live before, in order.
pub open spec fn new_live_notices(before: Seq<Seq<char>>, live: Seq<ChannelView>) -> Seq<(Seq<char>, Seq<char>)>
    decreases live.len(),
{
    if live.len() == 0 {
        Seq::empty()
    } else {
        let rest = new_live_notices(before, live.drop_last());
        if before.contains(live.last().name) {
            rest
        } else {
            rest.push(live_notice(live.last()))
        }
    }
}

fn contains_text(v: &Vec<String>, s: &String) -> (res: bool)
    ensures
        res == texts(v@).contains(s@),
{
    let mut i: usize = 0;
    while i < v.len()
        invariant
            i <= v.len(),
            forall|j: int| 0 <= j < i ==> v@[j]@ != s@,
        decreases v.len() - i,
    {
        if same_text(v[i].as_str(), s.as_str()) {
            assert(texts(v@)[i as int] == s@);
            return true;
        }
        i = i + 1;
    }
    assert(!texts(v@).contains(s@)) by {
        if texts(v@).contains(s@) {
            let j = choose|j: int| 0 <= j < texts(v@).len() && texts(v@)[j] == s@;
            assert(v@[j]@ == s@);
        }
    }
    false
}

fn notice_for(ch: &Channel) -> (res: Notice)
    ensures
        (res.title@, res.body@) == live_notice(ch@),
{
    let title = ch.display_name.clone().concat(" is LIVE");
    let body = match (&ch.game_name, &ch.title) {
        (Some(g), Some(t)) => g.clone().concat(" - ").concat(t.as_str()),
        (Some(g), None) => g.clone(),
        (None, Some(t)) => t.clone(),
        (None, None) => String::new(),
    };
    Notice { title, body }
}

/// The notices to send after a poll: one for each channel of `live` whose
/// login is not among `previously_live`.
pub fn live_notifications(previously_live: &Vec<String>, live: &Vec<Channel>) -> (res: Vec<Notice>)
    ensures
        res@.map_values(|n: Notice| (n.title@, n.body@)) == new_live_notices(
            texts(previously_live@),
            live@.map_values(|c: Channel| c@),
        ),
{
    let mut out: Vec<Notice> = Vec::new();
    let mut i: usize = 0;
    while i < live.len()
        invariant
            i <= live.len(),
            out@.map_values(|n: Notice| (n.title@, n.body@)) == new_live_notices(
                texts(previously_live@),
                live@.subrange(0, i as int).map_values(|c: Channel| c@),
            ),
        decreases live.len() - i,
    {
        let ghost before = out@.map_values(|n: Notice| (n.title@, n.body@));
        let ghost chs = live@.subrange(0, i + 1).map_values(|c: Channel| c@);
        assert(chs.drop_last() =~= live@.subrange(0, i as int).map_values(|c: Channel| c@));
        assert(chs.last() == live@[i as int]@);
        if !contains_text(previously_live, &live[i].name) {
            let n = notice_for(&live[i]);
            out.push(n);
            assert(out@.map_values(|n: Notice| (n.title@, n.body@)) =~= before.push(live_notice(live@[i as int]@)));
        }
        i = i + 1;
    }
    assert(live@.subrange(0, live@.len() as int) =~= live@);
    out
}

/// The logins of the channels found live, to compare the next poll with.
pub fn live_logins(live: &Vec<Channel>) -> (res: Vec<String>)
    ensures
        texts(res@) == live@.map_values(|c: Channel| c@.name),
{
    let mut out: Vec<String> = Vec::new();
    let mut i: usize = 0;
    while i < live.len()
        invariant
            i <= live.len(),
            texts(out@) == live@.subrange(0, i as int).map_values(|c: Channel| c@.name),
        decreases live.len() - i,
    {
        let ghost before = texts(out@);
        let nm = live[i].name.clone();
        out.push(nm);
        assert(texts(out@) =~= before.push(live@[i as int]@.name));
        assert(live@.subrange(0, i + 1).map_values(|c: Channel| c@.name) =~= live@.subrange(0, i as int).map_values(|c: Channel| c@.name).push(live@[i as int]@.name));
        i = i + 1;
    }
    assert(live@.subrange(0, live@.len() as int) =~= live@);
    out
}

} // verus!
