//! Channels the user keeps in the saved list.

use vstd::prelude::*;

verus! {

/// A saved channel: its row id in the store and how Twitch names it.
#[derive(Debug)]
pub struct SavedChannel {
    pub id: i64,
    pub twitch_id: String,
    pub name: String,
    pub display_name: String,
}

/// What a saved channel holds, as text.
pub struct SavedChannelView {
    pub id: i64,
    pub twitch_id: Seq<char>,
    pub name: Seq<char>,
    pub display_name: Seq<char>,
}

impl View for SavedChannel {
    type V = SavedChannelView;

    open spec fn view(&self) -> SavedChannelView {
        SavedChannelView {
            id: self.id,
            twitch_id: self.twitch_id@,
            name: self.name@,
            display_name: self.display_name@,
        }
    }
}

impl Clone for SavedChannel {
    fn clone(&self) -> (res: Self)
        ensures
            res == *self,
    {
        SavedChannel {
            id: self.id,
            twitch_id: self.twitch_id.clone(),
            name: self.name.clone(),
            display_name: self.display_name.clone(),
        }
    }
}

} // verus!
