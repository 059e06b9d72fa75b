//! What a key press or a finished background task does to the client
//! state, and what outside work it asks for. The terminal loop performs the
//! work and hands the results back as events.

use vstd::prelude::*;
use crate::app::{quality_name, quality_option, App, AppMode, AppView, FocusTarget, ModeView, QUALITY_COUNT};
use crate::config::Config;
use crate::text::{same_text, string_pop, string_push};
use crate::twitch::auth::{irc_token, Auth};
use crate::db::{SavedChannel, SavedChannelView};
use crate::thumb::{cache_key, has_key, thumb_key};
use crate::twitch::{opt_text, Channel, ChannelView, ChatMessage, ChatMessageView, Game, GameView, Vod, VodView};
use crate::app::channel_views;
use crate::ui::help::HELP_LINE_COUNT;

verus! {

/// A key as the client distinguishes them.
#[derive(Debug, Clone, Copy, PartialEq, Eq, Structural)]
pub enum Key {
    Char(char),
    Enter,
    Esc,
    Backspace,
    Up,
    Down,
    Tab,
    BackTab,
    PageUp,
    PageDown,
    Other,
}

/// Outside work that a key asks for.
#[derive(Debug)]
pub enum Action {
    Nothing,
    /// An error message was just set; its display time starts now.
    ShowError,
    /// Play a live stream in the player.
    WatchStream { channel: String, quality: String },
    /// Play a video in the player.
    WatchVod { vod_id: String, quality: String },
    /// Join a channel's chat, with a login and token or anonymously.
    ConnectChat { channel: String, login: Option<(String, String)> },
    /// Send a chat message.
    SendChat { channel: String, message: String },
    /// Save the channel if it is not saved, remove it if it is.
    ToggleSave { twitch_id: String, name: String, display_name: String },
    /// Fetch which saved channels are live.
    FetchSavedStreams { after: Option<String> },
    /// Fetch the followed channels and which of them are live.
    FetchFollowed,
    /// Fetch the top categories.
    FetchCategories { after: Option<String> },
    /// Fetch the live streams of a category.
    FetchCategoryStreams { game_id: String, after: Option<String> },
    /// Fetch the videos of a channel.
    FetchVods { user_id: String, after: Option<String> },
    /// Search channels (after a short pause, dropped if another search follows).
    Search { query: String },
}

/// What an action holds, as text.
pub enum ActionView {
    Nothing,
    ShowError,
    WatchStream { channel: Seq<char>, quality: Seq<char> },
    WatchVod { vod_id: Seq<char>, quality: Seq<char> },
    ConnectChat { channel: Seq<char>, login: Option<(Seq<char>, Seq<char>)> },
    SendChat { channel: Seq<char>, message: Seq<char> },
    ToggleSave { twitch_id: Seq<char>, name: Seq<char>, display_name: Seq<char> },
    FetchSavedStreams { after: Option<Seq<char>> },
    FetchFollowed,
    FetchCategories { after: Option<Seq<char>> },
    FetchCategoryStreams { game_id: Seq<char>, after: Option<Seq<char>> },
    FetchVods { user_id: Seq<char>, after: Option<Seq<char>> },
    Search { query: Seq<char> },
}

/// The text of an optional login and token.
pub open spec fn login_text(l: Option<(String, String)>) -> Option<(Seq<char>, Seq<char>)> {
    match l {
        Some((u, t)) => Some((u@, t@)),
        None => None,
    }
}

impl View for Action {
    type V = ActionView;

    open spec fn view(&self) -> ActionView {
        match self {
            Action::Nothing => ActionView::Nothing,
            Action::ShowError => ActionView::ShowError,
            Action::WatchStream { channel, quality } => ActionView::WatchStream {
                channel: channel@,
                quality: quality@,
            },
            Action::WatchVod { vod_id, quality } => ActionView::WatchVod {
                vod_id: vod_id@,
                quality: quality@,
            },
            Action::ConnectChat { channel, login } => ActionView::ConnectChat {
                channel: channel@,
                login: login_text(*login),
            },
            Action::SendChat { channel, message } => ActionView::SendChat {
                channel: channel@,
                message: message@,
            },
            Action::ToggleSave { twitch_id, name, display_name } => ActionView::ToggleSave {
                twitch_id: twitch_id@,
                name: name@,
                display_name: display_name@,
            },
            Action::FetchSavedStreams { after } => ActionView::FetchSavedStreams {
                after: opt_text(*after),
            },
            Action::FetchFollowed => ActionView::FetchFollowed,
            Action::FetchCategories { after } => ActionView::FetchCategories {
                after: opt_text(*after),
            },
            Action::FetchCategoryStreams { game_id, after } => ActionView::FetchCategoryStreams {
                game_id: game_id@,
                after: opt_text(*after),
            },
            Action::FetchVods { user_id, after } => ActionView::FetchVods {
                user_id: user_id@,
                after: opt_text(*after),
            },
            Action::Search { query } => ActionView::Search { query: query@ },
        }
    }
}

/// The login and token for chat, as `Auth::chat_login` gives them.
pub open spec fn chat_login_of(auth: Auth) -> Option<(Seq<char>, Seq<char>)> {
    match (auth.username, auth.oauth_token) {
        (Some(u), Some(t)) => if u@.len() > 0 {
            Some((u@, irc_token(t@)))
        } else {
            None
        },
        _ => None,
    }
}

/// The index of quality `q` in the list offered, counting from `i`; the first
/// (best) when it is not offered.
pub open spec fn quality_position_from(q: Seq<char>, i: nat) -> nat
    decreases QUALITY_COUNT - i,
{
    if i >= QUALITY_COUNT {
        0
    } else if quality_name(i as int) == q {
        i
    } else {
        quality_position_from(q, i + 1)
    }
}

/// The index of quality `q` in the list offered; the first when it is not offered.
pub open spec fn quality_position(q: Seq<char>) -> nat {
    quality_position_from(q, 0)
}

/// The index of `quality` in the list offered; the first (best) when it is not offered.
pub fn quality_index_of(quality: &str) -> (res: usize)
    ensures
        res as nat == quality_position(quality@),
        res < QUALITY_COUNT,
{
    let mut i: usize = 0;
    while i < QUALITY_COUNT
        invariant
            i <= QUALITY_COUNT,
            quality_position(quality@) == quality_position_from(quality@, i as nat),
        decreases QUALITY_COUNT - i,
    {
        if same_text(quality_option(i), quality) {
            return i;
        }
        i = i + 1;
    }
    0
}

/// The message shown when the followed channels need a token.
pub open spec fn oauth_required_text() -> Seq<char> {
    "OAuth required. Set token in ~/.config/twitch-tui/config.toml"@
}

/// Whether the chat input takes `key` when the chat pane has the focus.
pub open spec fn chat_takes(key: Key) -> bool {
    match key {
        Key::Esc | Key::Enter | Key::Backspace | Key::Up | Key::Down | Key::Char(_) => true,
        _ => false,
    }
}

impl<P> AppView<P> {
    /// Keys while the help overlay is open: close it, or scroll it.
    pub open spec fn help_key(self, key: Key) -> (Self, ActionView) {
        let max = self.help_max_scroll;
        let v = match key {
            Key::Char('?') | Key::Esc | Key::Char('q') => AppView { show_help: false, ..self },
            Key::Char('j') | Key::Down => AppView {
                help_scroll: if self.help_scroll + 1 < max {
                    (self.help_scroll + 1) as u16
                } else {
                    max
                },
                ..self
            },
            Key::Char('k') | Key::Up => AppView {
                help_scroll: if self.help_scroll > 0 {
                    (self.help_scroll - 1) as u16
                } else {
                    0
                },
                ..self
            },
            Key::Char('g') => AppView { help_scroll: 0, ..self },
            Key::Char('G') => AppView { help_scroll: max, ..self },
            _ => self,
        };
        (v, ActionView::Nothing)
    }

    /// Back to the saved channels, first item selected.
    pub open spec fn back_to_saved(self) -> Self {
        AppView { mode: ModeView::SavedChannels, ..self }.with_index(0)
    }

    /// Keys while the quality picker is open: move in it, or start playing,
    /// with the quality chosen (Enter) or the configured one (Esc).
    pub open spec fn quality_key(self, key: Key, quality: Seq<char>) -> (Self, ActionView) {
        match self.mode {
            ModeView::QualitySelect { channel_name, channel_display_name, quality_index } => {
                match key {
                    Key::Esc => (
                        self.back_to_saved(),
                        ActionView::WatchStream { channel: channel_name, quality: quality },
                    ),
                    Key::Char('j') | Key::Down => (
                        if quality_index + 1 < QUALITY_COUNT {
                            AppView {
                                mode: ModeView::QualitySelect {
                                    channel_name,
                                    channel_display_name,
                                    quality_index: (quality_index + 1) as usize,
                                },
                                ..self
                            }
                        } else {
                            self
                        },
                        ActionView::Nothing,
                    ),
                    Key::Char('k') | Key::Up => (
                        if quality_index > 0 {
                            AppView {
                                mode: ModeView::QualitySelect {
                                    channel_name,
                                    channel_display_name,
                                    quality_index: (quality_index - 1) as usize,
                                },
                                ..self
                            }
                        } else {
                            self
                        },
                        ActionView::Nothing,
                    ),
                    Key::Enter => (
                        self.back_to_saved(),
                        ActionView::WatchStream {
                            channel: channel_name,
                            quality: quality_name(quality_index as int),
                        },
                    ),
                    _ => (self, ActionView::Nothing),
                }
            },
            _ => (self, ActionView::Nothing),
        }
    }

    /// The sent-message history after remembering `msg`: not twice in a row,
    /// and only the last fifty.
    pub open spec fn history_with(self, msg: Seq<char>) -> Seq<Seq<char>> {
        if self.chat_history.len() > 0 && self.chat_history.last() == msg {
            self.chat_history
        } else if self.chat_history.len() + 1 > 50 {
            self.chat_history.push(msg).drop_first()
        } else {
            self.chat_history.push(msg)
        }
    }

    /// Keys the chat input takes: edit the message, send it, recall earlier
    /// ones, or leave the chat pane.
    pub open spec fn chat_key(self, key: Key) -> (Self, ActionView) {
        match key {
            Key::Esc => (
                AppView { focus: FocusTarget::Browse, chat_history_index: None, ..self },
                ActionView::Nothing,
            ),
            Key::Enter => if self.chat_input.len() == 0 {
                (self, ActionView::Nothing)
            } else if self.chat_connected && self.chat_channel.is_some() {
                (
                    AppView {
                        chat_history: self.history_with(self.chat_input),
                        chat_input: Seq::empty(),
                        chat_history_index: None,
                        ..self
                    },
                    ActionView::SendChat {
                        channel: self.chat_channel.unwrap(),
                        message: self.chat_input,
                    },
                )
            } else {
                (
                    AppView { chat_input: Seq::empty(), chat_history_index: None, ..self },
                    ActionView::Nothing,
                )
            },
            Key::Backspace => (
                AppView {
                    chat_input: if self.chat_input.len() > 0 {
                        self.chat_input.drop_last()
                    } else {
                        self.chat_input
                    },
                    ..self
                },
                ActionView::Nothing,
            ),
            Key::Up => if self.chat_history.len() > 0 {
                let idx: usize = match self.chat_history_index {
                    None => (self.chat_history.len() - 1) as usize,
                    Some(i) => if i > 0 {
                        (i - 1) as usize
                    } else {
                        0
                    },
                };
                (
                    AppView {
                        chat_history_index: Some(idx),
                        chat_input: self.chat_history[idx as int],
                        ..self
                    },
                    ActionView::Nothing,
                )
            } else {
                (self, ActionView::Nothing)
            },
            Key::Down => match self.chat_history_index {
                Some(i) => if i + 1 < self.chat_history.len() {
                    (
                        AppView {
                            chat_history_index: Some((i + 1) as usize),
                            chat_input: self.chat_history[i + 1],
                            ..self
                        },
                        ActionView::Nothing,
                    )
                } else {
                    (
                        AppView { chat_history_index: None, chat_input: Seq::empty(), ..self },
                        ActionView::Nothing,
                    )
                },
                None => (self, ActionView::Nothing),
            },
            Key::Char(c) => (AppView { chat_input: self.chat_input.push(c), ..self }, ActionView::Nothing),
            _ => (self, ActionView::Nothing),
        }
    }

    /// Join the chat of `channel` unless it is the one already joined; the
    /// messages of the previous chat are dropped.
    pub open spec fn join_chat(self, channel: Seq<char>, login: Option<(Seq<char>, Seq<char>)>) -> (Self, ActionView) {
        if self.chat_channel == Some(channel) {
            (self, ActionView::Nothing)
        } else {
            (
                AppView { chat_messages: Seq::empty(), chat_connected: false, ..self },
                ActionView::ConnectChat { channel, login },
            )
        }
    }

    /// Open the quality picker for channel `ch` at the configured quality
    /// and join its chat.
    pub open spec fn open_picker(self, ch: ChannelView, quality: Seq<char>, login: Option<(Seq<char>, Seq<char>)>) -> (Self, ActionView) {
        AppView {
            watching_channel: Some(ch),
            mode: ModeView::QualitySelect {
                channel_name: ch.name,
                channel_display_name: ch.display_name,
                quality_index: quality_position(quality) as usize,
            },
            ..self
        }.join_chat(ch.name, login)
    }

    /// Keys in search mode: edit the query (each edit searches again),
    /// move in the results, pick one, or leave.
    pub open spec fn search_key(self, key: Key, quality: Seq<char>, login: Option<(Seq<char>, Seq<char>)>) -> (Self, ActionView) {
        match self.mode {
            ModeView::Search { query } => match key {
                Key::Esc => (
                    AppView { pagination_cursor: None, ..self.back_to_saved() },
                    ActionView::Nothing,
                ),
                Key::Enter => match self.selected_channel() {
                    Some(ch) => self.open_picker(ch, quality, login),
                    None => (self, ActionView::Nothing),
                },
                Key::Backspace => {
                    let q = if query.len() > 0 {
                        query.drop_last()
                    } else {
                        query
                    };
                    (AppView { mode: ModeView::Search { query: q }, ..self }, ActionView::Search { query: q })
                },
                Key::Up => (self.stepped_up(), ActionView::Nothing),
                Key::Down => (self.stepped_down(), ActionView::Nothing),
                Key::Char(c) => {
                    let q = query.push(c);
                    (AppView { mode: ModeView::Search { query: q }, ..self }, ActionView::Search { query: q })
                },
                Key::Tab => (self.focus_cycled(), ActionView::Nothing),
                _ => (self, ActionView::Nothing),
            },
            _ => (self, ActionView::Nothing),
        }
    }

    /// Enter outside the overlays: open a category, pick a channel to watch,
    /// or play a video.
    pub open spec fn enter_key(self, quality: Seq<char>, login: Option<(Seq<char>, Seq<char>)>) -> (Self, ActionView) {
        match self.mode {
            ModeView::Categories => if self.selected_index < self.categories.len() {
                let g = self.categories[self.selected_index as int];
                (
                    AppView {
                        mode: ModeView::CategoryStreams { game_id: g.id, game_name: g.name },
                        pagination_cursor: None,
                        is_loading: true,
                        ..self
                    }.with_index(0),
                    ActionView::FetchCategoryStreams { game_id: g.id, after: None },
                )
            } else {
                (self, ActionView::Nothing)
            },
            ModeView::SavedChannels | ModeView::Followed | ModeView::CategoryStreams { .. } => {
                match self.selected_channel() {
                    Some(ch) => self.open_picker(ch, quality, login),
                    None => (self, ActionView::Nothing),
                }
            },
            ModeView::Vods { .. } => if self.selected_index < self.vods.len() {
                (
                    self,
                    ActionView::WatchVod {
                        vod_id: self.vods[self.selected_index as int].id,
                        quality: quality,
                    },
                )
            } else {
                (self, ActionView::Nothing)
            },
            _ => (self, ActionView::Nothing),
        }
    }

    /// Fetch again what the browse pane lists (nothing to fetch: loading ends).
    pub open spec fn refreshed(self) -> (Self, ActionView) {
        let idle = AppView { is_loading: false, ..self };
        match self.mode {
            ModeView::SavedChannels => if self.saved_channels.len() == 0 {
                (idle, ActionView::Nothing)
            } else {
                (self, ActionView::FetchSavedStreams { after: None })
            },
            ModeView::Followed => (self, ActionView::FetchFollowed),
            ModeView::Categories => (self, ActionView::FetchCategories { after: None }),
            ModeView::CategoryStreams { game_id, .. } => (
                self,
                ActionView::FetchCategoryStreams { game_id, after: None },
            ),
            ModeView::Search { query } => if query.len() > 0 {
                (self, ActionView::Search { query })
            } else {
                (idle, ActionView::Nothing)
            },
            ModeView::Vods { user_id, .. } => (self, ActionView::FetchVods { user_id, after: None }),
            ModeView::QualitySelect { .. } => (idle, ActionView::Nothing),
        }
    }

    /// Fetch the next page of the list, when there is one.
    pub open spec fn next_page(self) -> (Self, ActionView) {
        match self.pagination_cursor {
            None => (self, ActionView::Nothing),
            Some(c) => {
                let a = match self.mode {
                    ModeView::SavedChannels => ActionView::FetchSavedStreams { after: Some(c) },
                    ModeView::Categories => ActionView::FetchCategories { after: Some(c) },
                    ModeView::CategoryStreams { game_id, .. } => ActionView::FetchCategoryStreams {
                        game_id,
                        after: Some(c),
                    },
                    ModeView::Vods { user_id, .. } => ActionView::FetchVods { user_id, after: Some(c) },
                    ModeView::Search { query } => ActionView::Search { query },
                    _ => ActionView::Nothing,
                };
                (AppView { is_loading: true, ..self }, a)
            },
        }
    }

    /// Switch the browse pane to `mode`, first item selected, no page cursor.
    pub open spec fn switched_to(self, mode: ModeView) -> Self {
        AppView { mode, pagination_cursor: None, ..self }.with_index(0)
    }

    /// Keys in the browse, detail and chat panes that no input takes.
    pub open spec fn global_key(self, key: Key, quality: Seq<char>, has_token: bool, login: Option<(Seq<char>, Seq<char>)>) -> (Self, ActionView) {
        match key {
            Key::Char('q') => (AppView { should_quit: true, ..self }, ActionView::Nothing),
            Key::Char('?') => (AppView { show_help: true, ..self }, ActionView::Nothing),
            Key::Tab => (self.focus_cycled(), ActionView::Nothing),
            Key::BackTab => (self.focus_cycled_back(), ActionView::Nothing),
            Key::Char('j') | Key::Down => (self.stepped_down(), ActionView::Nothing),
            Key::Char('k') | Key::Up => (self.stepped_up(), ActionView::Nothing),
            Key::Char('g') => (self.with_index(0), ActionView::Nothing),
            Key::Char('G') => (self.at_bottom(), ActionView::Nothing),
            Key::PageDown => (self.paged_down(10), ActionView::Nothing),
            Key::PageUp => (self.paged_up(10), ActionView::Nothing),
            Key::Enter => self.enter_key(quality, login),
            Key::Char('s') => (self, match self.selected_channel() {
                Some(ch) => ActionView::ToggleSave {
                    twitch_id: ch.twitch_id,
                    name: ch.name,
                    display_name: ch.display_name,
                },
                None => ActionView::Nothing,
            }),
            Key::Char('c') => (
                AppView { is_loading: true, ..self.switched_to(ModeView::Categories) },
                ActionView::FetchCategories { after: None },
            ),
            Key::Char('f') => if has_token {
                (
                    AppView { is_loading: true, ..self.switched_to(ModeView::Followed) },
                    ActionView::FetchFollowed,
                )
            } else {
                (
                    AppView { error_message: Some(oauth_required_text()), ..self },
                    ActionView::ShowError,
                )
            },
            Key::Char('/') => (
                AppView {
                    search_results: Seq::empty(),
                    ..self.switched_to(ModeView::Search { query: Seq::empty() })
                },
                ActionView::Nothing,
            ),
            Key::Char('v') => match self.selected_channel() {
                Some(ch) => (
                    AppView {
                        is_loading: true,
                        ..self.switched_to(ModeView::Vods { channel_name: ch.display_name, user_id: ch.twitch_id })
                    },
                    ActionView::FetchVods { user_id: ch.twitch_id, after: None },
                ),
                None => (self, ActionView::Nothing),
            },
            Key::Esc => (self.switched_to(ModeView::SavedChannels), ActionView::Nothing),
            Key::Char('r') => AppView {
                pagination_cursor: None,
                is_loading: true,
                ..self
            }.refreshed(),
            Key::Char('n') => self.next_page(),
            _ => (self, ActionView::Nothing),
        }
    }

    /// A key press: the overlays first, then the chat input, then the search
    /// input, then the keys of the panes.
    pub open spec fn on_key(self, key: Key, quality: Seq<char>, has_token: bool, login: Option<(Seq<char>, Seq<char>)>) -> (Self, ActionView) {
        if self.show_help {
            self.help_key(key)
        } else if self.mode is QualitySelect {
            self.quality_key(key, quality)
        } else if self.focus == FocusTarget::Chat && chat_takes(key) {
            self.chat_key(key)
        } else if self.mode is Search {
            self.search_key(key, quality, login)
        } else {
            self.global_key(key, quality, has_token, login)
        }
    }
}


impl<P> App<P> {
    fn help_key(&mut self, key: Key) -> (res: Action)
        requires
            old(self).wf(),
        ensures
            (final(self)@, res@) == old(self)@.help_key(key),
            final(self).wf(),
    {
        let max: u16 = self.help_max_scroll;
        match key {
            Key::Char('?') | Key::Esc | Key::Char('q') => {
                self.show_help = false;
            },
            Key::Char('j') | Key::Down => {
                self.help_scroll = if self.help_scroll + 1 < max {
                    self.help_scroll + 1
                } else {
                    max
                };
            },
            Key::Char('k') | Key::Up => {
                self.help_scroll = if self.help_scroll > 0 {
                    self.help_scroll - 1
                } else {
                    0
                };
            },
            Key::Char('g') => {
                self.help_scroll = 0;
            },
            Key::Char('G') => {
                self.help_scroll = max;
            },
            _ => {},
        }
        Action::Nothing
    }

    fn quality_key(&mut self, key: Key, quality: &String) -> (res: Action)
        requires
            old(self).wf(),
        ensures
            (final(self)@, res@) == old(self)@.quality_key(key, quality@),
            final(self).wf(),
    {
        let (name, display, qi) = match &self.mode {
            AppMode::QualitySelect { channel_name, channel_display_name, quality_index } => (
                channel_name.clone(),
                channel_display_name.clone(),
                *quality_index,
            ),
            _ => {
                return Action::Nothing;
            },
        };
        match key {
            Key::Esc => {
                self.mode = AppMode::SavedChannels;
                self.selected_index = 0;
                Action::WatchStream { channel: name, quality: quality.clone() }
            },
            Key::Char('j') | Key::Down => {
                if qi + 1 < QUALITY_COUNT {
                    self.mode = AppMode::QualitySelect {
                        channel_name: name,
                        channel_display_name: display,
                        quality_index: qi + 1,
                    };
                }
                Action::Nothing
            },
            Key::Char('k') | Key::Up => {
                if qi > 0 {
                    self.mode = AppMode::QualitySelect {
                        channel_name: name,
                        channel_display_name: display,
                        quality_index: qi - 1,
                    };
                }
                Action::Nothing
            },
            Key::Enter => {
                self.mode = AppMode::SavedChannels;
                self.selected_index = 0;
                Action::WatchStream { channel: name, quality: String::from_str(quality_option(qi)) }
            },
            _ => Action::Nothing,
        }
    }

    fn remember_sent(&mut self, msg: &String)
        requires
            old(self).wf(),
        ensures
            final(self)@ == (AppView { chat_history: old(self)@.history_with(msg@), ..old(self)@ }),
            final(self).chat_history@.len() <= 50,
            final(self).thumb_cache == old(self).thumb_cache,
            final(self).mode == old(self).mode,
            final(self).help_scroll == old(self).help_scroll,
            final(self).chat_history_index == old(self).chat_history_index,
    {
        let n = self.chat_history.len();
        if n > 0 && same_text(self.chat_history[n - 1].as_str(), msg.as_str()) {
            return;
        }
        self.chat_history.push(msg.clone());
        if self.chat_history.len() > 50 {
            self.chat_history.remove(0);
        }
        proof {
            let h = crate::twitch::texts(old(self).chat_history@);
            assert(crate::twitch::texts(self.chat_history@) =~= old(self)@.history_with(msg@));
        }
    }

    fn chat_key(&mut self, key: Key) -> (res: Action)
        requires
            old(self).wf(),
        ensures
            (final(self)@, res@) == old(self)@.chat_key(key),
            final(self).wf(),
    {
        match key {
            Key::Esc => {
                self.focus = FocusTarget::Browse;
                self.chat_history_index = None;
                Action::Nothing
            },
            Key::Enter => {
                if self.chat_input.as_str().is_empty() {
                    return Action::Nothing;
                }
                let msg = self.chat_input.clone();
                let mut action = Action::Nothing;
                let mut sending = false;
                if self.chat_connected {
                    match &self.chat_channel {
                        Some(ch) => {
                            action = Action::SendChat { channel: ch.clone(), message: msg.clone() };
                            sending = true;
                        },
                        None => {},
                    }
                }
                if sending {
                    self.remember_sent(&msg);
                }
                self.chat_input = String::new();
                self.chat_history_index = None;
                action
            },
            Key::Backspace => {
                string_pop(&mut self.chat_input);
                Action::Nothing
            },
            Key::Up => {
                let n = self.chat_history.len();
                if n > 0 {
                    let idx: usize = match self.chat_history_index {
                        None => n - 1,
                        Some(i) => if i > 0 {
                            i - 1
                        } else {
                            0
                        },
                    };
                    self.chat_history_index = Some(idx);
                    self.chat_input = self.chat_history[idx].clone();
                }
                Action::Nothing
            },
            Key::Down => {
                match self.chat_history_index {
                    Some(i) => {
                        if i + 1 < self.chat_history.len() {
                            self.chat_history_index = Some(i + 1);
                            self.chat_input = self.chat_history[i + 1].clone();
                        } else {
                            self.chat_history_index = None;
                            self.chat_input = String::new();
                        }
                    },
                    None => {},
                }
                Action::Nothing
            },
            Key::Char(c) => {
                string_push(&mut self.chat_input, c);
                Action::Nothing
            },
            _ => Action::Nothing,
        }
    }

    fn join_chat(&mut self, channel: &String, auth: &Auth) -> (res: Action)
        requires
            old(self).wf(),
        ensures
            (final(self)@, res@) == old(self)@.join_chat(channel@, chat_login_of(*auth)),
            final(self).wf(),
    {
        match &self.chat_channel {
            Some(cur) => {
                if same_text(cur.as_str(), channel.as_str()) {
                    return Action::Nothing;
                }
            },
            None => {},
        }
        self.chat_messages = Vec::new();
        self.chat_connected = false;
        proof {
            assert(self.chat_messages@.map_values(|m: ChatMessage| m@) =~= Seq::<ChatMessageView>::empty());
        }
        Action::ConnectChat { channel: channel.clone(), login: auth.chat_login() }
    }

    fn open_picker(&mut self, ch: Channel, quality: &String, auth: &Auth) -> (res: Action)
        requires
            old(self).wf(),
        ensures
            (final(self)@, res@) == old(self)@.open_picker(ch@, quality@, chat_login_of(*auth)),
            final(self).wf(),
    {
        let name = ch.name.clone();
        let display = ch.display_name.clone();
        let qi = quality_index_of(quality.as_str());
        self.watching_channel = Some(ch);
        self.mode = AppMode::QualitySelect {
            channel_name: name.clone(),
            channel_display_name: display,
            quality_index: qi,
        };
        self.join_chat(&name, auth)
    }

    fn search_key(&mut self, key: Key, quality: &String, auth: &Auth) -> (res: Action)
        requires
            old(self).wf(),
        ensures
            (final(self)@, res@) == old(self)@.search_key(key, quality@, chat_login_of(*auth)),
            final(self).wf(),
    {
        let query = match &self.mode {
            AppMode::Search { query } => query.clone(),
            _ => {
                return Action::Nothing;
            },
        };
        match key {
            Key::Esc => {
                self.mode = AppMode::SavedChannels;
                self.pagination_cursor = None;
                self.selected_index = 0;
                Action::Nothing
            },
            Key::Enter => {
                let ch = match self.selected_channel() {
                    Some(c) => c.clone(),
                    None => {
                        return Action::Nothing;
                    },
                };
                self.open_picker(ch, quality, auth)
            },
            Key::Backspace => {
                let mut q = query;
                string_pop(&mut q);
                self.mode = AppMode::Search { query: q.clone() };
                Action::Search { query: q }
            },
            Key::Up => {
                self.select_prev();
                Action::Nothing
            },
            Key::Down => {
                self.select_next();
                Action::Nothing
            },
            Key::Char(c) => {
                let mut q = query;
                string_push(&mut q, c);
                self.mode = AppMode::Search { query: q.clone() };
                Action::Search { query: q }
            },
            Key::Tab => {
                self.cycle_focus();
                Action::Nothing
            },
            _ => Action::Nothing,
        }
    }

    /// Enter in the browse pane: opens the selected category, opens the
    /// quality picker for the selected channel (joining its chat), or plays
    /// the selected video at the configured quality.
    pub fn handle_enter(&mut self, config: &Config, auth: &Auth) -> (res: Action)
        requires
            old(self).wf(),
        ensures
            (final(self)@, res@) == old(self)@.enter_key(config.default_quality@, chat_login_of(*auth)),
            final(self).wf(),
    {
        match &self.mode {
            AppMode::Categories => {
                if self.selected_index < self.categories.len() {
                    let game_id = self.categories[self.selected_index].id.clone();
                    let game_name = self.categories[self.selected_index].name.clone();
                    self.mode = AppMode::CategoryStreams { game_id: game_id.clone(), game_name };
                    self.pagination_cursor = None;
                    self.selected_index = 0;
                    self.is_loading = true;
                    Action::FetchCategoryStreams { game_id, after: None }
                } else {
                    Action::Nothing
                }
            },
            AppMode::SavedChannels | AppMode::Followed | AppMode::CategoryStreams { .. } => {
                let ch = match self.selected_channel() {
                    Some(c) => c.clone(),
                    None => {
                        return Action::Nothing;
                    },
                };
                self.open_picker(ch, &config.default_quality, auth)
            },
            AppMode::Vods { .. } => {
                if self.selected_index < self.vods.len() {
                    Action::WatchVod {
                        vod_id: self.vods[self.selected_index].id.clone(),
                        quality: config.default_quality.clone(),
                    }
                } else {
                    Action::Nothing
                }
            },
            _ => Action::Nothing,
        }
    }

    /// Fetches again what the browse pane lists; loading ends at once when
    /// there is nothing to fetch.
    pub fn refresh_current(&mut self) -> (res: Action)
        requires
            old(self).wf(),
        ensures
            (final(self)@, res@) == old(self)@.refreshed(),
            final(self).wf(),
    {
        match &self.mode {
            AppMode::SavedChannels => {
                if self.saved_channels.len() == 0 {
                    self.is_loading = false;
                    Action::Nothing
                } else {
                    Action::FetchSavedStreams { after: None }
                }
            },
            AppMode::Followed => Action::FetchFollowed,
            AppMode::Categories => Action::FetchCategories { after: None },
            AppMode::CategoryStreams { game_id, .. } => Action::FetchCategoryStreams {
                game_id: game_id.clone(),
                after: None,
            },
            AppMode::Search { query } => {
                if query.as_str().is_empty() {
                    self.is_loading = false;
                    Action::Nothing
                } else {
                    Action::Search { query: query.clone() }
                }
            },
            AppMode::Vods { user_id, .. } => Action::FetchVods { user_id: user_id.clone(), after: None },
            AppMode::QualitySelect { .. } => {
                self.is_loading = false;
                Action::Nothing
            },
        }
    }

    fn next_page(&mut self) -> (res: Action)
        requires
            old(self).wf(),
        ensures
            (final(self)@, res@) == old(self)@.next_page(),
            final(self).wf(),
    {
        let c = match &self.pagination_cursor {
            Some(c) => c.clone(),
            None => {
                return Action::Nothing;
            },
        };
        let a = match &self.mode {
            AppMode::SavedChannels => Action::FetchSavedStreams { after: Some(c) },
            AppMode::Categories => Action::FetchCategories { after: Some(c) },
            AppMode::CategoryStreams { game_id, .. } => Action::FetchCategoryStreams {
                game_id: game_id.clone(),
                after: Some(c),
            },
            AppMode::Vods { user_id, .. } => Action::FetchVods { user_id: user_id.clone(), after: Some(c) },
            AppMode::Search { query } => Action::Search { query: query.clone() },
            _ => Action::Nothing,
        };
        self.is_loading = true;
        a
    }

    /// The save key: asks to save or remove the selected channel.
    pub fn handle_save(&self) -> (res: Action)
        ensures
            res@ == match self@.selected_channel() {
                Some(ch) => ActionView::ToggleSave {
                    twitch_id: ch.twitch_id,
                    name: ch.name,
                    display_name: ch.display_name,
                },
                None => ActionView::Nothing,
            },
    {
        match self.selected_channel() {
            Some(ch) => Action::ToggleSave {
                twitch_id: ch.twitch_id.clone(),
                name: ch.name.clone(),
                display_name: ch.display_name.clone(),
            },
            None => Action::Nothing,
        }
    }

    fn switch_to(&mut self, mode: AppMode)
        requires
            old(self).wf(),
            !(mode is QualitySelect),
        ensures
            final(self)@ == old(self)@.switched_to(mode@),
            final(self).wf(),
    {
        self.mode = mode;
        self.pagination_cursor = None;
        self.selected_index = 0;
    }

    fn global_key(&mut self, key: Key, config: &Config, auth: &Auth) -> (res: Action)
        requires
            old(self).wf(),
            !(old(self).mode is QualitySelect),
        ensures
            (final(self)@, res@) == old(self)@.global_key(
                key,
                config.default_quality@,
                auth.oauth_token.is_some(),
                chat_login_of(*auth),
            ),
            final(self).wf(),
    {
        match key {
            Key::Char('q') => {
                self.should_quit = true;
                Action::Nothing
            },
            Key::Char('?') => {
                self.show_help = true;
                Action::Nothing
            },
            Key::Tab => {
                self.cycle_focus();
                Action::Nothing
            },
            Key::BackTab => {
                self.cycle_focus_back();
                Action::Nothing
            },
            Key::Char('j') | Key::Down => {
                self.select_next();
                Action::Nothing
            },
            Key::Char('k') | Key::Up => {
                self.select_prev();
                Action::Nothing
            },
            Key::Char('g') => {
                self.jump_top();
                Action::Nothing
            },
            Key::Char('G') => {
                self.jump_bottom();
                Action::Nothing
            },
            Key::PageDown => {
                self.page_down(10);
                Action::Nothing
            },
            Key::PageUp => {
                self.page_up(10);
                Action::Nothing
            },
            Key::Enter => self.handle_enter(config, auth),
            Key::Char('s') => self.handle_save(),
            Key::Char('c') => {
                self.switch_to(AppMode::Categories);
                self.is_loading = true;
                Action::FetchCategories { after: None }
            },
            Key::Char('f') => {
                if auth.has_token() {
                    self.switch_to(AppMode::Followed);
                    self.is_loading = true;
                    Action::FetchFollowed
                } else {
                    self.error_message = Some(
                        String::from_str("OAuth required. Set token in ~/.config/twitch-tui/config.toml"),
                    );
                    Action::ShowError
                }
            },
            Key::Char('/') => {
                self.switch_to(AppMode::Search { query: String::new() });
                self.search_results = Vec::new();
                proof {
                    assert(crate::app::channel_views(self.search_results@) =~= Seq::<ChannelView>::empty());
                }
                Action::Nothing
            },
            Key::Char('v') => {
                let (display, uid) = match self.selected_channel() {
                    Some(ch) => (ch.display_name.clone(), ch.twitch_id.clone()),
                    None => {
                        return Action::Nothing;
                    },
                };
                self.switch_to(AppMode::Vods { channel_name: display, user_id: uid.clone() });
                self.is_loading = true;
                Action::FetchVods { user_id: uid, after: None }
            },
            Key::Esc => {
                self.switch_to(AppMode::SavedChannels);
                Action::Nothing
            },
            Key::Char('r') => {
                self.pagination_cursor = None;
                self.is_loading = true;
                self.refresh_current()
            },
            Key::Char('n') => self.next_page(),
            _ => Action::Nothing,
        }
    }

    /// Handles a key press: the help overlay and the quality picker take
    /// every key while open; then the chat input takes the keys it edits
    /// with; then the search input; then the keys of the panes. Returns the
    /// outside work to do.
    pub fn handle_key(&mut self, key: Key, config: &Config, auth: &Auth) -> (res: Action)
        requires
            old(self).wf(),
        ensures
            (final(self)@, res@) == old(self)@.on_key(
                key,
                config.default_quality@,
                auth.oauth_token.is_some(),
                chat_login_of(*auth),
            ),
            final(self).wf(),
    {
        if self.show_help {
            return self.help_key(key);
        }
        let (picking, searching) = match &self.mode {
            AppMode::QualitySelect { .. } => (true, false),
            AppMode::Search { .. } => (false, true),
            _ => (false, false),
        };
        if picking {
            return self.quality_key(key, &config.default_quality);
        }
        let takes = match key {
            Key::Esc | Key::Enter | Key::Backspace | Key::Up | Key::Down | Key::Char(_) => true,
            _ => false,
        };
        if self.focus == FocusTarget::Chat && takes {
            return self.chat_key(key);
        }
        if searching {
            return self.search_key(key, &config.default_quality, auth);
        }
        self.global_key(key, config, auth)
    }
}

/// What a background task reports back to the client.
pub enum AppEvent<I> {
    /// Channels (saved or followed) with their live state, and the cursor of the next page.
    ChannelsLoaded(Vec<Channel>, Option<String>),
    CategoriesLoaded(Vec<Game>, Option<String>),
    CategoryStreamsLoaded(Vec<Channel>, Option<String>),
    SearchResults(Vec<Channel>, Option<String>),
    VodsLoaded(Vec<Vod>, Option<String>),
    ChatMessage(ChatMessage),
    /// The chat of this channel was joined.
    ChatConnected(String),
    /// A thumbnail was fetched and decoded, for this cache key.
    ThumbnailReady(String, I),
    Error(String),
    Tick,
}

/// What an event holds, as text.
pub enum EventView<I> {
    ChannelsLoaded(Seq<ChannelView>, Option<Seq<char>>),
    CategoriesLoaded(Seq<GameView>, Option<Seq<char>>),
    CategoryStreamsLoaded(Seq<ChannelView>, Option<Seq<char>>),
    SearchResults(Seq<ChannelView>, Option<Seq<char>>),
    VodsLoaded(Seq<VodView>, Option<Seq<char>>),
    ChatMessage(ChatMessageView),
    ChatConnected(Seq<char>),
    ThumbnailReady(Seq<char>, I),
    Error(Seq<char>),
    Tick,
}

impl<I> View for AppEvent<I> {
    type V = EventView<I>;

    open spec fn view(&self) -> EventView<I> {
        match self {
            AppEvent::ChannelsLoaded(c, k) => EventView::ChannelsLoaded(channel_views(c@), opt_text(*k)),
            AppEvent::CategoriesLoaded(g, k) => EventView::CategoriesLoaded(
                g@.map_values(|x: Game| x@),
                opt_text(*k),
            ),
            AppEvent::CategoryStreamsLoaded(c, k) => EventView::CategoryStreamsLoaded(
                channel_views(c@),
                opt_text(*k),
            ),
            AppEvent::SearchResults(c, k) => EventView::SearchResults(channel_views(c@), opt_text(*k)),
            AppEvent::VodsLoaded(v, k) => EventView::VodsLoaded(
                v@.map_values(|x: Vod| x@),
                opt_text(*k),
            ),
            AppEvent::ChatMessage(m) => EventView::ChatMessage(m@),
            AppEvent::ChatConnected(c) => EventView::ChatConnected(c@),
            AppEvent::ThumbnailReady(k, i) => EventView::ThumbnailReady(k@, *i),
            AppEvent::Error(e) => EventView::Error(e@),
            AppEvent::Tick => EventView::Tick,
        }
    }
}

/// The most chat lines kept before the oldest are dropped.
pub const CHAT_LIMIT: usize = 500;

/// How many of the oldest chat lines are dropped at once.
pub const CHAT_DROP: usize = 100;

/// The chat lines after one more arrived: past the limit, the oldest hundred go.
pub open spec fn bounded_chat(lines: Seq<ChatMessageView>) -> Seq<ChatMessageView> {
    if lines.len() > CHAT_LIMIT {
        lines.subrange(CHAT_DROP as int, lines.len() as int)
    } else {
        lines
    }
}

/// The notice written in the chat when a channel's chat was joined.
pub open spec fn connected_notice(channel: Seq<char>) -> ChatMessageView {
    ChatMessageView { sender: Seq::empty(), message: "Connected to "@ + channel, system: true }
}

/// `items` added to `current` when a next page was asked for (a cursor
/// was held), in place of it otherwise.
pub open spec fn loaded<T>(current: Seq<T>, items: Seq<T>, paging: bool) -> Seq<T> {
    if paging {
        current + items
    } else {
        items
    }
}

/// The saved channels without those with id `id`.
pub open spec fn without_id(s: Seq<SavedChannelView>, id: Seq<char>) -> Seq<SavedChannelView>
    decreases s.len(),
{
    if s.len() == 0 {
        s
    } else if s.last().twitch_id == id {
        without_id(s.drop_last(), id)
    } else {
        without_id(s.drop_last(), id).push(s.last())
    }
}

impl<P> AppView<P> {
    /// The state after a background task reported `e`.
    pub open spec fn on_event<I>(self, e: EventView<I>) -> Self {
        let paging = self.pagination_cursor.is_some();
        match e {
            EventView::ChannelsLoaded(items, cursor) => AppView {
                channels: loaded(self.channels, items, paging),
                pagination_cursor: cursor,
                is_loading: false,
                ..self
            }.clamped(),
            EventView::CategoriesLoaded(items, cursor) => AppView {
                categories: loaded(self.categories, items, paging),
                pagination_cursor: cursor,
                is_loading: false,
                ..self
            }.clamped(),
            EventView::CategoryStreamsLoaded(items, cursor) => AppView {
                category_streams: loaded(self.category_streams, items, paging),
                pagination_cursor: cursor,
                is_loading: false,
                ..self
            }.clamped(),
            EventView::SearchResults(items, cursor) => AppView {
                search_results: loaded(self.search_results, items, paging),
                pagination_cursor: cursor,
                is_loading: false,
                ..self
            }.clamped(),
            EventView::VodsLoaded(items, cursor) => AppView {
                vods: loaded(self.vods, items, paging),
                pagination_cursor: cursor,
                is_loading: false,
                ..self
            }.clamped(),
            EventView::ChatMessage(m) => AppView {
                chat_messages: bounded_chat(self.chat_messages.push(m)),
                ..self
            },
            EventView::ChatConnected(c) => AppView {
                chat_messages: self.chat_messages.push(connected_notice(c)),
                ..self
            },
            EventView::Error(msg) => AppView { error_message: Some(msg), ..self },
            EventView::ThumbnailReady(..) | EventView::Tick => self,
        }
    }

    /// The thumbnail the selection calls for: its key and address.
    pub open spec fn thumb_wanted(self) -> Option<(Seq<char>, Seq<char>)> {
        match self.selected_channel() {
            Some(c) => match thumb_key(c) {
                Some(k) => Some(
                    (
                        k,
                        match c.thumbnail_url {
                            Some(u) => u,
                            None => Seq::empty(),
                        },
                    ),
                ),
                None => None,
            },
            None => None,
        }
    }

    /// When the selection moved to a live channel whose thumbnail is not
    /// prepared (and has an address), the thumbnail to fetch; the key of the
    /// thumbnail last asked for is remembered so that it is asked once.
    pub open spec fn thumb_step(self) -> (Self, Option<(Seq<char>, Seq<char>)>) {
        match self.thumb_wanted() {
            Some((k, url)) => if self.last_thumb_key == Some(k) {
                (self, None)
            } else {
                let v = AppView { last_thumb_key: Some(k), ..self };
                if !has_key(self.thumbs, k) && url.len() > 0 {
                    (v, Some((k, url)))
                } else {
                    (v, None)
                }
            },
            None => (AppView { last_thumb_key: None, ..self }, None),
        }
    }
}

fn append_all<T>(dst: &mut Vec<T>, src: Vec<T>)
    ensures
        final(dst)@ == old(dst)@ + src@,
{
    let mut s = src;
    dst.append(&mut s);
}

impl<P> App<P> {
    /// Applies what a background task reported. A prepared thumbnail is
    /// handed back, to be made ready for the terminal and stored.
    pub fn apply_event<I>(&mut self, event: AppEvent<I>) -> (res: Option<(String, I)>)
        requires
            old(self).wf(),
        ensures
            final(self)@ == old(self)@.on_event(event@),
            final(self).wf(),
            event@ matches EventView::ThumbnailReady(k, i) ==> res matches Some((key, img)) && key@
                == k && img == i,
            !(event@ is ThumbnailReady) ==> res.is_none(),
    {
        let paging = self.pagination_cursor.is_some();
        match event {
            AppEvent::ChannelsLoaded(items, cursor) => {
                if paging {
                    append_all(&mut self.channels, items);
                } else {
                    self.channels = items;
                }
                proof {
                    assert(channel_views(self.channels@) =~= loaded(old(self)@.channels, channel_views(items@), paging));
                }
                self.pagination_cursor = cursor;
                self.is_loading = false;
                self.clamp_selection();
                None
            },
            AppEvent::CategoriesLoaded(items, cursor) => {
                if paging {
                    append_all(&mut self.categories, items);
                } else {
                    self.categories = items;
                }
                proof {
                    assert(self.categories@.map_values(|x: Game| x@) =~= loaded(
                        old(self)@.categories,
                        items@.map_values(|x: Game| x@),
                        paging,
                    ));
                }
                self.pagination_cursor = cursor;
                self.is_loading = false;
                self.clamp_selection();
                None
            },
            AppEvent::CategoryStreamsLoaded(items, cursor) => {
                if paging {
                    append_all(&mut self.category_streams, items);
                } else {
                    self.category_streams = items;
                }
                proof {
                    assert(channel_views(self.category_streams@) =~= loaded(
                        old(self)@.category_streams,
                        channel_views(items@),
                        paging,
                    ));
                }
                self.pagination_cursor = cursor;
                self.is_loading = false;
                self.clamp_selection();
                None
            },
            AppEvent::SearchResults(items, cursor) => {
                if paging {
                    append_all(&mut self.search_results, items);
                } else {
                    self.search_results = items;
                }
                proof {
                    assert(channel_views(self.search_results@) =~= loaded(
                        old(self)@.search_results,
                        channel_views(items@),
                        paging,
                    ));
                }
                self.pagination_cursor = cursor;
                self.is_loading = false;
                self.clamp_selection();
                None
            },
            AppEvent::VodsLoaded(items, cursor) => {
                if paging {
                    append_all(&mut self.vods, items);
                } else {
                    self.vods = items;
                }
                proof {
                    assert(self.vods@.map_values(|x: Vod| x@) =~= loaded(
                        old(self)@.vods,
                        items@.map_values(|x: Vod| x@),
                        paging,
                    ));
                }
                self.pagination_cursor = cursor;
                self.is_loading = false;
                self.clamp_selection();
                None
            },
            AppEvent::ChatMessage(m) => {
                self.chat_messages.push(m);
                if self.chat_messages.len() > CHAT_LIMIT {
                    let rest = self.chat_messages.split_off(CHAT_DROP);
                    self.chat_messages = rest;
                }
                proof {
                    assert(self.chat_messages@.map_values(|x: ChatMessage| x@) =~= bounded_chat(
                        old(self)@.chat_messages.push(m@),
                    ));
                }
                None
            },
            AppEvent::ChatConnected(channel) => {
                let message = String::from_str("Connected to ").concat(channel.as_str());
                self.chat_messages.push(ChatMessage { sender: String::new(), message, system: true });
                proof {
                    assert(self.chat_messages@.map_values(|x: ChatMessage| x@) =~= old(self)@.chat_messages.push(
                        connected_notice(channel@),
                    ));
                }
                None
            },
            AppEvent::ThumbnailReady(key, img) => Some((key, img)),
            AppEvent::Error(e) => {
                self.error_message = Some(e);
                None
            },
            AppEvent::Tick => None,
        }
    }

    /// Records that the chat of `channel` was joined.
    pub fn chat_joined(&mut self, channel: String)
        requires
            old(self).wf(),
        ensures
            final(self)@ == (AppView { chat_connected: true, chat_channel: Some(channel@), ..old(self)@ }),
            final(self).wf(),
    {
        self.chat_connected = true;
        self.chat_channel = Some(channel);
    }

    /// The logins of the saved channels, in order.
    pub fn saved_logins(&self) -> (res: Vec<String>)
        ensures
            crate::twitch::texts(res@) == self@.saved_channels.map_values(|c: SavedChannelView| c.name),
    {
        let mut out: Vec<String> = Vec::new();
        let mut i: usize = 0;
        while i < self.saved_channels.len()
            invariant
                i <= self.saved_channels.len(),
                crate::twitch::texts(out@) == self@.saved_channels.subrange(0, i as int).map_values(
                    |c: SavedChannelView| c.name,
                ),
            decreases self.saved_channels.len() - i,
        {
            let ghost prev = crate::twitch::texts(out@);
            let nm = self.saved_channels[i].name.clone();
            assert(nm@ == self@.saved_channels[i as int].name);
            out.push(nm);
            assert(crate::twitch::texts(out@) =~= prev.push(nm@));
            assert(self@.saved_channels.subrange(0, i + 1) =~= self@.saved_channels.subrange(0, i as int).push(self@.saved_channels[i as int]));
            i = i + 1;
            assert(crate::twitch::texts(out@) =~= self@.saved_channels.subrange(0, i as int).map_values(
                |c: SavedChannelView| c.name,
            ));
        }
        assert(self@.saved_channels.subrange(0, i as int) =~= self@.saved_channels);
        out
    }

    /// Adds a channel that was just saved to the saved list (its row id is
    /// not known here: 0).
    pub fn remember_saved_channel(&mut self, twitch_id: String, name: String, display_name: String)
        requires
            old(self).wf(),
        ensures
            final(self)@ == (AppView {
                saved_channels: old(self)@.saved_channels.push(
                    SavedChannelView { id: 0, twitch_id: twitch_id@, name: name@, display_name: display_name@ },
                ),
                ..old(self)@
            }),
            final(self).wf(),
    {
        self.saved_channels.push(SavedChannel { id: 0, twitch_id, name, display_name });
        proof {
            assert(self@.saved_channels =~= old(self)@.saved_channels.push(
                SavedChannelView { id: 0, twitch_id: twitch_id@, name: name@, display_name: display_name@ },
            ));
        }
    }

    /// Drops a channel that was just removed from the saved list.
    pub fn forget_saved_channel(&mut self, twitch_id: &str)
        requires
            old(self).wf(),
        ensures
            final(self)@ == (AppView {
                saved_channels: without_id(old(self)@.saved_channels, twitch_id@),
                ..old(self)@
            }),
            final(self).wf(),
    {
        let mut kept: Vec<SavedChannel> = Vec::new();
        let mut old_list: Vec<SavedChannel> = Vec::new();
        std::mem::swap(&mut old_list, &mut self.saved_channels);
        let ghost all = old(self)@.saved_channels;
        assert(old_list@.map_values(|c: SavedChannel| c@) == all);
        let n = old_list.len();
        let mut i: usize = 0;
        while i < n
            invariant
                n == old_list.len(),
                i <= n,
                old_list@.map_values(|c: SavedChannel| c@) == all,
                kept@.map_values(|c: SavedChannel| c@) == without_id(all.subrange(0, i as int), twitch_id@),
            decreases n - i,
        {
            let c = old_list[i].clone();
            let ghost before = kept@.map_values(|c: SavedChannel| c@);
            assert(all.subrange(0, i + 1).drop_last() =~= all.subrange(0, i as int));
            if !same_text(c.twitch_id.as_str(), twitch_id) {
                kept.push(c);
                assert(kept@.map_values(|c: SavedChannel| c@) =~= before.push(all[i as int]));
            } else {
                assert(kept@.map_values(|c: SavedChannel| c@) =~= before);
            }
            i = i + 1;
        }
        assert(all.subrange(0, n as int) =~= all);
        self.saved_channels = kept;
    }

    /// When the selection moved to a live channel whose thumbnail is not
    /// prepared, its key and address, to fetch it (see `AppView::thumb_step`).
    pub fn thumbnail_request(&mut self) -> (res: Option<(String, String)>)
        requires
            old(self).wf(),
        ensures
            final(self)@ == old(self)@.thumb_step().0,
            res.is_some() == old(self)@.thumb_step().1.is_some(),
            res matches Some((k, u)) ==> old(self)@.thumb_step().1 == Some((k@, u@)),
            final(self).wf(),
    {
        let wanted = match self.selected_channel() {
            Some(c) => match cache_key(c) {
                Some(k) => Some(
                    (
                        k,
                        match &c.thumbnail_url {
                            Some(u) => u.clone(),
                            None => String::new(),
                        },
                    ),
                ),
                None => None,
            },
            None => None,
        };
        match wanted {
            Some((k, url)) => {
                let same = match &self.last_thumb_key {
                    Some(last) => same_text(last.as_str(), k.as_str()),
                    None => false,
                };
                if same {
                    return None;
                }
                self.last_thumb_key = Some(k.clone());
                if !self.thumb_cache.contains(k.as_str()) && !url.as_str().is_empty() {
                    Some((k, url))
                } else {
                    None
                }
            },
            None => {
                self.last_thumb_key = None;
                None
            },
        }
    }

    /// Moves the loading spinner one frame on (wrapping).
    pub fn advance_spinner(&mut self)
        requires
            old(self).wf(),
        ensures
            final(self)@ == (AppView {
                spinner_frame: if old(self).spinner_frame == usize::MAX {
                    0
                } else {
                    (old(self).spinner_frame + 1) as usize
                },
                ..old(self)@
            }),
            final(self).wf(),
    {
        self.spinner_frame = if self.spinner_frame == usize::MAX {
            0
        } else {
            self.spinner_frame + 1
        };
    }

    /// Fits the help scroll to an overlay that shows `rows` lines of the
    /// help text: it can scroll until the last line is in view (to the last
    /// line itself while the overlay shows none), and a scroll past that is
    /// pulled back.
    pub fn set_help_rows(&mut self, rows: u16)
        requires
            old(self).wf(),
        ensures
            final(self)@ == (AppView {
                help_max_scroll: help_max_for(rows),
                help_scroll: if old(self).help_scroll > help_max_for(rows) {
                    help_max_for(rows)
                } else {
                    old(self).help_scroll
                },
                ..old(self)@
            }),
            final(self).wf(),
    {
        let max: u16 = if rows == 0 {
            HELP_LINE_COUNT - 1
        } else if rows >= HELP_LINE_COUNT {
            0
        } else {
            HELP_LINE_COUNT - rows
        };
        self.help_max_scroll = max;
        if self.help_scroll > max {
            self.help_scroll = max;
        }
    }

    /// Moves the spinner on when something is loading and its frame has been
    /// shown for `SPINNER_MS` milliseconds or more (`shown_ms`); says whether
    /// it moved.
    pub fn spin(&mut self, shown_ms: u64) -> (res: bool)
        requires
            old(self).wf(),
        ensures
            res == (old(self).is_loading && shown_ms >= SPINNER_MS),
            final(self)@ == if res {
                AppView {
                    spinner_frame: if old(self).spinner_frame == usize::MAX {
                        0
                    } else {
                        (old(self).spinner_frame + 1) as usize
                    },
                    ..old(self)@
                }
            } else {
                old(self)@
            },
            final(self).wf(),
    {
        if self.is_loading && shown_ms >= SPINNER_MS {
            self.advance_spinner();
            true
        } else {
            false
        }
    }

    /// Takes the error message down once it has been shown for
    /// `ERROR_SECS` seconds or more (`shown_secs`); says whether it did.
    pub fn expire_error(&mut self, shown_secs: u64) -> (res: bool)
        requires
            old(self).wf(),
        ensures
            res == (shown_secs >= ERROR_SECS),
            final(self)@ == if res {
                AppView { error_message: None, ..old(self)@ }
            } else {
                old(self)@
            },
            final(self).wf(),
    {
        if shown_secs >= ERROR_SECS {
            self.error_message = None;
            true
        } else {
            false
        }
    }
}

/// What the store is to do for the save key, once it is known whether the
/// channel is saved.
#[derive(Debug)]
pub enum StoreStep {
    /// The channel is saved: remove it.
    Remove { twitch_id: String },
    /// The channel is not saved: save it.
    Save { twitch_id: String, name: String, display_name: String },
}

/// The store step for the save key (see `Action::ToggleSave`): remove a
/// channel that is saved, save one that is not.
pub fn store_step(already_saved: bool, twitch_id: String, name: String, display_name: String) -> (res: StoreStep)
    ensures
        already_saved ==> (res matches StoreStep::Remove { twitch_id: t } && t@ == twitch_id@),
        !already_saved ==> (res matches StoreStep::Save { twitch_id: t, name: n, display_name: d } && t@
            == twitch_id@ && n@ == name@ && d@ == display_name@),
{
    if already_saved {
        StoreStep::Remove { twitch_id }
    } else {
        StoreStep::Save { twitch_id, name, display_name }
    }
}

impl<P> App<P> {
    /// Brings the saved list in line with a store step the store carried
    /// out: a removed channel leaves it, a saved one is added last.
    pub fn store_done(&mut self, step: StoreStep)
        requires
            old(self).wf(),
        ensures
            step matches StoreStep::Remove { twitch_id } ==> final(self)@ == (AppView {
                saved_channels: without_id(old(self)@.saved_channels, twitch_id@),
                ..old(self)@
            }),
            step matches StoreStep::Save { twitch_id, name, display_name } ==> final(self)@ == (AppView {
                saved_channels: old(self)@.saved_channels.push(
                    SavedChannelView { id: 0, twitch_id: twitch_id@, name: name@, display_name: display_name@ },
                ),
                ..old(self)@
            }),
            final(self).wf(),
    {
        match step {
            StoreStep::Remove { twitch_id } => self.forget_saved_channel(twitch_id.as_str()),
            StoreStep::Save { twitch_id, name, display_name } => self.remember_saved_channel(
                twitch_id,
                name,
                display_name,
            ),
        }
    }
}

/// How far the help text can scroll in an overlay showing `rows` of its
/// lines: until its last line is the overlay's last (to the last line
/// itself when the overlay shows none).
pub open spec fn help_max_for(rows: u16) -> u16 {
    if rows == 0 {
        (HELP_LINE_COUNT - 1) as u16
    } else if rows >= HELP_LINE_COUNT {
        0
    } else {
        (HELP_LINE_COUNT - rows) as u16
    }
}

/// How long a spinner frame is shown, in milliseconds.
pub const SPINNER_MS: u64 = 80;

/// How long an error message is shown, in seconds.
pub const ERROR_SECS: u64 = 5;

} // verus!
