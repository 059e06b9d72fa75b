//! The state of the terminal client: what is listed, what is selected,
//! which pane has the focus, and the chat being read.

use vstd::prelude::*;
use crate::db::{SavedChannel, SavedChannelView};
use crate::thumb::ThumbnailCache;
use crate::twitch::{opt_text, texts, Channel, ChannelView, ChatMessage, ChatMessageView, Game, GameView, Vod, VodView};

verus! {

/// The number of playback qualities offered.
pub const QUALITY_COUNT: usize = 6;

/// The playback qualities offered, best first.
pub open spec fn quality_name(i: int) -> Seq<char> {
    if i == 0 {
        "best"@
    } else if i == 1 {
        "1080p"@
    } else if i == 2 {
        "720p"@
    } else if i == 3 {
        "480p"@
    } else if i == 4 {
        "360p"@
    } else {
        "audio_only"@
    }
}

/// The playback quality at `index` in the list offered.
pub fn quality_option(index: usize) -> (res: &'static str)
    requires
        index < QUALITY_COUNT,
    ensures
        res@ == quality_name(index as int),
{
    if index == 0 {
        "best"
    } else if index == 1 {
        "1080p"
    } else if index == 2 {
        "720p"
    } else if index == 3 {
        "480p"
    } else if index == 4 {
        "360p"
    } else {
        "audio_only"
    }
}

/// What the browse pane lists.
#[derive(Debug)]
pub enum AppMode {
    SavedChannels,
    Categories,
    CategoryStreams { game_id: String, game_name: String },
    Search { query: String },
    /// The videos of a channel: its name as shown, and its user id.
    Vods { channel_name: String, user_id: String },
    Followed,
    QualitySelect { channel_name: String, channel_display_name: String, quality_index: usize },
}

/// What a mode holds, as text.
pub enum ModeView {
    SavedChannels,
    Categories,
    CategoryStreams { game_id: Seq<char>, game_name: Seq<char> },
    Search { query: Seq<char> },
    Vods { channel_name: Seq<char>, user_id: Seq<char> },
    Followed,
    QualitySelect { channel_name: Seq<char>, channel_display_name: Seq<char>, quality_index: usize },
}

impl View for AppMode {
    type V = ModeView;

    open spec fn view(&self) -> ModeView {
        match self {
            AppMode::SavedChannels => ModeView::SavedChannels,
            AppMode::Categories => ModeView::Categories,
            AppMode::CategoryStreams { game_id, game_name } => ModeView::CategoryStreams {
                game_id: game_id@,
                game_name: game_name@,
            },
            AppMode::Search { query } => ModeView::Search { query: query@ },
            AppMode::Vods { channel_name, user_id } => ModeView::Vods {
                channel_name: channel_name@,
                user_id: user_id@,
            },
            AppMode::Followed => ModeView::Followed,
            AppMode::QualitySelect { channel_name, channel_display_name, quality_index } => {
                ModeView::QualitySelect {
                    channel_name: channel_name@,
                    channel_display_name: channel_display_name@,
                    quality_index: *quality_index,
                }
            },
        }
    }
}

impl Clone for AppMode {
    fn clone(&self) -> (res: Self)
        ensures
            res@ == self@,
    {
        match self {
            AppMode::SavedChannels => AppMode::SavedChannels,
            AppMode::Categories => AppMode::Categories,
            AppMode::CategoryStreams { game_id, game_name } => AppMode::CategoryStreams {
                game_id: game_id.clone(),
                game_name: game_name.clone(),
            },
            AppMode::Search { query } => AppMode::Search { query: query.clone() },
            AppMode::Vods { channel_name, user_id } => AppMode::Vods {
                channel_name: channel_name.clone(),
                user_id: user_id.clone(),
            },
            AppMode::Followed => AppMode::Followed,
            AppMode::QualitySelect { channel_name, channel_display_name, quality_index } => {
                AppMode::QualitySelect {
                    channel_name: channel_name.clone(),
                    channel_display_name: channel_display_name.clone(),
                    quality_index: *quality_index,
                }
            },
        }
    }
}

/// The pane that receives the keys.
#[derive(Debug, Clone, Copy, PartialEq, Eq, Structural)]
pub enum FocusTarget {
    Browse,
    Detail,
    Chat,
}

/// The whole client state. `P` is what the terminal needs to draw a
/// thumbnail; the library only keeps it.
pub struct App<P> {
    pub mode: AppMode,
    pub focus: FocusTarget,
    pub saved_channels: Vec<SavedChannel>,
    pub channels: Vec<Channel>,
    pub categories: Vec<Game>,
    pub category_streams: Vec<Channel>,
    pub search_results: Vec<Channel>,
    pub vods: Vec<Vod>,
    pub chat_messages: Vec<ChatMessage>,
    pub chat_input: String,
    pub chat_history: Vec<String>,
    pub chat_history_index: Option<usize>,
    pub selected_index: usize,
    pub show_help: bool,
    pub help_scroll: u16,
    pub help_max_scroll: u16,
    pub error_message: Option<String>,
    pub is_loading: bool,
    pub should_quit: bool,
    pub pagination_cursor: Option<String>,
    pub watching_channel: Option<Channel>,
    pub username: Option<String>,
    pub has_oauth: bool,
    pub spinner_frame: usize,
    pub thumb_cache: ThumbnailCache<P>,
    pub last_thumb_key: Option<String>,
    /// The channel whose chat was last joined.
    pub chat_channel: Option<String>,
    /// Whether a chat connection is open (to `chat_channel`).
    pub chat_connected: bool,
}

/// The client state, as text and sequences.
pub struct AppView<P> {
    pub mode: ModeView,
    pub focus: FocusTarget,
    pub saved_channels: Seq<SavedChannelView>,
    pub channels: Seq<ChannelView>,
    pub categories: Seq<GameView>,
    pub category_streams: Seq<ChannelView>,
    pub search_results: Seq<ChannelView>,
    pub vods: Seq<VodView>,
    pub chat_messages: Seq<ChatMessageView>,
    pub chat_input: Seq<char>,
    pub chat_history: Seq<Seq<char>>,
    pub chat_history_index: Option<usize>,
    pub selected_index: usize,
    pub show_help: bool,
    pub help_scroll: u16,
    pub help_max_scroll: u16,
    pub error_message: Option<Seq<char>>,
    pub is_loading: bool,
    pub should_quit: bool,
    pub pagination_cursor: Option<Seq<char>>,
    pub watching_channel: Option<ChannelView>,
    pub username: Option<Seq<char>>,
    pub has_oauth: bool,
    pub spinner_frame: usize,
    pub thumbs: Seq<(Seq<char>, P)>,
    pub last_thumb_key: Option<Seq<char>>,
    pub chat_channel: Option<Seq<char>>,
    pub chat_connected: bool,
}

/// The views of a list of channels.
pub open spec fn channel_views(v: Seq<Channel>) -> Seq<ChannelView> {
    v.map_values(|c: Channel| c@)
}

impl<P> View for App<P> {
    type V = AppView<P>;

    open spec fn view(&self) -> AppView<P> {
        AppView {
            mode: self.mode@,
            focus: self.focus,
            saved_channels: self.saved_channels@.map_values(|c: SavedChannel| c@),
            channels: channel_views(self.channels@),
            categories: self.categories@.map_values(|g: Game| g@),
            category_streams: channel_views(self.category_streams@),
            search_results: channel_views(self.search_results@),
            vods: self.vods@.map_values(|v: Vod| v@),
            chat_messages: self.chat_messages@.map_values(|m: ChatMessage| m@),
            chat_input: self.chat_input@,
            chat_history: texts(self.chat_history@),
            chat_history_index: self.chat_history_index,
            selected_index: self.selected_index,
            show_help: self.show_help,
            help_scroll: self.help_scroll,
            help_max_scroll: self.help_max_scroll,
            error_message: opt_text(self.error_message),
            is_loading: self.is_loading,
            should_quit: self.should_quit,
            pagination_cursor: opt_text(self.pagination_cursor),
            watching_channel: match self.watching_channel {
                Some(c) => Some(c@),
                None => None,
            },
            username: opt_text(self.username),
            has_oauth: self.has_oauth,
            spinner_frame: self.spinner_frame,
            thumbs: self.thumb_cache@,
            last_thumb_key: opt_text(self.last_thumb_key),
            chat_channel: opt_text(self.chat_channel),
            chat_connected: self.chat_connected,
        }
    }
}

impl<P> AppView<P> {
    /// The length of the list the browse pane shows.
    pub open spec fn list_len(self) -> nat {
        match self.mode {
            ModeView::SavedChannels | ModeView::Followed => self.channels.len(),
            ModeView::Categories => self.categories.len(),
            ModeView::CategoryStreams { .. } => self.category_streams.len(),
            ModeView::Search { .. } => self.search_results.len(),
            ModeView::Vods { .. } => self.vods.len(),
            ModeView::QualitySelect { .. } => QUALITY_COUNT as nat,
        }
    }

    /// The channels the selection refers to.
    pub open spec fn channel_list(self) -> Seq<ChannelView> {
        match self.mode {
            ModeView::CategoryStreams { .. } => self.category_streams,
            ModeView::Search { .. } => self.search_results,
            _ => self.channels,
        }
    }

    /// The selected channel, if the selection falls on one.
    pub open spec fn selected_channel(self) -> Option<ChannelView> {
        if self.selected_index < self.channel_list().len() {
            Some(self.channel_list()[self.selected_index as int])
        } else {
            None
        }
    }

    /// The state with the selection at `i`.
    pub open spec fn with_index(self, i: usize) -> Self {
        AppView { selected_index: i, ..self }
    }

    /// The selection moved back inside the list.
    pub open spec fn clamped(self) -> Self {
        let len = self.list_len();
        if len == 0 {
            self.with_index(0)
        } else if self.selected_index >= len {
            self.with_index((len - 1) as usize)
        } else {
            self
        }
    }

    /// The selection moved one down, wrapping to the top.
    pub open spec fn stepped_down(self) -> Self {
        let len = self.list_len();
        if len > 0 {
            self.with_index(((self.selected_index + 1) % (len as int)) as usize)
        } else {
            self
        }
    }

    /// The selection moved one up, wrapping to the bottom.
    pub open spec fn stepped_up(self) -> Self {
        let len = self.list_len();
        if len > 0 {
            self.with_index(((self.selected_index + len - 1) % (len as int)) as usize)
        } else {
            self
        }
    }

    /// The selection moved `page` down, stopping at the last item.
    pub open spec fn paged_down(self, page: usize) -> Self {
        let len = self.list_len();
        if len == 0 {
            self
        } else if self.selected_index + page < len - 1 {
            self.with_index((self.selected_index + page) as usize)
        } else {
            self.with_index((len - 1) as usize)
        }
    }

    /// The selection moved `page` up, stopping at the first item.
    pub open spec fn paged_up(self, page: usize) -> Self {
        if self.selected_index >= page {
            self.with_index((self.selected_index - page) as usize)
        } else {
            self.with_index(0)
        }
    }

    /// The selection on the last item (the first when the list is empty).
    pub open spec fn at_bottom(self) -> Self {
        let len = self.list_len();
        if len > 0 {
            self.with_index((len - 1) as usize)
        } else {
            self.with_index(0)
        }
    }

    /// The focus passed to the next pane: browse, detail, chat, browse.
    pub open spec fn focus_cycled(self) -> Self {
        AppView {
            focus: match self.focus {
                FocusTarget::Browse => FocusTarget::Detail,
                FocusTarget::Detail => FocusTarget::Chat,
                FocusTarget::Chat => FocusTarget::Browse,
            },
            ..self
        }
    }

    /// The focus passed to the previous pane.
    pub open spec fn focus_cycled_back(self) -> Self {
        AppView {
            focus: match self.focus {
                FocusTarget::Browse => FocusTarget::Chat,
                FocusTarget::Detail => FocusTarget::Browse,
                FocusTarget::Chat => FocusTarget::Detail,
            },
            ..self
        }
    }

    /// The label of the status bar for the current mode.
    pub open spec fn mode_label(self) -> Seq<char> {
        match self.mode {
            ModeView::SavedChannels => "Saved Channels"@,
            ModeView::Categories => "Categories"@,
            ModeView::CategoryStreams { game_name, .. } => "Category: "@ + game_name,
            ModeView::Search { .. } => "Search"@,
            ModeView::Vods { channel_name, .. } => "VODs: "@ + channel_name,
            ModeView::Followed => "Following"@,
            ModeView::QualitySelect { .. } => "Quality"@,
        }
    }

    /// The key hints of the status bar.
    pub open spec fn key_hints(self) -> Seq<char> {
        if self.show_help {
            "j/k scroll · ? close"@
        } else if self.focus == FocusTarget::Chat {
            "Enter send · ↑/↓ history · Esc back"@
        } else {
            match self.mode {
                ModeView::Search { .. } => "type to search · Enter watch · Esc back"@,
                ModeView::Categories => "Enter select · r refresh · Esc back"@,
                ModeView::Vods { .. } => "Enter play · r refresh · Esc back"@,
                ModeView::QualitySelect { .. } => "j/k choose · Enter select · Esc default"@,
                _ => "Enter watch · s save · r refresh · n more · ? help"@,
            }
        }
    }
}

impl<P> App<P> {
    /// A client showing the saved channels, browse pane focused, nothing loaded.
    pub fn new(saved_channels: Vec<SavedChannel>) -> (res: Self)
        ensures
            res@.mode == ModeView::SavedChannels,
            res@.focus == FocusTarget::Browse,
            res.saved_channels@ == saved_channels@,
            res@.channels.len() == 0,
            res@.categories.len() == 0,
            res@.category_streams.len() == 0,
            res@.search_results.len() == 0,
            res@.vods.len() == 0,
            res@.chat_messages.len() == 0,
            res@.chat_input.len() == 0,
            res@.chat_history.len() == 0,
            res@.chat_history_index.is_none(),
            res@.selected_index == 0,
            !res@.show_help,
            res@.help_scroll == 0,
            res@.help_max_scroll == crate::ui::help::HELP_LINE_COUNT - 1,
            res@.error_message.is_none(),
            !res@.is_loading,
            !res@.should_quit,
            res@.pagination_cursor.is_none(),
            res@.watching_channel.is_none(),
            res@.username.is_none(),
            !res@.has_oauth,
            res@.spinner_frame == 0,
            res@.thumbs.len() == 0,
            res@.last_thumb_key.is_none(),
            res@.chat_channel.is_none(),
            !res@.chat_connected,
            res.wf(),
    {
        App {
            mode: AppMode::SavedChannels,
            focus: FocusTarget::Browse,
            saved_channels,
            channels: Vec::new(),
            categories: Vec::new(),
            category_streams: Vec::new(),
            search_results: Vec::new(),
            vods: Vec::new(),
            chat_messages: Vec::new(),
            chat_input: String::new(),
            chat_history: Vec::new(),
            chat_history_index: None,
            selected_index: 0,
            show_help: false,
            help_scroll: 0,
            help_max_scroll: crate::ui::help::HELP_LINE_COUNT - 1,
            error_message: None,
            is_loading: false,
            should_quit: false,
            pagination_cursor: None,
            watching_channel: None,
            username: None,
            has_oauth: false,
            spinner_frame: 0,
            thumb_cache: ThumbnailCache::new(),
            last_thumb_key: None,
            chat_channel: None,
            chat_connected: false,
        }
    }

    /// The state is consistent: the thumbnail cache is, a quality picker
    /// points at an offered quality, a recalled message exists, the help
    /// scroll stays within the help text, and at most fifty sent messages are
    /// remembered.
    pub open spec fn wf(&self) -> bool {
        &&& self.thumb_cache.wf()
        &&& (self.mode matches AppMode::QualitySelect { quality_index, .. } ==> quality_index
            < QUALITY_COUNT)
        &&& (self.chat_history_index matches Some(i) ==> i < self.chat_history@.len())
        &&& self.help_scroll <= self.help_max_scroll
        &&& self.help_max_scroll <= crate::ui::help::HELP_LINE_COUNT - 1
        &&& self.chat_history@.len() <= 50
    }

    /// The length of the list the browse pane shows.
    pub fn current_list_len(&self) -> (res: usize)
        ensures
            res == self@.list_len(),
    {
        match &self.mode {
            AppMode::SavedChannels | AppMode::Followed => self.channels.len(),
            AppMode::Categories => self.categories.len(),
            AppMode::CategoryStreams { .. } => self.category_streams.len(),
            AppMode::Search { .. } => self.search_results.len(),
            AppMode::Vods { .. } => self.vods.len(),
            AppMode::QualitySelect { .. } => QUALITY_COUNT,
        }
    }

    /// The channels the selection refers to.
    pub fn current_channels(&self) -> (res: &Vec<Channel>)
        ensures
            channel_views(res@) == self@.channel_list(),
    {
        match &self.mode {
            AppMode::SavedChannels | AppMode::Followed => &self.channels,
            AppMode::CategoryStreams { .. } => &self.category_streams,
            AppMode::Search { .. } => &self.search_results,
            _ => &self.channels,
        }
    }

    /// The selected channel, if the selection falls on one.
    pub fn selected_channel(&self) -> (res: Option<&Channel>)
        ensures
            res.is_some() == self@.selected_channel().is_some(),
            res matches Some(c) ==> c@ == self@.selected_channel().unwrap(),
    {
        let list = self.current_channels();
        if self.selected_index < list.len() {
            Some(&list[self.selected_index])
        } else {
            None
        }
    }

    /// Moves the selection back inside the list.
    pub fn clamp_selection(&mut self)
        ensures
            final(self)@ == old(self)@.clamped(),
            final(self).wf() == old(self).wf(),
    {
        let len = self.current_list_len();
        if len == 0 {
            self.selected_index = 0;
        } else if self.selected_index >= len {
            self.selected_index = len - 1;
        }
    }

    /// Selects the first item.
    pub fn jump_top(&mut self)
        ensures
            final(self)@ == old(self)@.with_index(0),
            final(self).wf() == old(self).wf(),
    {
        self.selected_index = 0;
    }

    /// Selects the last item.
    pub fn jump_bottom(&mut self)
        ensures
            final(self)@ == old(self)@.at_bottom(),
            final(self).wf() == old(self).wf(),
    {
        let len = self.current_list_len();
        self.selected_index = if len > 0 {
            len - 1
        } else {
            0
        };
    }

    /// Moves the selection `page` items down, stopping at the last.
    pub fn page_down(&mut self, page: usize)
        ensures
            final(self)@ == old(self)@.paged_down(page),
            final(self).wf() == old(self).wf(),
    {
        let len = self.current_list_len();
        if len == 0 {
            return;
        }
        if self.selected_index < len - 1 && page < len - 1 - self.selected_index {
            self.selected_index = self.selected_index + page;
        } else {
            self.selected_index = len - 1;
        }
    }

    /// Moves the selection `page` items up, stopping at the first.
    pub fn page_up(&mut self, page: usize)
        ensures
            final(self)@ == old(self)@.paged_up(page),
            final(self).wf() == old(self).wf(),
    {
        self.selected_index = if self.selected_index >= page {
            self.selected_index - page
        } else {
            0
        };
    }

    /// Moves the selection one down, from the last item to the first.
    pub fn select_next(&mut self)
        ensures
            final(self)@ == old(self)@.stepped_down(),
            final(self).wf() == old(self).wf(),
    {
        let len = self.current_list_len();
        if len > 0 {
            let r = self.selected_index % len;
            assert((self.selected_index + 1) % (len as int) == if r + 1 == len {
                0int
            } else {
                r + 1
            }) by (nonlinear_arith)
                requires
                    len > 0,
                    r == self.selected_index % len,
            ;
            self.selected_index = if r + 1 == len {
                0
            } else {
                r + 1
            };
        }
    }

    /// Moves the selection one up, from the first item to the last.
    pub fn select_prev(&mut self)
        ensures
            final(self)@ == old(self)@.stepped_up(),
            final(self).wf() == old(self).wf(),
    {
        let len = self.current_list_len();
        if len > 0 {
            let r = self.selected_index % len;
            assert((self.selected_index + len - 1) % (len as int) == if r == 0 {
                len - 1
            } else {
                r - 1
            }) by (nonlinear_arith)
                requires
                    len > 0,
                    r == self.selected_index % len,
            ;
            self.selected_index = if r == 0 {
                len - 1
            } else {
                r - 1
            };
        }
    }

    /// Passes the focus to the next pane.
    pub fn cycle_focus(&mut self)
        ensures
            final(self)@ == old(self)@.focus_cycled(),
            final(self).wf() == old(self).wf(),
    {
        self.focus = match self.focus {
            FocusTarget::Browse => FocusTarget::Detail,
            FocusTarget::Detail => FocusTarget::Chat,
            FocusTarget::Chat => FocusTarget::Browse,
        };
    }

    /// Passes the focus to the previous pane.
    pub fn cycle_focus_back(&mut self)
        ensures
            final(self)@ == old(self)@.focus_cycled_back(),
            final(self).wf() == old(self).wf(),
    {
        self.focus = match self.focus {
            FocusTarget::Browse => FocusTarget::Chat,
            FocusTarget::Detail => FocusTarget::Browse,
            FocusTarget::Chat => FocusTarget::Detail,
        };
    }

    /// Selects the first item.
    pub fn reset_selection(&mut self)
        ensures
            final(self)@ == old(self)@.with_index(0),
            final(self).wf() == old(self).wf(),
    {
        self.selected_index = 0;
    }

    /// Whether the browse list ends with the prompt to load the next page:
    /// exactly while a page cursor is held (more results can be had).
    pub fn shows_more_prompt(&self) -> (res: bool)
        ensures
            res == self@.pagination_cursor.is_some(),
    {
        self.pagination_cursor.is_some()
    }

    /// The label of the status bar for the current mode.
    pub fn mode_label(&self) -> (res: String)
        ensures
            res@ == self@.mode_label(),
    {
        match &self.mode {
            AppMode::SavedChannels => String::from_str("Saved Channels"),
            AppMode::Categories => String::from_str("Categories"),
            AppMode::CategoryStreams { game_name, .. } => String::from_str("Category: ").concat(game_name.as_str()),
            AppMode::Search { .. } => String::from_str("Search"),
            AppMode::Vods { channel_name, .. } => String::from_str("VODs: ").concat(channel_name.as_str()),
            AppMode::Followed => String::from_str("Following"),
            AppMode::QualitySelect { .. } => String::from_str("Quality"),
        }
    }

    /// The key hints of the status bar.
    pub fn key_hints(&self) -> (res: &str)
        ensures
            res@ == self@.key_hints(),
    {
        if self.show_help {
            return "j/k scroll · ? close";
        }
        if self.focus == FocusTarget::Chat {
            return "Enter send · ↑/↓ history · Esc back";
        }
        match &self.mode {
            AppMode::Search { .. } => "type to search · Enter watch · Esc back",
            AppMode::Categories => "Enter select · r refresh · Esc back",
            AppMode::Vods { .. } => "Enter play · r refresh · Esc back",
            AppMode::QualitySelect { .. } => "j/k choose · Enter select · Esc default",
            _ => "Enter watch · s save · r refresh · n more · ? help",
        }
    }
}

} // verus!
