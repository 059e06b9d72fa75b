use twitch_tui::app::AppMode;
use twitch_tui::notify::Notice;
use twitch_tui::player::{launch_error, notice_args, player_args, stream_url, valid_channel_name, vod_url};
use twitch_tui::twitch::api::FollowData;
use twitch_tui::twitch::{Channel, Game, Vod};
use twitch_tui::ui::browse::{category_row, channel_row, list_title, search_row, stream_row, vod_row};
use twitch_tui::ui::chat::{chat_title, last_visible};
use twitch_tui::ui::detail::{thumb_and_text_areas, Area};
use twitch_tui::ui::overlay::{auth_status, help_area, quality_areas, quality_item, spinner_glyph};
use twitch_tui::ui::pane::{channel_detail_lines, vod_detail_lines, Emphasis, Piece, Tone};

fn live_channel() -> Channel {
    Channel {
        twitch_id: "42".to_string(),
        name: "shroud".to_string(),
        display_name: "Shroud".to_string(),
        is_live: true,
        title: Some("ranked grind".to_string()),
        game_name: Some("Valorant".to_string()),
        viewer_count: Some(42391),
        started_at: Some("2024-01-01T00:00:00Z".to_string()),
        thumbnail_url: None,
        tags: vec!["English".to_string(), "FPS".to_string()],
    }
}

fn texts(line: &[Piece]) -> Vec<&str> {
    line.iter().map(|p| p.text.as_str()).collect()
}

fn vod() -> Vod {
    Vod {
        id: "v1".to_string(),
        title: "Best plays".to_string(),
        duration: "1h2m3s".to_string(),
        created_at: "2024-01-01".to_string(),
        thumbnail_url: String::new(),
        user_name: "Shroud".to_string(),
    }
}

#[test]
fn detail_lines_of_a_live_channel() {
    let ch = live_channel();
    let lines = channel_detail_lines(&ch, "1h 05m", false, 5);
    assert_eq!(texts(&lines[0]), vec!["●", " ", "Shroud", "  ", "LIVE for 1h 05m"]);
    assert_eq!(lines[0][0].tone, Tone::Red);
    assert_eq!(lines[0][2].emphasis, Emphasis::Bold);
    assert_eq!(texts(&lines[1]), vec!["━━━━━"]);
    assert_eq!(texts(&lines[2]), vec!["ranked grind"]);
    assert!(lines[3].is_empty());
    assert_eq!(texts(&lines[4]), vec!["Game ", "Valorant"]);
    assert_eq!(lines[4][1].tone, Tone::Yellow);
    assert!(lines[5].is_empty());
    assert_eq!(texts(&lines[6]), vec!["△ ", "42,391 viewers"]);
    assert!(lines[7].is_empty());
    assert_eq!(texts(&lines[8]), vec!["[English]", " ", "[FPS]"]);
    assert_eq!(lines[8][0].tone, Tone::Cyan);
    assert_eq!(lines[8][2].tone, Tone::Green);
    assert!(lines[9].is_empty());
    assert_eq!(texts(&lines[10]), vec!["[s] save · [Enter] watch · [v] vods"]);
    assert_eq!(lines.len(), 11);
}

#[test]
fn detail_lines_while_picking_quality() {
    let mut ch = live_channel();
    ch.is_live = false;
    ch.title = None;
    ch.game_name = None;
    ch.viewer_count = None;
    ch.tags = Vec::new();
    let lines = channel_detail_lines(&ch, "", true, 0);
    assert_eq!(texts(&lines[0]), vec!["○", " ", "Shroud", "  ", "Offline"]);
    assert_eq!(texts(&lines[1]), vec![""]);
    assert_eq!(texts(&lines[2]), vec![" ▶ ", "Now playing"]);
    assert!(lines[3].is_empty());
    assert!(lines[4].is_empty());
    assert_eq!(texts(&lines[5]), vec!["j/k quality · Enter confirm · Esc default"]);
    assert_eq!(lines.len(), 6);
}

#[test]
fn detail_lines_of_a_video() {
    let lines = vod_detail_lines(&vod(), 3);
    assert_eq!(texts(&lines[0]), vec!["Best plays"]);
    assert_eq!(texts(&lines[1]), vec!["━━━"]);
    assert_eq!(texts(&lines[2]), vec!["Duration ", "1h2m3s"]);
    assert_eq!(texts(&lines[3]), vec!["Channel  ", "Shroud"]);
    assert_eq!(texts(&lines[4]), vec!["Created  ", "2024-01-01"]);
    assert!(lines[5].is_empty());
    assert_eq!(texts(&lines[6]), vec!["[Enter] play · [Esc] back"]);
}

#[test]
fn browse_rows() {
    let ch = live_channel();
    let row = channel_row(&ch, "2h 00m", true);
    assert_eq!(texts(&row), vec!["●", " ", "Shroud", "  ", "2h 00m", "  ", "Valorant", "  ", "42.4k"]);
    assert_eq!(row[2].emphasis, Emphasis::Bold);
    let row = stream_row(&ch, "2h 00m", false);
    assert_eq!(texts(&row), vec!["●", " ", "Shroud", "  ", "2h 00m", "  ", "42.4k"]);
    assert_eq!(row[2].emphasis, Emphasis::Normal);

    let mut off = live_channel();
    off.is_live = false;
    let row = channel_row(&off, "", false);
    assert_eq!(texts(&row), vec!["○", " ", "Shroud", "  offline"]);
    assert_eq!(row[3].emphasis, Emphasis::Italic);
    let row = search_row(&off, false);
    assert_eq!(texts(&row), vec!["○", " ", "Shroud"]);
    assert_eq!(row[2].tone, Tone::Dim);

    let row = vod_row(&vod(), false);
    assert_eq!(texts(&row), vec![" ", "[1h2m3s]", " ", "Best plays"]);
    let g = Game { id: "1".to_string(), name: "Chess".to_string(), box_art_url: None };
    assert_eq!(texts(&category_row(&g, true)), vec![" Chess"]);
}

#[test]
fn list_titles() {
    assert_eq!(list_title(&AppMode::Categories, 20), " Categories · 20 ");
    let m = AppMode::CategoryStreams { game_id: "1".to_string(), game_name: "Chess".to_string() };
    assert_eq!(list_title(&m, 3), " Category: Chess · 3 streams ");
    assert_eq!(list_title(&AppMode::Search { query: "sh".to_string() }, 2), " Search: \"sh\" · 2 results ");
    assert_eq!(list_title(&AppMode::Vods { channel_name: "Shroud".to_string(), user_id: "9".to_string() }, 10), " VODs: Shroud · 10 videos ");
    assert_eq!(list_title(&AppMode::SavedChannels, 4), "");
}

#[test]
fn chat_titles_and_scroll() {
    assert_eq!(chat_title(0, 0), " Chat — press Enter on a stream to connect ");
    assert_eq!(chat_title(12, 10), " Chat ");
    assert_eq!(chat_title(51, 40), " Chat · 51 lines ");
    assert_eq!(last_visible(51, 20, 40), 39);
    assert_eq!(last_visible(0, 20, 0), 0);
}

#[test]
fn overlays() {
    let (picker, hint) = quality_areas(100, 30);
    assert_eq!(picker, Area { x: 30, y: 10, width: 40, height: 10 });
    assert_eq!(hint, Some(Area { x: 30, y: 20, width: 40, height: 1 }));
    let (picker, hint) = quality_areas(20, 10);
    assert_eq!(picker, Area { x: 0, y: 0, width: 40, height: 10 });
    assert_eq!(hint, None);
    assert_eq!(quality_item(0, 0), "> best");
    assert_eq!(quality_item(5, 0), "  audio_only");
    let area = help_area(Area { x: 0, y: 0, width: 100, height: 50 });
    assert_eq!(area, Area { x: 22, y: 6, width: 56, height: 37 });
    let small = help_area(Area { x: 0, y: 0, width: 10, height: 5 });
    assert_eq!(small, Area { x: 2, y: 1, width: 6, height: 3 });
    assert_eq!(spinner_glyph(0), '⠋');
    assert_eq!(spinner_glyph(13), '⠸');
    assert_eq!(auth_status(true, &Some("me".to_string())), (true, "me".to_string()));
    assert_eq!(auth_status(true, &None), (true, "authed".to_string()));
    assert_eq!(auth_status(false, &Some("me".to_string())), (false, "anon".to_string()));
}

#[test]
fn thumbnail_layout_small_panes() {
    assert_eq!(thumb_and_text_areas(Area { x: 0, y: 0, width: 40, height: 11 }, (10, 20)), None);
    let (thumb, text) = thumb_and_text_areas(Area { x: 0, y: 0, width: 40, height: 12 }, (10, 20)).unwrap();
    assert_eq!(thumb, Area { x: 9, y: 1, width: 21, height: 6 });
    assert_eq!(text, Area { x: 0, y: 8, width: 40, height: 4 });
    assert!(thumb_and_text_areas(Area { x: 0, y: 0, width: 40, height: 13 }, (10, 20)).is_some());
    assert_eq!(thumb_and_text_areas(Area { x: 65000, y: 0, width: 600, height: 30 }, (10, 20)), None);
}

#[test]
fn player_and_notice_commands() {
    assert_eq!(stream_url("shroud_42"), Ok("https://twitch.tv/shroud_42".to_string()));
    assert_eq!(stream_url("x; rm -rf"), Err("Invalid channel name: x; rm -rf".to_string()));
    assert_eq!(stream_url(""), Err("Invalid channel name: ".to_string()));
    assert!(valid_channel_name("Abc_9"));
    assert!(!valid_channel_name("a-b"));
    assert_eq!(vod_url("123"), "https://twitch.tv/videos/123");
    assert_eq!(player_args("u", "720p"), vec!["u", "720p", "--player", "mpv"]);
    assert_eq!(launch_error(true, "x"), "streamlink not found. Install: sudo pacman -S streamlink mpv");
    assert_eq!(launch_error(false, "denied"), "Failed to start streamlink: denied");
    let n = Notice { title: "Shroud is LIVE".to_string(), body: "Valorant".to_string() };
    assert_eq!(notice_args(&n), vec!["-a", "twitch-tui", "Shroud is LIVE", "Valorant"]);
}

#[test]
fn followed_channel_starts_offline() {
    let f = FollowData {
        broadcaster_id: "7".to_string(),
        broadcaster_login: "sh".to_string(),
        broadcaster_name: "Sh".to_string(),
    };
    let ch = f.into_channel();
    assert_eq!(ch.twitch_id, "7");
    assert_eq!(ch.name, "sh");
    assert_eq!(ch.display_name, "Sh");
    assert!(!ch.is_live);
    assert!(ch.title.is_none());
}
