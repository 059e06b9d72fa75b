use twitch_tui::app::AppMode;
use twitch_tui::notify::{live_logins, live_notifications};
use twitch_tui::thumb::{cache_key, resolve_url, ThumbnailCache};
use twitch_tui::twitch::{merge_live_status, Channel};
use twitch_tui::ui::browse::{channels_header, header_title};
use twitch_tui::ui::chat::{display_width, mentions_user, user_badge, username_color_index, wrap_chat_text};
use twitch_tui::ui::detail::{thumb_and_text_areas, Area};
use twitch_tui::ui::help::{help_lines, total_lines, HelpLine};

fn channel(id: &str, name: &str, live: bool) -> Channel {
    Channel {
        twitch_id: id.to_string(),
        name: name.to_string(),
        display_name: name.to_uppercase(),
        is_live: live,
        title: None,
        game_name: None,
        viewer_count: None,
        started_at: None,
        thumbnail_url: None,
        tags: Vec::new(),
    }
}

#[test]
fn help_has_thirty_three_lines() {
    assert_eq!(total_lines(), 33);
    let lines = help_lines();
    match &lines[0] {
        HelpLine::Heading(t) => assert_eq!(t, "Navigation"),
        other => panic!("unexpected {:?}", other),
    }
    match &lines[1] {
        HelpLine::Binding { key, description } => {
            assert_eq!(key, "  Tab / Shift+Tab ");
            assert_eq!(description, "Switch pane");
        },
        other => panic!("unexpected {:?}", other),
    }
    assert!(matches!(lines[7], HelpLine::Blank));
}

#[test]
fn badges_colors_widths() {
    assert_eq!(user_badge("nightbot"), Some("BOT"));
    assert_eq!(user_badge("streamelements"), Some("BOT"));
    assert_eq!(user_badge("NightBot"), None);
    let h = "ab".bytes().fold(0u32, |acc, b| acc.wrapping_mul(31).wrapping_add(b as u32));
    assert_eq!(username_color_index("ab"), (h as usize) % 12);
    let long = "x".repeat(20);
    let h = long.bytes().fold(0u32, |acc, b| acc.wrapping_mul(31).wrapping_add(b as u32));
    assert_eq!(username_color_index(&long), (h as usize) % 12);
    assert_eq!(display_width("abc"), 3);
    assert_eq!(display_width("日本"), 4);
    assert_eq!(display_width("a\tb"), 2);
}

#[test]
fn mentions_are_whole_words() {
    assert!(mentions_user("hey Alice!", Some("alice")));
    assert!(!mentions_user("malice", Some("alice")));
    assert!(!mentions_user("alice2", Some("alice")));
    assert!(mentions_user("alice2 alice", Some("alice")));
    assert!(!mentions_user("hi", None));
    assert!(!mentions_user("hi", Some("")));
    // occurrences are scanned without overlap
    assert!(!mentions_user("xa.a.a", Some("a.a")));
    assert!(!mentions_user("xabab", Some("ab")));
    assert!(!mentions_user("alicealice", Some("alice")));
    assert!(mentions_user("alicealice alice", Some("alice")));
}

#[test]
fn chat_wrapping() {
    assert_eq!(wrap_chat_text(None, "bob", "hello", 8), None);
    assert_eq!(wrap_chat_text(None, "a_long_sender_name", "hi", 12), None);
    let lines = wrap_chat_text(None, "bob", "one two three four", 12).unwrap();
    // "bob: " takes five columns; every line wraps at the seven left, and the
    // lines after the first start under the message's first column.
    assert_eq!(lines, vec!["one two".to_string(), "     three".to_string(), "     four".to_string()]);
    let lines = wrap_chat_text(Some("BOT"), "b", "", 20).unwrap();
    assert_eq!(lines, vec!["".to_string()]);
    let lines = wrap_chat_text(None, "b", "averyveryverylongword x", 10).unwrap();
    assert_eq!(lines, vec!["averyveryverylongword".to_string(), "   x".to_string()]);
    let lines = wrap_chat_text(Some("BOT"), "ab", "a b c d e f", 15).unwrap();
    // "[BOT] ab: " takes ten columns, five are left
    assert_eq!(lines, vec!["a b c".to_string(), "          d e f".to_string()]);
}

#[test]
fn thumbnail_keys_and_addresses() {
    let mut c = channel("7", "x", true);
    assert_eq!(cache_key(&c), Some("7@live".to_string()));
    c.started_at = Some("T".to_string());
    assert_eq!(cache_key(&c), Some("7@T".to_string()));
    c.is_live = false;
    assert_eq!(cache_key(&c), None);
    assert_eq!(
        resolve_url("https://x/{width}x{height}-{width}.jpg"),
        Some("https://x/640x360-640.jpg".to_string())
    );
    assert_eq!(resolve_url(""), None);
    assert_eq!(resolve_url("ftp://x"), None);
}

#[test]
fn thumbnail_cache_evicts_least_recently_used() {
    let mut cache: ThumbnailCache<u32> = ThumbnailCache::new();
    for i in 0..32u32 {
        cache.insert(i.to_string(), i);
    }
    assert!(cache.contains("0"));
    assert_eq!(*cache.get_mut("0").unwrap(), 0);
    cache.insert("32".to_string(), 32);
    assert!(cache.contains("32"));
    assert!(cache.contains("0"));
    assert!(!cache.contains("1"));
    cache.insert("2".to_string(), 200);
    cache.insert("33".to_string(), 33);
    assert!(cache.contains("2"));
    assert!(!cache.contains("3"));
    assert_eq!(*cache.get_mut("2").unwrap(), 200);
    *cache.get_mut("5").unwrap() = 55;
    assert_eq!(*cache.get_mut("5").unwrap(), 55);
    assert!(cache.get_mut("nope").is_none());
}

#[test]
fn browse_titles() {
    assert_eq!(header_title(&AppMode::Search { query: "ab".to_string() }), "Search: ab");
    assert_eq!(header_title(&AppMode::Vods { channel_name: "X".to_string(), user_id: "9".to_string() }), "VODs: X");
    assert_eq!(header_title(&AppMode::Followed), "Following");
    let chs = vec![channel("1", "a", true), channel("2", "b", false), channel("3", "c", true)];
    assert_eq!(channels_header(false, &chs), " Saved · 3 channels · 2 live ");
    assert_eq!(channels_header(true, &chs), " Following · 3 channels · 2 live ");
}

#[test]
fn detail_layout() {
    let inner = Area { x: 0, y: 0, width: 40, height: 30 };
    let (thumb, text) = thumb_and_text_areas(inner, (10, 20)).unwrap();
    // rows = min(30 * 45 / 100, 11) = 11; columns = 11 * 20 * 16 / 90 = 39 > 38, so 38 columns, rows = 38*90/320 = 10
    assert_eq!(thumb, Area { x: 1, y: 1, width: 38, height: 10 });
    assert_eq!(text, Area { x: 0, y: 12, width: 40, height: 18 });
    assert_eq!(thumb_and_text_areas(Area { x: 0, y: 0, width: 20, height: 30 }, (10, 20)), None);
    let (thumb, _) = thumb_and_text_areas(Area { x: 0, y: 0, width: 100, height: 40 }, (8, 16)).unwrap();
    // rows = min(18, 11) = 11, inside the top twelve rows; columns = 11 * 16 * 16 / 72 = 39
    assert_eq!(thumb, Area { x: 30, y: 1, width: 39, height: 11 });
}

#[test]
fn went_live_notices() {
    let mut a = channel("1", "a", true);
    a.game_name = Some("G".to_string());
    a.title = Some("T".to_string());
    let b = channel("2", "b", true);
    let before = vec!["b".to_string()];
    let n = live_notifications(&before, &vec![a.clone(), b.clone()]);
    assert_eq!(n.len(), 1);
    assert_eq!(n[0].title, "A is LIVE");
    assert_eq!(n[0].body, "G - T");
    assert_eq!(live_logins(&vec![a, b]), vec!["a".to_string(), "b".to_string()]);
}

#[test]
fn followed_merged_with_live() {
    let followed = vec![channel("1", "a", false), channel("2", "b", false)];
    let mut live = channel("2", "b", true);
    live.title = Some("T".to_string());
    live.viewer_count = Some(3);
    let merged = merge_live_status(followed, &vec![live]);
    assert!(!merged[0].is_live);
    assert!(merged[1].is_live);
    assert_eq!(merged[1].title.as_deref(), Some("T"));
    assert_eq!(merged[1].viewer_count, Some(3));
}

#[test]
fn new_broadcast_gets_new_key() {
    let mut a = channel("7", "x", true);
    a.started_at = Some("2024-01-01T00:00:00Z".to_string());
    let mut b = a.clone();
    b.started_at = Some("2024-01-02T00:00:00Z".to_string());
    assert_ne!(cache_key(&a), cache_key(&b));
}

#[test]
fn second_poll_sends_no_notice() {
    let live = vec![channel("1", "a", true), channel("2", "b", true)];
    let first = live_notifications(&Vec::new(), &live);
    assert_eq!(first.len(), 2);
    assert_eq!(first[0].title, "A is LIVE");
    assert_eq!(first[1].title, "B is LIVE");
    let seen = live_logins(&live);
    assert!(live_notifications(&seen, &live).is_empty());
}

#[test]
fn cache_keys_after_storing() {
    let mut cache: ThumbnailCache<u32> = ThumbnailCache::new();
    for i in 0..31u32 {
        cache.insert(i.to_string(), i);
    }
    cache.insert("5".to_string(), 55);
    assert!((0..31u32).all(|i| cache.contains(&i.to_string())));
    cache.insert("31".to_string(), 31);
    assert!((0..32u32).all(|i| cache.contains(&i.to_string())));
    cache.insert("x".to_string(), 0);
    assert!(cache.contains("x"));
    assert!(!cache.contains("0"));
    assert!((1..32u32).all(|i| cache.contains(&i.to_string())));
}
