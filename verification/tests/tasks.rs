use twitch_tui::tasks::{
    followed_after_follows, followed_after_live, followed_after_user, search_error, search_step, FollowedStep,
    SearchAction, SearchStage,
};
use twitch_tui::thumb::{decode_thumbnail, fetch_step, FetchAction, FetchStage};
use twitch_tui::twitch::Channel;

fn channel(name: &str, live: bool) -> Channel {
    Channel {
        twitch_id: name.to_uppercase(),
        name: name.to_string(),
        display_name: name.to_uppercase(),
        is_live: live,
        title: if live { Some("t".to_string()) } else { None },
        game_name: None,
        viewer_count: if live { Some(3) } else { None },
        started_at: None,
        thumbnail_url: None,
        tags: Vec::new(),
    }
}

#[test]
fn fetch_steps_follow_the_latest_request() {
    assert_eq!(fetch_step(FetchStage::AfterWait, 3, 3), FetchAction::Download);
    assert_eq!(fetch_step(FetchStage::AfterWait, 3, 4), FetchAction::Discard);
    assert_eq!(fetch_step(FetchStage::AfterDownload(true), 3, 3), FetchAction::Decode);
    assert_eq!(fetch_step(FetchStage::AfterDownload(false), 3, 3), FetchAction::Discard);
    assert_eq!(fetch_step(FetchStage::AfterDownload(true), 3, 5), FetchAction::Discard);
    assert_eq!(fetch_step(FetchStage::AfterDecode(true), 3, 3), FetchAction::Send);
    assert_eq!(fetch_step(FetchStage::AfterDecode(false), 3, 3), FetchAction::Discard);
    assert_eq!(fetch_step(FetchStage::AfterDecode(true), 2, 3), FetchAction::Discard);
}

#[test]
fn thumbnails_decode_from_png_bytes() {
    let img = image::RgbImage::from_pixel(2, 1, image::Rgb([10, 20, 30]));
    let mut bytes: Vec<u8> = Vec::new();
    image::DynamicImage::ImageRgb8(img)
        .write_to(&mut std::io::Cursor::new(&mut bytes), image::ImageFormat::Png)
        .unwrap();
    let decoded = decode_thumbnail(&bytes).unwrap();
    assert_eq!(decoded.width(), 2);
    assert_eq!(decoded.height(), 1);
    assert!(decode_thumbnail(b"not an image").is_none());
    assert!(decode_thumbnail(&[]).is_none());
}

#[test]
fn search_steps() {
    assert_eq!(search_step(SearchStage::Start, true, 1, 1), SearchAction::AnswerEmpty);
    assert_eq!(search_step(SearchStage::Start, false, 1, 1), SearchAction::Wait);
    assert_eq!(search_step(SearchStage::AfterWait, false, 1, 2), SearchAction::Discard);
    assert_eq!(search_step(SearchStage::AfterWait, false, 2, 2), SearchAction::Search);
    assert_eq!(search_step(SearchStage::AfterSearch(true), false, 2, 2), SearchAction::Deliver);
    assert_eq!(search_step(SearchStage::AfterSearch(true), false, 2, 3), SearchAction::Discard);
    assert_eq!(search_step(SearchStage::AfterSearch(false), false, 2, 3), SearchAction::Fail);
    assert_eq!(search_error("timeout"), "Search error: timeout");
}

#[test]
fn followed_steps() {
    assert!(matches!(followed_after_user(Ok("42".to_string())), FollowedStep::FetchFollows { ref user_id } if user_id == "42"));
    assert!(matches!(followed_after_user(Err("401".to_string())), FollowedStep::Fail { ref error } if error == "User info error: 401"));
    assert!(matches!(followed_after_follows(&Ok(Vec::new())), FollowedStep::Deliver));
    assert!(matches!(followed_after_follows(&Err("x".to_string())), FollowedStep::Fail { ref error } if error == "Followed error: x"));
    match followed_after_follows(&Ok(vec![channel("a", false), channel("b", false)])) {
        FollowedStep::FetchLive { logins } => assert_eq!(logins, vec!["a".to_string(), "b".to_string()]),
        other => panic!("unexpected {:?}", other),
    }
    let (merged, err) = followed_after_live(vec![channel("a", false), channel("b", false)], Ok(vec![channel("b", true)]));
    assert!(err.is_none());
    assert!(!merged[0].is_live);
    assert!(merged[1].is_live);
    assert_eq!(merged[1].viewer_count, Some(3));
    let (kept, err) = followed_after_live(vec![channel("a", false)], Err("down".to_string()));
    assert_eq!(kept.len(), 1);
    assert!(!kept[0].is_live);
    assert_eq!(err.as_deref(), Some("Followed live check: down"));
}
