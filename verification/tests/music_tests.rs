use thenbot::music::play;
use thenbot::music::play_route;
use thenbot::music::play_internal;
use thenbot::music::try_play;
use thenbot::music::try_play_internal;
use thenbot::music::is_url_without_host;
use thenbot::music::track_request;
use thenbot::music::is_youtube_host;
use thenbot::music::PlayRoute;
use thenbot::music::TrackRequest;
use thenbot::music::enqueue_mode;
use thenbot::music::EnqueueMode;
use thenbot::music::PRELOAD_SECS;
use thenbot::music::track_label;
use thenbot::music::playing_reply;
use thenbot::music::playlist_loading;
use thenbot::music::playlist_progress;
use thenbot::music::not_in_voice_channel;
use thenbot::music::queue;
use thenbot::music::TrackInfo;
use thenbot::music::skip;
use thenbot::music::skip_times;
use thenbot::music::loop_command;
use thenbot::music::clamp_volume;
use thenbot::music::skip_reply;
use thenbot::music::stop;
use thenbot::music::leave;
use thenbot::music::join;
use thenbot::music::join_internal;
use thenbot::music::JoinRefusal;
use thenbot::music::loop_mode;
use thenbot::music::loop_internal;
use thenbot::music::LoopMode;
use thenbot::music::LoopError;
use thenbot::music::volume;
use thenbot::music::volume_reply;

#[test]
fn youtube_hosts() {
    for h in ["youtube.com", "youtu.be", "www.youtube.com", "m.youtube.com", "music.youtube.com"] {
        assert!(is_youtube_host(h));
    }
    assert!(!is_youtube_host("example.com"));
    assert!(!is_youtube_host("youtube.com.evil"));
}

#[test]
fn play_routes_queries() {
    let p = play(true, "https://www.youtube.com/playlist?list=PL123");
    assert_eq!(p.route, PlayRoute::Playlist);
    assert!(!p.join_first);
    let p = play(false, "https://youtu.be/dQw4w9WgXcQ");
    assert_eq!(p.route, PlayRoute::Track);
    assert!(p.join_first);
    assert_eq!(play(true, "never gonna give you up").route, PlayRoute::Search);
    assert_eq!(play(true, "https://example.com/playlist").route, PlayRoute::Track);
    assert_eq!(play(true, "https://example.com/x").url, Some("https://example.com/x".to_string()));
    assert_eq!(play(true, "lofi").url, None);
}

#[test]
fn try_play_refuses_urls_without_host() {
    assert!(is_url_without_host("mailto:someone@example.com"));
    assert!(!is_url_without_host("https://youtu.be/x"));
    assert!(!is_url_without_host("just words"));
    assert_eq!(try_play(true, "mailto:someone@example.com"), None);
    let p = try_play(false, "https://youtu.be/x").unwrap();
    assert_eq!(p.route, PlayRoute::Track);
    assert!(p.join_first);
    assert_eq!(try_play(true, "lofi beats").unwrap().route, PlayRoute::Search);
}

#[test]
fn play_route_from_parsed_url() {
    let yt = Some((Some("youtube.com".to_string()), "https://youtube.com/playlist?list=1".to_string()));
    assert_eq!(play_route(&yt, "https://youtube.com/playlist?list=1"), PlayRoute::Playlist);
    assert_eq!(play_route(&yt, "https://youtube.com/watch?v=1"), PlayRoute::Track);
    let other = Some((Some("example.com".to_string()), "https://example.com/playlist".to_string()));
    assert_eq!(play_route(&other, "https://example.com/playlist"), PlayRoute::Track);
    assert_eq!(play_route(&None, "playlist"), PlayRoute::Search);
}

#[test]
fn play_internal_searches_fetches_or_refuses() {
    assert_eq!(play_internal(false, "https://youtu.be/x"), TrackRequest::Refuse("Failed to get guild.".to_string()));
    assert_eq!(play_internal(true, "https://youtu.be/x"), TrackRequest::Fetch("https://youtu.be/x".to_string()));
    assert_eq!(
        play_internal(true, "HTTPS://Music.YouTube.com/watch?v=x"),
        TrackRequest::Fetch("https://music.youtube.com/watch?v=x".to_string())
    );
    assert_eq!(play_internal(true, "https://example.com/x"), TrackRequest::Refuse("Support only YouTube URL".to_string()));
    assert_eq!(play_internal(true, "some search words"), TrackRequest::Search("some search words".to_string()));
    assert_eq!(try_play_internal(true, "mailto:a@b.c"), None);
    assert_eq!(try_play_internal(false, "mailto:a@b.c"), Some(TrackRequest::Refuse("Failed to get guild.".to_string())));
    assert_eq!(try_play_internal(true, "lofi"), Some(TrackRequest::Search("lofi".to_string())));
    assert_eq!(play_internal(false, "some search words"), TrackRequest::Refuse("Failed to get guild.".to_string()));
}

#[test]
fn track_request_from_parsed_url() {
    let yt = Some((Some("youtu.be".to_string()), "https://youtu.be/a".to_string()));
    assert_eq!(track_request(true, yt, "https://youtu.be/a"), TrackRequest::Fetch("https://youtu.be/a".to_string()));
    let vimeo = Some((Some("vimeo.com".to_string()), "https://vimeo.com/1".to_string()));
    assert_eq!(track_request(true, vimeo, "https://vimeo.com/1"), TrackRequest::Refuse("Support only YouTube URL".to_string()));
    assert_eq!(track_request(true, None, "lofi beats"), TrackRequest::Search("lofi beats".to_string()));
    assert_eq!(track_request(false, None, "lofi beats"), TrackRequest::Refuse("Failed to get guild.".to_string()));
}

#[test]
fn enqueue_modes() {
    assert_eq!(enqueue_mode(false), EnqueueMode::PlayNow);
    assert_eq!(enqueue_mode(true), EnqueueMode::Preload);
    assert_eq!(PRELOAD_SECS, 10);
}

#[test]
fn track_labels() {
    assert_eq!(track_label(Some("Song".to_string()), Some("Chan".to_string())), Some("`Song` by Chan".to_string()));
    assert_eq!(track_label(None, Some("Chan".to_string())), Some("`Unknown Title` by Chan".to_string()));
    assert_eq!(track_label(Some("Song".to_string()), None), None);
    assert_eq!(playing_reply("`Song` by Chan"), "Playing `Song` by Chan");
}

#[test]
fn playlist_messages() {
    assert_eq!(playlist_loading(), "Loading Playlist");
    let mut results = vec!["`A` by X".to_string()];
    assert_eq!(playlist_progress(&results), "`A` by X");
    let before = playlist_progress(&results);
    results.push("`B` by Y".to_string());
    assert_eq!(playlist_progress(&results), format!("{}\n{}", before, "`B` by Y"));
    assert_eq!(playlist_progress(&results), "`A` by X\n`B` by Y");
}

#[test]
fn queue_listing() {
    assert_eq!(queue(false, &vec![]), "Not in voice channel");
    assert_eq!(queue(true, &vec![]), "Queue is empty");
    let tracks = vec![
        Some(TrackInfo { title: Some("A".to_string()), channel: Some("X".to_string()) }),
        Some(TrackInfo { title: None, channel: None }),
        None,
    ];
    assert_eq!(queue(true, &tracks), "A - X\nUnknown Title - Unknown Channel\nunk");
    assert_eq!(not_in_voice_channel(), "Not in voice channel");
}

#[test]
fn skip_counts_and_reply() {
    assert_eq!(skip_times(None), 1);
    assert_eq!(skip_times(Some(3)), 3);
    assert_eq!(skip_times(Some(0)), 0);
    assert_eq!(skip_times(Some(-5)), 0);
    assert_eq!(skip_times(Some(i32::MAX)), i32::MAX as u32);
    assert_eq!(skip(true, Some(2)), Ok(2));
    assert_eq!(skip(true, None), Ok(1));
    assert_eq!(skip(false, Some(2)), Err("Not in voice channel".to_string()));
    assert_eq!(skip_reply(0), "Song skipped: 0 in queue.");
    assert_eq!(skip_reply(12), "Song skipped: 12 in queue.");
}

#[test]
fn stop_and_leave_answers() {
    assert_eq!(stop(true), "Queue cleared.");
    assert_eq!(stop(false), "Not in voice channel");
    assert_eq!(leave(false, None), vec!["Not in voice channel".to_string()]);
    assert_eq!(leave(true, None), vec!["Left voice channel".to_string()]);
    assert_eq!(leave(true, Some("NoCall".to_string())), vec!["Err: NoCall".to_string(), "Left voice channel".to_string()]);
}

#[test]
fn join_needs_a_channel() {
    assert_eq!(join(Some(42)), Ok(42));
    assert_eq!(join(None), Err(JoinRefusal::NoCall));
    assert_eq!(join_internal(Some(7)), Ok(7));
    assert_eq!(join_internal(None), Err(JoinRefusal::NoCall));
}

#[test]
fn loop_settings() {
    assert_eq!(loop_mode(true), LoopMode::Infinite);
    assert_eq!(loop_mode(false), LoopMode::Off);
    assert_eq!(loop_command(true, true), Ok(LoopMode::Infinite));
    assert_eq!(loop_command(true, false), Ok(LoopMode::Off));
    assert_eq!(loop_command(false, true), Err("Not in voice channel".to_string()));
    assert_eq!(loop_internal(LoopMode::Infinite, Ok(())), Ok("loop on".to_string()));
    assert_eq!(loop_internal(LoopMode::Off, Ok(())), Ok("loop off".to_string()));
    assert_eq!(
        loop_internal(LoopMode::Infinite, Err("Finished".to_string())),
        Err(LoopError::LoopError { onoff: "on".to_string(), why: "Finished".to_string() })
    );
    assert_eq!(
        loop_internal(LoopMode::Off, Err("Finished".to_string())),
        Err(LoopError::LoopError { onoff: "off".to_string(), why: "Finished".to_string() })
    );
}

#[test]
fn volume_is_held_between_0_and_100() {
    assert_eq!(clamp_volume(-128), 0);
    assert_eq!(clamp_volume(-1), 0);
    assert_eq!(clamp_volume(0), 0);
    assert_eq!(clamp_volume(55), 55);
    assert_eq!(clamp_volume(100), 100);
    assert_eq!(clamp_volume(127), 100);
    assert_eq!(volume(true, 120), Ok(100));
    assert_eq!(volume(true, 30), Ok(30));
    assert_eq!(volume(false, 30), Err("Not in voice channel".to_string()));
    assert_eq!(volume_reply(55), "Set volume to 55");
    assert_eq!(volume_reply(0), "Set volume to 0");
}
