use ruffle_ios::options::{
    Letterbox, LoadBehavior, PlayerOptions, PlayerRuntime, StageAlign, StageQuality, StageScaleMode, TimeSpan,
};
use ruffle_ios::player_config::player_config;

#[test]
fn unset_options_take_the_defaults() {
    let c = player_config(&PlayerOptions::unset(), "file:///movie.swf");
    assert_eq!(c.base_url, "file:///movie.swf");
    assert_eq!(c.movie_url, "file:///movie.swf");
    assert_eq!(c.letterbox, Letterbox::On);
    assert_eq!(c.max_execution_duration, TimeSpan { secs: u64::MAX, subsec_nanos: 999_999_999 });
    assert_eq!(c.quality, StageQuality::High);
    assert_eq!(c.align, StageAlign { bits: 0 });
    assert!(!c.force_align && !c.force_scale && !c.upgrade_to_https);
    assert_eq!(c.scale, StageScaleMode::ShowAll);
    assert_eq!(c.load_behavior, LoadBehavior::Streaming);
    assert_eq!(c.player_runtime, PlayerRuntime::FlashPlayer);
    assert_eq!(c.player_version, None);
    assert_eq!(c.spoofed_url, None);
    assert_eq!(c.page_url, None);
    assert!(c.parameters.is_empty());
}

#[test]
fn given_options_are_kept() {
    let mut o = PlayerOptions::unset();
    o.base = Some("https://example.com/base/".to_string());
    o.spoof_url = Some("https://example.com/spoof.swf".to_string());
    o.letterbox = Some(Letterbox::Off);
    o.quality = Some(StageQuality::Low);
    o.scale = Some(StageScaleMode::NoScale);
    o.force_scale = Some(true);
    o.player_runtime = Some(PlayerRuntime::AIR);
    o.player_version = Some(10);
    o.max_execution_duration = Some(TimeSpan { secs: 5, subsec_nanos: 0 });
    o.cookie = Some("c=1".to_string());
    o.parameters.push(("a".to_string(), "b".to_string()));
    let c = player_config(&o, "https://example.com/movie.swf");
    assert_eq!(c.base_url, "https://example.com/base/");
    assert_eq!(c.spoofed_url.as_deref(), Some("https://example.com/spoof.swf"));
    assert_eq!(c.page_url.as_deref(), Some("https://example.com/spoof.swf"));
    assert_eq!(c.letterbox, Letterbox::Off);
    assert_eq!(c.quality, StageQuality::Low);
    assert_eq!(c.scale, StageScaleMode::NoScale);
    assert!(c.force_scale);
    assert_eq!(c.player_runtime, PlayerRuntime::AIR);
    assert_eq!(c.player_version, Some(10));
    assert_eq!(c.max_execution_duration, TimeSpan { secs: 5, subsec_nanos: 0 });
    assert_eq!(c.cookie.as_deref(), Some("c=1"));
    assert_eq!(c.parameters, vec![("a".to_string(), "b".to_string())]);
}

#[test]
fn stage_align_edges_combine() {
    assert_eq!(StageAlign::top().union(StageAlign::left()), StageAlign { bits: 5 });
    assert_eq!(StageAlign::bottom().union(StageAlign::right()), StageAlign { bits: 10 });
    assert_eq!(StageAlign::default(), StageAlign::empty());
    assert_eq!(StageScaleMode::default(), StageScaleMode::ShowAll);
    assert_eq!(PlayerRuntime::default(), PlayerRuntime::FlashPlayer);
}
