use vatsim_api::client::{
    cache_is_fresh, datafeed_source, slurper_url, CachePolicy, ClientConfig, DatafeedSource,
    FeedCache, FeedStep,
};
use vatsim_api::mock::state::MockState;

#[test]
fn default_config_points_at_the_live_network() {
    let config = ClientConfig::default();
    assert_eq!(config.status_url, "https://status.vatsim.net/status.json");
    assert_eq!(config.datafeed_url_override, None);
    assert_eq!(config.slurper_url_override, None);
    assert_eq!(config.cache_ttl_secs, 15);
    assert_eq!(slurper_url(&config), "https://slurper.vatsim.net/users/info");
}

#[test]
fn mock_base_url_config_strips_trailing_slashes() {
    let config = ClientConfig::for_mock_base_url("http://127.0.0.1:8080//");
    assert_eq!(
        config.datafeed_url_override.as_deref(),
        Some("http://127.0.0.1:8080/v3/vatsim-data.json")
    );
    assert_eq!(
        config.slurper_url_override.as_deref(),
        Some("http://127.0.0.1:8080/users/info")
    );
    assert_eq!(slurper_url(&config), "http://127.0.0.1:8080/users/info");
}

#[test]
fn cache_is_used_only_when_allowed_and_fresh() {
    assert!(cache_is_fresh(CachePolicy::Cached, Some(14), 15));
    assert!(!cache_is_fresh(CachePolicy::Cached, Some(15), 15));
    assert!(!cache_is_fresh(CachePolicy::Cached, None, 15));
    assert!(!cache_is_fresh(CachePolicy::Refresh, Some(0), 15));
}

#[test]
fn datafeed_source_prefers_override_then_known_mirror() {
    let mut config = ClientConfig::default();
    match datafeed_source(&config, &Vec::new()) {
        DatafeedSource::Discover(url) => assert_eq!(url, "https://status.vatsim.net/status.json"),
        other => panic!("expected discovery, got {other:?}"),
    }
    let known = vec!["https://a/feed.json".to_owned(), "https://b/feed.json".to_owned()];
    match datafeed_source(&config, &known) {
        DatafeedSource::Url(url) => assert_eq!(url, "https://a/feed.json"),
        other => panic!("expected a URL, got {other:?}"),
    }
    config.datafeed_url_override = Some("http://mock/v3/vatsim-data.json".to_owned());
    match datafeed_source(&config, &known) {
        DatafeedSource::Url(url) => assert_eq!(url, "http://mock/v3/vatsim-data.json"),
        other => panic!("expected a URL, got {other:?}"),
    }
}

const SECOND: u64 = 1_000_000_000;

fn step_url(step: FeedStep) -> String {
    match step {
        FeedStep::Fetch(url) => format!("fetch {url}"),
        FeedStep::Discover(url) => format!("discover {url}"),
        FeedStep::Serve(_) => "serve".to_owned(),
    }
}

#[test]
fn feed_cache_discovers_mirrors_once_then_serves_fresh_feeds() {
    let config = ClientConfig::default();
    let mut cache = FeedCache::new();
    assert_eq!(
        step_url(cache.begin(&config, CachePolicy::Cached, 0)),
        "discover https://status.vatsim.net/status.json"
    );
    assert_eq!(cache.mirrors_found(Vec::new()), None);
    assert_eq!(
        step_url(cache.begin(&config, CachePolicy::Cached, 0)),
        "discover https://status.vatsim.net/status.json"
    );
    let mirrors = vec!["https://a.example/feed".to_owned(), "https://b.example/feed".to_owned()];
    assert_eq!(cache.mirrors_found(mirrors).as_deref(), Some("https://a.example/feed"));
    assert_eq!(
        step_url(cache.begin(&config, CachePolicy::Cached, 0)),
        "fetch https://a.example/feed"
    );

    let feed = MockState::default().to_data_feed_at("2024-01-01T00:00:00Z".to_owned());
    let copy = cache.feed_fetched(feed.clone(), 10 * SECOND);
    assert_eq!(copy, feed);
    match cache.begin(&config, CachePolicy::Cached, 10 * SECOND) {
        FeedStep::Serve(served) => assert_eq!(served, feed),
        other => panic!("expected the stored feed, got {}", step_url(other)),
    }
    assert_eq!(step_url(cache.begin(&config, CachePolicy::Cached, 24 * SECOND + SECOND - 1)), "serve");
    assert_eq!(
        step_url(cache.begin(&config, CachePolicy::Cached, 25 * SECOND)),
        "fetch https://a.example/feed"
    );
    assert_eq!(
        step_url(cache.begin(&config, CachePolicy::Refresh, 10 * SECOND)),
        "fetch https://a.example/feed"
    );
}

#[test]
fn feed_cache_uses_the_override_without_discovery() {
    let config = ClientConfig::for_mock_base_url("http://127.0.0.1:9");
    let cache = FeedCache::new();
    assert_eq!(
        step_url(cache.begin(&config, CachePolicy::Cached, 0)),
        "fetch http://127.0.0.1:9/v3/vatsim-data.json"
    );
}
