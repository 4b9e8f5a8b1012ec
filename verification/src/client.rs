//! The decisions of the VATSIM HTTP client: its configuration, when a cached
//! data feed may be returned, where the data feed and slurper are fetched
//! from. The requests themselves are made around this module.

use vstd::prelude::*;

use crate::text::{chars_of, string_of, trim_end_char, trim_end_matching};
use crate::types::datafeed::{views, DataFeed, DataFeedView};

verus! {

/// The VATSIM status endpoint, which lists the data feed mirrors.
pub const STATUS_URL: &'static str = "https://status.vatsim.net/status.json";

/// The data feed's path under a server's base URL.
pub const DATAFEED_ENDPOINT: &'static str = "/v3/vatsim-data.json";

/// The slurper's path under a server's base URL.
pub const SLURPER_ENDPOINT: &'static str = "/users/info";

/// The live slurper endpoint.
pub const SLURPER_URL: &'static str = "https://slurper.vatsim.net/users/info";

/// How many seconds a cached data feed is fresh by default.
pub const DATAFEED_CACHE_TTL_SECS: u64 = 15;

/// Controls whether a data feed request may return a cached response.
#[derive(Debug, Clone, Copy, PartialEq, Eq, Structural, Hash)]
pub enum CachePolicy {
    /// Return a cached copy if one exists and is still within the TTL.
    Cached,
    /// Always fetch from the network, ignoring any cached data.
    Refresh,
}

/// Configuration for a VATSIM client.
#[derive(Debug)]
pub struct ClientConfig {
    /// URL of the VATSIM status endpoint used to discover data feed mirror
    /// URLs.
    pub status_url: String,
    /// If set, bypasses status URL discovery and fetches the data feed from
    /// this URL directly.
    pub datafeed_url_override: Option<String>,
    /// If set, uses this URL for slurper requests instead of the default.
    pub slurper_url_override: Option<String>,
    /// How many seconds a cached data feed response is considered fresh.
    pub cache_ttl_secs: u64,
}

impl Clone for ClientConfig {
    fn clone(&self) -> (r: ClientConfig)
        ensures
            r == *self,
    {
        ClientConfig {
            status_url: self.status_url.clone(),
            datafeed_url_override: match &self.datafeed_url_override {
                Some(u) => Some(u.clone()),
                None => None,
            },
            slurper_url_override: match &self.slurper_url_override {
                Some(u) => Some(u.clone()),
                None => None,
            },
            cache_ttl_secs: self.cache_ttl_secs,
        }
    }
}

impl Default for ClientConfig {
    fn default() -> (r: ClientConfig)
        ensures
            r.status_url@ == STATUS_URL@,
            r.datafeed_url_override is None,
            r.slurper_url_override is None,
            r.cache_ttl_secs == DATAFEED_CACHE_TTL_SECS,
    {
        ClientConfig {
            status_url: String::from_str(STATUS_URL),
            datafeed_url_override: None,
            slurper_url_override: None,
            cache_ttl_secs: DATAFEED_CACHE_TTL_SECS,
        }
    }
}

impl ClientConfig {
    /// The configuration for a mock server at `base`: the data feed and
    /// slurper URLs are routes under the base URL, stripped of trailing
    /// slashes; everything else is the default.
    pub fn for_mock_base_url(base: &str) -> (r: ClientConfig)
        ensures
            r.status_url@ == STATUS_URL@,
            r.datafeed_url_override matches Some(u) && u@ == trim_end_char(base@, '/')
                + DATAFEED_ENDPOINT@,
            r.slurper_url_override matches Some(u) && u@ == trim_end_char(base@, '/')
                + SLURPER_ENDPOINT@,
            r.cache_ttl_secs == DATAFEED_CACHE_TTL_SECS,
    {
        let trimmed = string_of(&trim_end_matching(&chars_of(base), '/'));
        let mut datafeed = trimmed.clone();
        datafeed.append(DATAFEED_ENDPOINT);
        let mut slurper = trimmed;
        slurper.append(SLURPER_ENDPOINT);
        ClientConfig {
            status_url: String::from_str(STATUS_URL),
            datafeed_url_override: Some(datafeed),
            slurper_url_override: Some(slurper),
            cache_ttl_secs: DATAFEED_CACHE_TTL_SECS,
        }
    }
}

/// Whether a cached data feed may be returned: the policy allows it, there
/// is one, and its age in whole seconds is below the TTL.
pub open spec fn cache_fresh_spec(policy: CachePolicy, age_secs: Option<u64>, ttl_secs: u64) -> bool {
    &&& policy == CachePolicy::Cached
    &&& age_secs matches Some(a) && a < ttl_secs
}

/// Whether a data feed request may return the cached copy, given the cached
/// copy's age in whole seconds (`None` when nothing is cached).
pub fn cache_is_fresh(policy: CachePolicy, age_secs: Option<u64>, ttl_secs: u64) -> (r: bool)
    ensures
        r == cache_fresh_spec(policy, age_secs, ttl_secs),
{
    match policy {
        CachePolicy::Refresh => false,
        CachePolicy::Cached => match age_secs {
            Some(a) => a < ttl_secs,
            None => false,
        },
    }
}

/// Where the data feed comes from.
#[derive(Debug)]
pub enum DatafeedSource {
    /// Fetch the data feed from this URL.
    Url(String),
    /// No data feed URL is known yet: discover the mirrors from this status
    /// URL.
    Discover(String),
}

/// The data feed URL: the configured override, else the first known mirror;
/// with neither, the status URL to discover mirrors from.
pub fn datafeed_source(config: &ClientConfig, known_urls: &Vec<String>) -> (r: DatafeedSource)
    ensures
        match config.datafeed_url_override {
            Some(u) => r == DatafeedSource::Url(u),
            None => if known_urls@.len() > 0 {
                r == DatafeedSource::Url(known_urls@[0])
            } else {
                r == DatafeedSource::Discover(config.status_url)
            },
        },
{
    match &config.datafeed_url_override {
        Some(u) => DatafeedSource::Url(u.clone()),
        None => if known_urls.len() > 0 {
            DatafeedSource::Url(known_urls[0].clone())
        } else {
            DatafeedSource::Discover(config.status_url.clone())
        },
    }
}

/// The slurper URL: the configured override, else the live endpoint.
pub fn slurper_url(config: &ClientConfig) -> (r: String)
    ensures
        match config.slurper_url_override {
            Some(u) => r == u,
            None => r@ == SLURPER_URL@,
        },
{
    match &config.slurper_url_override {
        Some(u) => u.clone(),
        None => String::from_str(SLURPER_URL),
    }
}

/// What a client keeps between data feed requests: the last data feed it
/// fetched, with the clock reading (in nanoseconds) at which it was stored,
/// and the data feed mirrors the status endpoint listed.
pub struct FeedCache {
    stored: Option<(DataFeed, u64)>,
    mirrors: Vec<String>,
}

/// The mathematical value of a [`FeedCache`].
pub struct FeedCacheView {
    pub stored: Option<(DataFeedView, u64)>,
    pub mirrors: Seq<Seq<char>>,
}

impl View for FeedCache {
    type V = FeedCacheView;

    closed spec fn view(&self) -> FeedCacheView {
        FeedCacheView {
            stored: match self.stored {
                Some((feed, at)) => Some((feed@, at)),
                None => None,
            },
            mirrors: views(self.mirrors@),
        }
    }
}

/// What a data feed request does next.
pub enum FeedStep {
    /// Return this stored data feed; nothing is fetched.
    Serve(DataFeed),
    /// Fetch the data feed from this URL.
    Fetch(String),
    /// Ask this status URL for the data feed mirrors first.
    Discover(String),
}

/// The mathematical value of a [`FeedStep`].
pub enum FeedStepView {
    Serve(DataFeedView),
    Fetch(Seq<char>),
    Discover(Seq<char>),
}

impl View for FeedStep {
    type V = FeedStepView;

    open spec fn view(&self) -> FeedStepView {
        match self {
            FeedStep::Serve(feed) => FeedStepView::Serve(feed@),
            FeedStep::Fetch(url) => FeedStepView::Fetch(url@),
            FeedStep::Discover(url) => FeedStepView::Discover(url@),
        }
    }
}

/// The whole seconds from clock reading `at` to clock reading `now`, both in
/// nanoseconds; zero when `now` reads earlier than `at`.
pub open spec fn whole_seconds(at: u64, now: u64) -> u64 {
    if now >= at {
        ((now - at) / 1_000_000_000) as u64
    } else {
        0
    }
}

/// The stored data feed, where there is one.
pub open spec fn stored_feed(c: FeedCacheView) -> DataFeedView {
    match c.stored {
        Some((feed, _)) => feed,
        None => arbitrary(),
    }
}

/// The clock reading at which the stored data feed was stored, where there
/// is one.
pub open spec fn stored_time(c: FeedCacheView) -> u64 {
    match c.stored {
        Some((_, at)) => at,
        None => 0,
    }
}

/// The age in whole seconds of the stored data feed at clock reading `now`.
pub open spec fn stored_age(c: FeedCacheView, now: u64) -> Option<u64> {
    match c.stored {
        Some((_, at)) => Some(whole_seconds(at, now)),
        None => None,
    }
}

/// What a data feed request under `config` and `policy` does first at clock
/// reading `now`: serve the stored feed while it is fresh, else fetch from
/// the override or the first known mirror, else discover the mirrors.
pub open spec fn begin_spec(
    c: FeedCacheView,
    config: ClientConfig,
    policy: CachePolicy,
    now: u64,
) -> FeedStepView {
    if cache_fresh_spec(policy, stored_age(c, now), config.cache_ttl_secs) {
        FeedStepView::Serve(stored_feed(c))
    } else {
        match config.datafeed_url_override {
            Some(u) => FeedStepView::Fetch(u@),
            None => if c.mirrors.len() > 0 {
                FeedStepView::Fetch(c.mirrors[0])
            } else {
                FeedStepView::Discover(config.status_url@)
            },
        }
    }
}

/// The cache once `feed` is stored at clock reading `at`.
pub open spec fn with_feed(c: FeedCacheView, feed: DataFeedView, at: u64) -> FeedCacheView {
    FeedCacheView { stored: Some((feed, at)), mirrors: c.mirrors }
}

/// The cache once the status endpoint has listed `urls`.
pub open spec fn with_mirrors(c: FeedCacheView, urls: Seq<Seq<char>>) -> FeedCacheView {
    FeedCacheView { stored: c.stored, mirrors: urls }
}

impl FeedCache {
    /// An empty cache: no data feed stored, no mirror known.
    pub fn new() -> (r: FeedCache)
        ensures
            r@.stored is None,
            r@.mirrors == Seq::<Seq<char>>::empty(),
    {
        FeedCache { stored: None, mirrors: Vec::new() }
    }

    /// The first step of a data feed request at clock reading `now`.
    pub fn begin(&self, config: &ClientConfig, policy: CachePolicy, now: u64) -> (r: FeedStep)
        ensures
            r@ == begin_spec(self@, *config, policy, now),
    {
        let age = match &self.stored {
            Some((_, at)) => Some(
                if now >= *at {
                    (now - *at) / 1_000_000_000
                } else {
                    0
                },
            ),
            None => None,
        };
        if cache_is_fresh(policy, age, config.cache_ttl_secs) {
            match &self.stored {
                Some((feed, _)) => {
                    return FeedStep::Serve(feed.clone());
                },
                None => {},
            }
        }
        match datafeed_source(config, &self.mirrors) {
            DatafeedSource::Url(u) => FeedStep::Fetch(u),
            DatafeedSource::Discover(s) => FeedStep::Discover(s),
        }
    }

    /// The status endpoint listed `urls`: they become the known mirrors, and
    /// the first of them is where the data feed is fetched from; `None`
    /// when the list is empty.
    pub fn mirrors_found(&mut self, urls: Vec<String>) -> (r: Option<String>)
        ensures
            final(self)@ == with_mirrors(old(self)@, views(urls@)),
            match r {
                Some(u) => urls@.len() > 0 && u@ == urls@[0]@,
                None => urls@.len() == 0,
            },
    {
        let first = if urls.len() > 0 {
            Some(urls[0].clone())
        } else {
            None
        };
        self.mirrors = urls;
        first
    }

    /// A data feed was fetched at clock reading `now`: it replaces the stored
    /// one, and a copy of it is returned to the caller.
    pub fn feed_fetched(&mut self, feed: DataFeed, now: u64) -> (r: DataFeed)
        ensures
            final(self)@ == with_feed(old(self)@, feed@, now),
            r@ == feed@,
    {
        let copy = feed.clone();
        self.stored = Some((feed, now));
        copy
    }
}

/// A data feed stored at `at` is served, with nothing fetched, to every
/// cached request made less than the time-to-live later.
pub proof fn lemma_fresh_feed_served(
    c: FeedCacheView,
    config: ClientConfig,
    feed: DataFeedView,
    at: u64,
    now: u64,
)
    requires
        at <= now,
        (now - at) / 1_000_000_000 < config.cache_ttl_secs,
    ensures
        begin_spec(with_feed(c, feed, at), config, CachePolicy::Cached, now)
            == FeedStepView::Serve(feed),
{
}

/// A stored data feed is served only to a cached request, and only while its
/// age in whole seconds is below the time-to-live; otherwise the request
/// goes to the network.
pub proof fn lemma_served_only_when_fresh(
    c: FeedCacheView,
    config: ClientConfig,
    policy: CachePolicy,
    now: u64,
)
    ensures
        (begin_spec(c, config, policy, now) is Serve) <==> (policy == CachePolicy::Cached
            && c.stored is Some && whole_seconds(stored_time(c), now) < config.cache_ttl_secs),
{
}

/// Once the status endpoint has listed a mirror, no later request asks it
/// again (with no override configured): storing data feeds keeps the
/// mirrors, and a request that is not served fetches from the first mirror.
pub proof fn lemma_mirrors_not_rediscovered(
    c: FeedCacheView,
    config: ClientConfig,
    urls: Seq<Seq<char>>,
    feed: DataFeedView,
    at: u64,
    policy: CachePolicy,
    now: u64,
)
    requires
        config.datafeed_url_override is None,
        urls.len() > 0,
    ensures
        with_feed(with_mirrors(c, urls), feed, at).mirrors == urls,
        begin_spec(with_mirrors(c, urls), config, policy, now) is Serve
            || begin_spec(with_mirrors(c, urls), config, policy, now) == FeedStepView::Fetch(urls[0]),
        begin_spec(with_feed(with_mirrors(c, urls), feed, at), config, policy, now) is Serve
            || begin_spec(with_feed(with_mirrors(c, urls), feed, at), config, policy, now)
            == FeedStepView::Fetch(urls[0]),
{
}

} // verus!
