//! Options as they were given, and the configuration that the service runs
//! with.
//!
//! Options come from the command line or from a configuration file and may
//! each be unset. A [`ResolvedConfig`] has every one of them settled: what was
//! given where it was given, the documented default where it was not.

use vstd::prelude::*;
use vstd::string::*;

verus! {

/// The port that the service listens on unless told otherwise.
pub const DEFAULT_PORT: u16 = 7999;

/// The size of the worker pool unless told otherwise.
pub const DEFAULT_WORKERS: u64 = 1;

/// The limit on requests in flight unless told otherwise.
pub const DEFAULT_CONCURRENT_LIMIT: u64 = 65535;

/// The request timeout in seconds unless told otherwise.
pub const DEFAULT_TIMEOUT: u64 = 600;

/// The connect timeout in seconds unless told otherwise.
pub const DEFAULT_CONNECT_TIMEOUT: u64 = 60;

/// The TCP keepalive in seconds unless told otherwise.
pub const DEFAULT_TCP_KEEPALIVE: u64 = 60;

/// The capacity of a token bucket unless told otherwise.
pub const DEFAULT_TB_CAPACITY: u32 = 60;

/// The fill rate of a token bucket unless told otherwise.
pub const DEFAULT_TB_FILL_RATE: u32 = 1;

/// The life of an idle token bucket in seconds unless told otherwise.
pub const DEFAULT_TB_EXPIRED: u32 = 86400;

/// The options of the service, each as given or unset.
#[derive(Debug, PartialEq, Eq)]
pub struct ServeArgs {
    /// Path of a configuration file that replaces all other options.
    pub config: Option<String>,
    /// Address to listen on.
    pub host: Option<String>,
    /// Port to listen on.
    pub port: Option<u16>,
    /// Size of the worker pool.
    pub workers: Option<u64>,
    /// Limit on requests in flight.
    pub concurrent_limit: Option<u64>,
    /// Upstream proxies.
    pub proxies: Option<Vec<String>>,
    /// Request timeout in seconds.
    pub timeout: Option<u64>,
    /// Connect timeout in seconds.
    pub connect_timeout: Option<u64>,
    /// TCP keepalive in seconds.
    pub tcp_keepalive: Option<u64>,
    /// Path of the TLS certificate.
    pub tls_cert: Option<String>,
    /// Path of the TLS private key.
    pub tls_key: Option<String>,
    /// Prefix of the API paths.
    pub api_prefix: Option<String>,
    /// Key that requests are signed with.
    pub sign_secret_key: Option<String>,
    /// Whether token-bucket rate limiting is on.
    pub tb_enable: Option<bool>,
    /// Where token buckets are kept.
    pub tb_store_strategy: Option<String>,
    /// Endpoints of the token-bucket store.
    pub tb_redis_url: Option<Vec<String>>,
    /// Capacity of a token bucket.
    pub tb_capacity: Option<u32>,
    /// Fill rate of a token bucket.
    pub tb_fill_rate: Option<u32>,
    /// Life of an idle token bucket in seconds.
    pub tb_expired: Option<u32>,
    /// CAPTCHA site key.
    pub cf_site_key: Option<String>,
    /// CAPTCHA secret key.
    pub cf_secret_key: Option<String>,
    /// Whether the web interface is off.
    pub disable_webui: Option<bool>,
}

/// The mathematical content of [`ServeArgs`].
pub struct ServeArgsView {
    pub config: Option<Seq<char>>,
    pub host: Option<Seq<char>>,
    pub port: Option<u16>,
    pub workers: Option<u64>,
    pub concurrent_limit: Option<u64>,
    pub proxies: Option<Seq<Seq<char>>>,
    pub timeout: Option<u64>,
    pub connect_timeout: Option<u64>,
    pub tcp_keepalive: Option<u64>,
    pub tls_cert: Option<Seq<char>>,
    pub tls_key: Option<Seq<char>>,
    pub api_prefix: Option<Seq<char>>,
    pub sign_secret_key: Option<Seq<char>>,
    pub tb_enable: Option<bool>,
    pub tb_store_strategy: Option<Seq<char>>,
    pub tb_redis_url: Option<Seq<Seq<char>>>,
    pub tb_capacity: Option<u32>,
    pub tb_fill_rate: Option<u32>,
    pub tb_expired: Option<u32>,
    pub cf_site_key: Option<Seq<char>>,
    pub cf_secret_key: Option<Seq<char>>,
    pub disable_webui: Option<bool>,
}

impl View for ServeArgs {
    type V = ServeArgsView;

    open spec fn view(&self) -> ServeArgsView {
        ServeArgsView {
            config: self.config.deep_view(),
            host: self.host.deep_view(),
            port: self.port,
            workers: self.workers,
            concurrent_limit: self.concurrent_limit,
            proxies: self.proxies.deep_view(),
            timeout: self.timeout,
            connect_timeout: self.connect_timeout,
            tcp_keepalive: self.tcp_keepalive,
            tls_cert: self.tls_cert.deep_view(),
            tls_key: self.tls_key.deep_view(),
            api_prefix: self.api_prefix.deep_view(),
            sign_secret_key: self.sign_secret_key.deep_view(),
            tb_enable: self.tb_enable,
            tb_store_strategy: self.tb_store_strategy.deep_view(),
            tb_redis_url: self.tb_redis_url.deep_view(),
            tb_capacity: self.tb_capacity,
            tb_fill_rate: self.tb_fill_rate,
            tb_expired: self.tb_expired,
            cf_site_key: self.cf_site_key.deep_view(),
            cf_secret_key: self.cf_secret_key.deep_view(),
            disable_webui: self.disable_webui,
        }
    }
}

/// The options with none of them set.
pub open spec fn unset() -> ServeArgsView {
    ServeArgsView {
        config: None,
        host: None,
        port: None,
        workers: None,
        concurrent_limit: None,
        proxies: None,
        timeout: None,
        connect_timeout: None,
        tcp_keepalive: None,
        tls_cert: None,
        tls_key: None,
        api_prefix: None,
        sign_secret_key: None,
        tb_enable: None,
        tb_store_strategy: None,
        tb_redis_url: None,
        tb_capacity: None,
        tb_fill_rate: None,
        tb_expired: None,
        cf_site_key: None,
        cf_secret_key: None,
        disable_webui: None,
    }
}

impl ServeArgs {
    /// Options with none of them set.
    pub fn new() -> (args: ServeArgs)
        ensures
            args@ == unset(),
    {
        ServeArgs {
            config: None,
            host: None,
            port: None,
            workers: None,
            concurrent_limit: None,
            proxies: None,
            timeout: None,
            connect_timeout: None,
            tcp_keepalive: None,
            tls_cert: None,
            tls_key: None,
            api_prefix: None,
            sign_secret_key: None,
            tb_enable: None,
            tb_store_strategy: None,
            tb_redis_url: None,
            tb_capacity: None,
            tb_fill_rate: None,
            tb_expired: None,
            cf_site_key: None,
            cf_secret_key: None,
            disable_webui: None,
        }
    }
}

/// A TLS certificate and the private key that belongs to it. One is never
/// held without the other.
#[derive(Debug, PartialEq, Eq)]
pub struct TlsPair {
    pub cert: String,
    pub key: String,
}

/// The mathematical content of a [`TlsPair`].
pub struct TlsPairView {
    pub cert: Seq<char>,
    pub key: Seq<char>,
}

impl View for TlsPair {
    type V = TlsPairView;

    open spec fn view(&self) -> TlsPairView {
        TlsPairView { cert: self.cert@, key: self.key@ }
    }
}

/// The parameters of token-bucket rate limiting.
#[derive(Debug, PartialEq, Eq)]
pub struct RateLimit {
    pub enabled: bool,
    pub store_strategy: String,
    pub store_endpoints: Vec<String>,
    pub capacity: u32,
    pub fill_rate: u32,
    pub expiry: u32,
}

/// The mathematical content of a [`RateLimit`].
pub struct RateLimitView {
    pub enabled: bool,
    pub store_strategy: Seq<char>,
    pub store_endpoints: Seq<Seq<char>>,
    pub capacity: u32,
    pub fill_rate: u32,
    pub expiry: u32,
}

impl View for RateLimit {
    type V = RateLimitView;

    open spec fn view(&self) -> RateLimitView {
        RateLimitView {
            enabled: self.enabled,
            store_strategy: self.store_strategy@,
            store_endpoints: self.store_endpoints.deep_view(),
            capacity: self.capacity,
            fill_rate: self.fill_rate,
            expiry: self.expiry,
        }
    }
}

/// The configuration that the service is launched with. It is made once per
/// invocation and not changed afterwards.
#[derive(Debug, PartialEq, Eq)]
pub struct ResolvedConfig {
    /// The address to listen on, as it was written. It is not checked here:
    /// whether it is an IP address is found out by whoever launches the
    /// service, who parses it before binding.
    pub host: String,
    pub port: u16,
    pub proxies: Vec<String>,
    pub api_prefix: Option<String>,
    pub tls: Option<TlsPair>,
    pub timeout: u64,
    pub connect_timeout: u64,
    pub tcp_keepalive: u64,
    pub workers: u64,
    pub concurrent_limit: u64,
    pub rate_limit: RateLimit,
    pub sign_secret_key: Option<String>,
    pub cf_site_key: Option<String>,
    pub cf_secret_key: Option<String>,
    pub disable_ui: bool,
}

/// The mathematical content of a [`ResolvedConfig`].
pub struct ResolvedConfigView {
    pub host: Seq<char>,
    pub port: u16,
    pub proxies: Seq<Seq<char>>,
    pub api_prefix: Option<Seq<char>>,
    pub tls: Option<TlsPairView>,
    pub timeout: u64,
    pub connect_timeout: u64,
    pub tcp_keepalive: u64,
    pub workers: u64,
    pub concurrent_limit: u64,
    pub rate_limit: RateLimitView,
    pub sign_secret_key: Option<Seq<char>>,
    pub cf_site_key: Option<Seq<char>>,
    pub cf_secret_key: Option<Seq<char>>,
    pub disable_ui: bool,
}

/// The view of a TLS pair that may not be there.
pub open spec fn tls_view(tls: Option<TlsPair>) -> Option<TlsPairView> {
    match tls {
        Some(pair) => Some(pair@),
        None => None,
    }
}

impl View for ResolvedConfig {
    type V = ResolvedConfigView;

    open spec fn view(&self) -> ResolvedConfigView {
        ResolvedConfigView {
            host: self.host@,
            port: self.port,
            proxies: self.proxies.deep_view(),
            api_prefix: self.api_prefix.deep_view(),
            tls: tls_view(self.tls),
            timeout: self.timeout,
            connect_timeout: self.connect_timeout,
            tcp_keepalive: self.tcp_keepalive,
            workers: self.workers,
            concurrent_limit: self.concurrent_limit,
            rate_limit: self.rate_limit@,
            sign_secret_key: self.sign_secret_key.deep_view(),
            cf_site_key: self.cf_site_key.deep_view(),
            cf_secret_key: self.cf_secret_key.deep_view(),
            disable_ui: self.disable_ui,
        }
    }
}

/// `value` where it is set, `default` where it is not.
pub open spec fn or_default<T>(value: Option<T>, default: T) -> T {
    match value {
        Some(v) => v,
        None => default,
    }
}

/// The TLS pair of the options: both paths, or nothing. A certificate
/// without a key, or a key without a certificate, switches TLS off.
pub open spec fn tls_of(cert: Option<Seq<char>>, key: Option<Seq<char>>) -> Option<TlsPairView> {
    match (cert, key) {
        (Some(c), Some(k)) => Some(TlsPairView { cert: c, key: k }),
        _ => None,
    }
}

/// The configuration that `args` settle to: each option as given, and the
/// documented default for each that is unset.
pub open spec fn settled(args: ServeArgsView) -> ResolvedConfigView {
    ResolvedConfigView {
        host: or_default(args.host, "0.0.0.0"@),
        port: or_default(args.port, DEFAULT_PORT),
        proxies: or_default(args.proxies, Seq::empty()),
        api_prefix: args.api_prefix,
        tls: tls_of(args.tls_cert, args.tls_key),
        timeout: or_default(args.timeout, DEFAULT_TIMEOUT),
        connect_timeout: or_default(args.connect_timeout, DEFAULT_CONNECT_TIMEOUT),
        tcp_keepalive: or_default(args.tcp_keepalive, DEFAULT_TCP_KEEPALIVE),
        workers: or_default(args.workers, DEFAULT_WORKERS),
        concurrent_limit: or_default(args.concurrent_limit, DEFAULT_CONCURRENT_LIMIT),
        rate_limit: RateLimitView {
            enabled: or_default(args.tb_enable, false),
            store_strategy: or_default(args.tb_store_strategy, "mem"@),
            store_endpoints: or_default(args.tb_redis_url, seq!["redis://127.0.0.1:6379"@]),
            capacity: or_default(args.tb_capacity, DEFAULT_TB_CAPACITY),
            fill_rate: or_default(args.tb_fill_rate, DEFAULT_TB_FILL_RATE),
            expiry: or_default(args.tb_expired, DEFAULT_TB_EXPIRED),
        },
        sign_secret_key: args.sign_secret_key,
        cf_site_key: args.cf_site_key,
        cf_secret_key: args.cf_secret_key,
        disable_ui: or_default(args.disable_webui, false),
    }
}

/// A configuration never holds half a TLS pair: TLS is on exactly when both
/// paths were given.
pub proof fn lemma_tls_pair_complete(args: ServeArgsView)
    ensures
        settled(args).tls is Some <==> args.tls_cert is Some && args.tls_key is Some,
        settled(args).tls matches Some(pair) ==> args.tls_cert == Some(pair.cert) && args.tls_key
            == Some(pair.key),
{
}

fn text_or(value: Option<String>, default: &str) -> (text: String)
    ensures
        text@ == or_default(value.deep_view(), default@),
{
    match value {
        Some(v) => v,
        None => String::from_str(default),
    }
}

fn list_or_empty(value: Option<Vec<String>>) -> (list: Vec<String>)
    ensures
        list.deep_view() == or_default(value.deep_view(), Seq::empty()),
{
    match value {
        Some(v) => v,
        None => {
            let list: Vec<String> = Vec::new();
            assert(list.deep_view() =~= Seq::<Seq<char>>::empty());
            list
        },
    }
}

fn endpoints_or_default(value: Option<Vec<String>>) -> (list: Vec<String>)
    ensures
        list.deep_view() == or_default(value.deep_view(), seq!["redis://127.0.0.1:6379"@]),
{
    match value {
        Some(v) => v,
        None => {
            let mut list: Vec<String> = Vec::new();
            list.push(String::from_str("redis://127.0.0.1:6379"));
            assert(list.deep_view() =~= seq!["redis://127.0.0.1:6379"@]);
            list
        },
    }
}

/// Settles the options: every option that was given stays, every other one
/// takes its documented default.
pub fn apply_defaults(args: ServeArgs) -> (config: ResolvedConfig)
    ensures
        config@ == settled(args@),
{
    let tls = match (args.tls_cert, args.tls_key) {
        (Some(cert), Some(key)) => Some(TlsPair { cert, key }),
        _ => None,
    };
    ResolvedConfig {
        host: text_or(args.host, "0.0.0.0"),
        port: args.port.unwrap_or(DEFAULT_PORT),
        proxies: list_or_empty(args.proxies),
        api_prefix: args.api_prefix,
        tls,
        timeout: args.timeout.unwrap_or(DEFAULT_TIMEOUT),
        connect_timeout: args.connect_timeout.unwrap_or(DEFAULT_CONNECT_TIMEOUT),
        tcp_keepalive: args.tcp_keepalive.unwrap_or(DEFAULT_TCP_KEEPALIVE),
        workers: args.workers.unwrap_or(DEFAULT_WORKERS),
        concurrent_limit: args.concurrent_limit.unwrap_or(DEFAULT_CONCURRENT_LIMIT),
        rate_limit: RateLimit {
            enabled: args.tb_enable.unwrap_or(false),
            store_strategy: text_or(args.tb_store_strategy, "mem"),
            store_endpoints: endpoints_or_default(args.tb_redis_url),
            capacity: args.tb_capacity.unwrap_or(DEFAULT_TB_CAPACITY),
            fill_rate: args.tb_fill_rate.unwrap_or(DEFAULT_TB_FILL_RATE),
            expiry: args.tb_expired.unwrap_or(DEFAULT_TB_EXPIRED),
        },
        sign_secret_key: args.sign_secret_key,
        cf_site_key: args.cf_site_key,
        cf_secret_key: args.cf_secret_key,
        disable_ui: args.disable_webui.unwrap_or(false),
    }
}

} // verus!
