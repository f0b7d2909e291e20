//! Process configuration: defaults, merging of a partial file, clamping of
//! numeric limits into their allowed ranges, and command-line overrides.
use vstd::prelude::*;

verus! {

#[derive(Clone, Debug, PartialEq, Eq)]
pub struct ServerConfig {
    pub host: String,
    pub cors: Vec<String>,
    pub static_dir: Option<String>,
}

#[derive(Clone, Debug, PartialEq, Eq)]
pub struct ContentConfig {
    pub markdown_dir: String,
    pub html_dir: String,
    pub title_max_len: usize,
    pub body_max_len: usize,
    pub tag_max_len: usize,
    pub category_max_len: usize,
    pub max_tags: usize,
    pub max_categories: usize,
    pub template_dir: String,
    pub template_content: String,
    pub template_index: String,
    pub template_list: String,
}

#[derive(Clone, Debug, PartialEq, Eq)]
pub struct SearchConfig {
    pub dictionary_dir: String,
    pub index_dir: String,
    /// Maximum number of documents in the index.
    pub index_limit: usize,
    /// Maximum number of matches any single search reports.
    pub search_limit: usize,
    pub memory_budget_in_bytes: usize,
}

#[derive(Clone, Debug, PartialEq, Eq)]
pub struct SecurityConfig {
    pub issuer: String,
    pub secret: String,
    /// Token lifetime, in seconds.
    pub expire: i64,
    pub user_file: String,
    pub lock_threshold: i64,
    pub lock_seconds: i64,
    pub update_interval: i64,
    pub allow_signup: bool,
}

#[derive(Clone, Debug, PartialEq, Eq)]
pub struct LogConfig {
    pub level: Option<String>,
}

#[derive(Clone, Debug, PartialEq, Eq)]
pub struct Config {
    pub server: ServerConfig,
    pub content: ContentConfig,
    pub search: SearchConfig,
    pub security: SecurityConfig,
    pub log: LogConfig,
}

#[derive(Clone, Debug, PartialEq, Eq)]
pub struct PartialServerConfig {
    pub host: Option<String>,
    pub cors: Option<Vec<String>>,
    pub static_dir: Option<String>,
}

#[derive(Clone, Debug, PartialEq, Eq)]
pub struct PartialContentConfig {
    pub markdown_dir: Option<String>,
    pub html_dir: Option<String>,
    pub title_max_len: Option<usize>,
    pub body_max_len: Option<usize>,
    pub tag_max_len: Option<usize>,
    pub category_max_len: Option<usize>,
    pub max_tags: Option<usize>,
    pub max_categories: Option<usize>,
    pub template_dir: Option<String>,
    pub template_content: Option<String>,
    pub template_index: Option<String>,
    pub template_list: Option<String>,
}

#[derive(Clone, Debug, PartialEq, Eq)]
pub struct PartialSearchConfig {
    pub dictionary_dir: Option<String>,
    pub index_dir: Option<String>,
    pub max_index_count: Option<usize>,
    pub search_limit: Option<usize>,
    pub memory_budget_in_bytes: Option<usize>,
}

#[derive(Clone, Debug, PartialEq, Eq)]
pub struct PartialSecurityConfig {
    pub issuer: Option<String>,
    pub secret: Option<String>,
    pub expire: Option<i64>,
    pub user_file: Option<String>,
    pub lock_threshold: Option<i64>,
    pub lock_seconds: Option<i64>,
    pub update_interval: Option<i64>,
    pub allow_signup: Option<bool>,
}

#[derive(Clone, Debug, PartialEq, Eq)]
pub struct PartialLogConfig {
    pub level: Option<String>,
}

/// A configuration file: every section and every value may be missing.
#[derive(Clone, Debug, PartialEq, Eq)]
pub struct PartialConfig {
    pub server: Option<PartialServerConfig>,
    pub content: Option<PartialContentConfig>,
    pub search: Option<PartialSearchConfig>,
    pub security: Option<PartialSecurityConfig>,
    pub log: Option<PartialLogConfig>,
}

/// Command-line overrides.
#[derive(Clone, Debug, PartialEq, Eq)]
pub struct Cli {
    pub host: Option<String>,
    pub cors: Option<Vec<String>>,
    pub no_cors: bool,
    pub static_dir: Option<String>,
    pub no_static: bool,
    pub log_level: Option<String>,
    pub no_log: bool,
    pub allow_signup: bool,
    pub no_allow_signup: bool,
}

pub open spec fn clamp_spec(v: int, lo: int, hi: int) -> int {
    if v < lo { lo } else if v > hi { hi } else { v }
}

/// `v` brought into `[lo, hi]`.
pub fn clamp_usize(v: usize, lo: usize, hi: usize) -> (r: usize)
    ensures
        r == clamp_spec(v as int, lo as int, hi as int),
{
    if v < lo {
        lo
    } else if v > hi {
        hi
    } else {
        v
    }
}

/// `v` brought into `[lo, hi]`.
pub fn clamp_i64(v: i64, lo: i64, hi: i64) -> (r: i64)
    ensures
        r == clamp_spec(v as int, lo as int, hi as int),
{
    if v < lo {
        lo
    } else if v > hi {
        hi
    } else {
        v
    }
}

/// The value in `o`, or `d` when there is none.
pub open spec fn pick<T>(o: Option<T>, d: T) -> T {
    match o {
        Some(v) => v,
        None => d,
    }
}

/// What `EnvFilter` makes of a filter expression: whether it parses.
pub uninterp spec fn log_filter_valid(s: Seq<char>) -> bool;

/// Relies on `tracing_subscriber::EnvFilter::try_new`: whether a log filter
/// expression parses, which depends on the expression alone.
#[verifier::external_body]
fn log_filter_parses(s: &str) -> (r: bool)
    ensures
        r == log_filter_valid(s@),
{
    tracing_subscriber::EnvFilter::try_new(s).is_ok()
}

impl Config {
    /// The built-in configuration, with the given token issuer and secret.
    pub fn with_identity(issuer: String, secret: String) -> (c: Config)
        ensures
            c.security.issuer == issuer,
            c.security.secret == secret,
            c.server.cors@.len() == 0,
            c.server.static_dir is None,
            c.content.title_max_len == 80,
            c.content.body_max_len == 5000,
            c.content.tag_max_len == 16,
            c.content.category_max_len == 16,
            c.content.max_tags == 6,
            c.content.max_categories == 3,
            c.search.index_limit == 3000,
            c.search.search_limit == 1000,
            c.search.memory_budget_in_bytes == 50_000_000,
            c.security.expire == 86400,
            c.security.lock_threshold == 3,
            c.security.lock_seconds == 3600,
            c.security.update_interval == 1,
            !c.security.allow_signup,
            c.log.level is None,
    {
        Config {
            server: ServerConfig {
                host: String::from_str("0.0.0.0:3000"),
                cors: Vec::new(),
                static_dir: None,
            },
            content: ContentConfig {
                markdown_dir: String::from_str("output/markdown"),
                html_dir: String::from_str("output/public_html"),
                title_max_len: 80,
                body_max_len: 5000,
                tag_max_len: 16,
                category_max_len: 16,
                max_tags: 6,
                max_categories: 3,
                template_dir: String::from_str("data/templates"),
                template_content: String::from_str("content.html"),
                template_index: String::from_str("index.html"),
                template_list: String::from_str("list.html"),
            },
            search: SearchConfig {
                dictionary_dir: String::from_str("data/dictionary"),
                index_dir: String::from_str("output/.index"),
                index_limit: 3000,
                search_limit: 1000,
                memory_budget_in_bytes: 50_000_000,
            },
            security: SecurityConfig {
                issuer,
                secret,
                expire: 86400,
                user_file: String::from_str("data/security/user.dat"),
                lock_threshold: 3,
                lock_seconds: 3600,
                update_interval: 1,
                allow_signup: false,
            },
            log: LogConfig { level: None },
        }
    }

    /// Clamps every numeric limit into its range and drops an unparsable log
    /// filter and a static directory that does not exist.
    pub fn normalize(&mut self, static_dir_exists: bool)
        ensures
            *final(self) == normalized(*old(self), static_dir_exists),
    {
        let drop_level = match &self.log.level {
            Some(level) => !log_filter_parses(level.as_str()),
            None => false,
        };
        if drop_level {
            self.log.level = None;
        }
        if !static_dir_exists {
            self.server.static_dir = None;
        }
        self.content.title_max_len = clamp_usize(self.content.title_max_len, 80, 240);
        self.content.body_max_len = clamp_usize(self.content.body_max_len, 1000, 30000);
        self.content.tag_max_len = clamp_usize(self.content.tag_max_len, 8, 32);
        self.content.category_max_len = clamp_usize(self.content.category_max_len, 8, 32);
        self.content.max_tags = clamp_usize(self.content.max_tags, 1, 100);
        self.content.max_categories = clamp_usize(self.content.max_categories, 1, 5);
        self.search.index_limit = clamp_usize(self.search.index_limit, 100, 10_000);
        self.search.search_limit = clamp_usize(self.search.search_limit, 100, 10_000);
        self.search.memory_budget_in_bytes = clamp_usize(self.search.memory_budget_in_bytes, 10_000_000, 99_999_999);
        self.security.expire = clamp_i64(self.security.expire, 180, 7_776_000);
        self.security.lock_threshold = clamp_i64(self.security.lock_threshold, 1, 10);
        self.security.lock_seconds = clamp_i64(self.security.lock_seconds, 60, 86_400);
        self.security.update_interval = clamp_i64(self.security.update_interval, 1, 60);
    }

    /// Applies the command-line overrides; `--no-…` flags win over the
    /// corresponding values.
    pub fn apply_cli(&mut self, cli: Cli, static_dir_exists: bool)
        ensures
            final(self).server.host == with_cli(*old(self), cli, static_dir_exists).server.host,
            final(self).server.static_dir == with_cli(*old(self), cli, static_dir_exists).server.static_dir,
            final(self).server.cors@ == if cli.no_cors {
                Seq::<String>::empty()
            } else {
                pick(cli.cors, old(self).server.cors)@
            },
            final(self).content == old(self).content,
            final(self).search == old(self).search,
            final(self).security == with_cli(*old(self), cli, static_dir_exists).security,
            final(self).log == with_cli(*old(self), cli, static_dir_exists).log,
    {
        if let Some(host) = cli.host {
            self.server.host = host;
        }
        if cli.no_cors {
            self.server.cors = Vec::new();
        } else if let Some(cors) = cli.cors {
            self.server.cors = cors;
        }
        if cli.no_static {
            self.server.static_dir = None;
        } else if let Some(dir) = cli.static_dir {
            if static_dir_exists {
                self.server.static_dir = Some(dir);
            } else {
                self.server.static_dir = None;
            }
        }
        if cli.no_allow_signup {
            self.security.allow_signup = false;
        } else if cli.allow_signup {
            self.security.allow_signup = true;
        }
        if cli.no_log {
            self.log.level = None;
        } else if let Some(level) = cli.log_level {
            if log_filter_parses(level.as_str()) {
                self.log.level = Some(level);
            }
        }
    }

    /// Overlays the values present in a configuration file.
    pub fn merge(&mut self, p: PartialConfig)
        ensures
            *final(self) == merged(*old(self), p),
    {
        merge_server(&mut self.server, p.server);
        merge_content(&mut self.content, p.content);
        merge_search(&mut self.search, p.search);
        merge_security(&mut self.security, p.security);
        if let Some(log) = p.log {
            if let Some(v) = log.level { self.log.level = Some(v); }
        }
    }
}

/// The configuration with every numeric limit clamped into its range, an
/// unparsable log filter dropped, and a static directory that does not
/// exist (`static_dir_exists` is false) dropped.
pub open spec fn normalized(c: Config, static_dir_exists: bool) -> Config {
    Config {
        server: ServerConfig {
            static_dir: if static_dir_exists { c.server.static_dir } else { None },
            ..c.server
        },
        content: ContentConfig {
            title_max_len: clamp_spec(c.content.title_max_len as int, 80, 240) as usize,
            body_max_len: clamp_spec(c.content.body_max_len as int, 1000, 30000) as usize,
            tag_max_len: clamp_spec(c.content.tag_max_len as int, 8, 32) as usize,
            category_max_len: clamp_spec(c.content.category_max_len as int, 8, 32) as usize,
            max_tags: clamp_spec(c.content.max_tags as int, 1, 100) as usize,
            max_categories: clamp_spec(c.content.max_categories as int, 1, 5) as usize,
            ..c.content
        },
        search: SearchConfig {
            index_limit: clamp_spec(c.search.index_limit as int, 100, 10_000) as usize,
            search_limit: clamp_spec(c.search.search_limit as int, 100, 10_000) as usize,
            memory_budget_in_bytes: clamp_spec(c.search.memory_budget_in_bytes as int, 10_000_000, 99_999_999) as usize,
            ..c.search
        },
        security: SecurityConfig {
            expire: clamp_spec(c.security.expire as int, 180, 7_776_000) as i64,
            lock_threshold: clamp_spec(c.security.lock_threshold as int, 1, 10) as i64,
            lock_seconds: clamp_spec(c.security.lock_seconds as int, 60, 86_400) as i64,
            update_interval: clamp_spec(c.security.update_interval as int, 1, 60) as i64,
            ..c.security
        },
        log: match c.log.level {
            Some(l) if !log_filter_valid(l@) => LogConfig { level: None },
            _ => c.log,
        },
    }
}

/// The configuration after the command-line overrides, but for the CORS
/// origins. `static_dir_exists` tells whether the directory that
/// `cli.static_dir` names exists.
pub open spec fn with_cli(c: Config, cli: Cli, static_dir_exists: bool) -> Config {
    Config {
        server: ServerConfig {
            host: pick(cli.host, c.server.host),
            cors: c.server.cors,
            static_dir: if cli.no_static {
                None
            } else {
                match cli.static_dir {
                    Some(d) => if static_dir_exists { Some(d) } else { None },
                    None => c.server.static_dir,
                }
            },
        },
        security: SecurityConfig {
            allow_signup: if cli.no_allow_signup { false } else if cli.allow_signup { true } else { c.security.allow_signup },
            ..c.security
        },
        log: if cli.no_log {
            LogConfig { level: None }
        } else {
            match cli.log_level {
                Some(l) if log_filter_valid(l@) => LogConfig { level: Some(l) },
                _ => c.log,
            }
        },
        ..c
    }
}

pub open spec fn merged_server(c: ServerConfig, p: Option<PartialServerConfig>) -> ServerConfig {
    match p {
        None => c,
        Some(p) => ServerConfig {
            host: pick(p.host, c.host),
            cors: pick(p.cors, c.cors),
            static_dir: if p.static_dir is Some { p.static_dir } else { c.static_dir },
        },
    }
}

pub open spec fn merged_content(c: ContentConfig, p: Option<PartialContentConfig>) -> ContentConfig {
    match p {
        None => c,
        Some(p) => ContentConfig {
            markdown_dir: pick(p.markdown_dir, c.markdown_dir),
            html_dir: pick(p.html_dir, c.html_dir),
            title_max_len: pick(p.title_max_len, c.title_max_len),
            body_max_len: pick(p.body_max_len, c.body_max_len),
            tag_max_len: pick(p.tag_max_len, c.tag_max_len),
            category_max_len: pick(p.category_max_len, c.category_max_len),
            max_tags: pick(p.max_tags, c.max_tags),
            max_categories: pick(p.max_categories, c.max_categories),
            template_dir: pick(p.template_dir, c.template_dir),
            template_content: pick(p.template_content, c.template_content),
            template_index: pick(p.template_index, c.template_index),
            template_list: pick(p.template_list, c.template_list),
        },
    }
}

pub open spec fn merged_search(c: SearchConfig, p: Option<PartialSearchConfig>) -> SearchConfig {
    match p {
        None => c,
        Some(p) => SearchConfig {
            dictionary_dir: pick(p.dictionary_dir, c.dictionary_dir),
            index_dir: pick(p.index_dir, c.index_dir),
            index_limit: pick(p.max_index_count, c.index_limit),
            search_limit: pick(p.search_limit, c.search_limit),
            memory_budget_in_bytes: pick(p.memory_budget_in_bytes, c.memory_budget_in_bytes),
        },
    }
}

pub open spec fn merged_security(c: SecurityConfig, p: Option<PartialSecurityConfig>) -> SecurityConfig {
    match p {
        None => c,
        Some(p) => SecurityConfig {
            issuer: pick(p.issuer, c.issuer),
            secret: pick(p.secret, c.secret),
            expire: pick(p.expire, c.expire),
            user_file: pick(p.user_file, c.user_file),
            lock_threshold: pick(p.lock_threshold, c.lock_threshold),
            lock_seconds: pick(p.lock_seconds, c.lock_seconds),
            update_interval: pick(p.update_interval, c.update_interval),
            allow_signup: pick(p.allow_signup, c.allow_signup),
        },
    }
}

/// The configuration after overlaying the values present in `p`.
pub open spec fn merged(c: Config, p: PartialConfig) -> Config {
    Config {
        server: merged_server(c.server, p.server),
        content: merged_content(c.content, p.content),
        search: merged_search(c.search, p.search),
        security: merged_security(c.security, p.security),
        log: match p.log {
            Some(l) if l.level is Some => LogConfig { level: l.level },
            _ => c.log,
        },
    }
}

fn merge_server(c: &mut ServerConfig, p: Option<PartialServerConfig>)
    ensures
        *final(c) == merged_server(*old(c), p),
{
    if let Some(server) = p {
        if let Some(h) = server.host { c.host = h; }
        if let Some(v) = server.cors { c.cors = v; }
        if let Some(s) = server.static_dir { c.static_dir = Some(s); }
    }
}

fn merge_content(c: &mut ContentConfig, p: Option<PartialContentConfig>)
    ensures
        *final(c) == merged_content(*old(c), p),
{
    if let Some(content) = p {
        if let Some(v) = content.markdown_dir { c.markdown_dir = v; }
        if let Some(v) = content.html_dir { c.html_dir = v; }
        if let Some(v) = content.title_max_len { c.title_max_len = v; }
        if let Some(v) = content.body_max_len { c.body_max_len = v; }
        if let Some(v) = content.tag_max_len { c.tag_max_len = v; }
        if let Some(v) = content.category_max_len { c.category_max_len = v; }
        if let Some(v) = content.max_tags { c.max_tags = v; }
        if let Some(v) = content.max_categories { c.max_categories = v; }
        if let Some(v) = content.template_dir { c.template_dir = v; }
        if let Some(v) = content.template_content { c.template_content = v; }
        if let Some(v) = content.template_index { c.template_index = v; }
        if let Some(v) = content.template_list { c.template_list = v; }
    }
}

fn merge_search(c: &mut SearchConfig, p: Option<PartialSearchConfig>)
    ensures
        *final(c) == merged_search(*old(c), p),
{
    if let Some(search) = p {
        if let Some(v) = search.dictionary_dir { c.dictionary_dir = v; }
        if let Some(v) = search.index_dir { c.index_dir = v; }
        if let Some(v) = search.max_index_count { c.index_limit = v; }
        if let Some(v) = search.search_limit { c.search_limit = v; }
        if let Some(v) = search.memory_budget_in_bytes { c.memory_budget_in_bytes = v; }
    }
}

fn merge_security(c: &mut SecurityConfig, p: Option<PartialSecurityConfig>)
    ensures
        *final(c) == merged_security(*old(c), p),
{
    if let Some(security) = p {
        if let Some(v) = security.issuer { c.issuer = v; }
        if let Some(v) = security.secret { c.secret = v; }
        if let Some(v) = security.expire { c.expire = v; }
        if let Some(v) = security.user_file { c.user_file = v; }
        if let Some(v) = security.lock_threshold { c.lock_threshold = v; }
        if let Some(v) = security.lock_seconds { c.lock_seconds = v; }
        if let Some(v) = security.update_interval { c.update_interval = v; }
        if let Some(v) = security.allow_signup { c.allow_signup = v; }
    }
}

} // verus!
