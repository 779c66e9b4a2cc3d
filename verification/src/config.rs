//! Configuration for the tool: project layout, development server, HMR,
//! build and lint settings, with defaulting, merging and validation.
//!
//! Reading and writing configuration files stays outside this crate; the
//! functions here work on configuration values. Key/value tables are held as
//! vectors of pairs with unique keys, in insertion order.

use vstd::prelude::*;
use vstd::string::*;
use crate::text;

verus! {

/// Project layout configuration.
pub struct ProjectConfig {
    /// Project name, if set.
    pub name: Option<String>,
    /// Project version, if set.
    pub version: Option<String>,
    /// Source directory.
    pub src_dir: String,
    /// Output directory for builds.
    pub dist_dir: String,
    /// Entry point file.
    pub entry_point: String,
}

/// Development server configuration.
pub struct DevServerConfig {
    /// Port for the development server.
    pub port: u16,
    /// Host for the development server.
    pub host: String,
    /// Whether to open the browser automatically.
    pub auto_open: bool,
    /// Additional static file directories to serve.
    pub static_dirs: Vec<String>,
    /// Custom headers to add to responses, as key/value pairs.
    pub headers: Vec<(String, String)>,
}

/// Hot-module-reload configuration.
pub struct HmrConfig {
    /// Whether HMR is enabled.
    pub enabled: bool,
    /// Debounce time in milliseconds for file changes.
    pub debounce_ms: u64,
    /// Files and patterns to ignore during HMR.
    pub ignore_patterns: Vec<String>,
    /// Whether to preserve component state during HMR.
    pub preserve_state: bool,
    /// Maximum number of HMR retries before a full reload.
    pub max_retries: u32,
    /// Whether to show HMR notifications in the browser.
    pub show_notifications: bool,
}

/// Build configuration.
pub struct BuildConfig {
    /// Whether to use the beta toolchain.
    pub use_beta_toolchain: bool,
    /// Release mode for builds.
    pub release: bool,
    /// Target triple for builds, if set.
    pub target: Option<String>,
    /// Additional build features to enable.
    pub features: Vec<String>,
    /// Build optimization level, if set.
    pub opt_level: Option<String>,
}

/// Linting configuration.
pub struct LintConfig {
    /// Whether linting is enabled.
    pub enabled: bool,
    /// Lint rules to enable or disable, as rule/flag pairs.
    pub rules: Vec<(String, bool)>,
    /// Custom lint configuration entries.
    pub custom_rules: Vec<String>,
}

/// The whole configuration.
pub struct OrbitonConfig {
    /// Project layout.
    pub project: ProjectConfig,
    /// Development server settings.
    pub dev_server: DevServerConfig,
    /// Hot-module-reload settings.
    pub hmr: HmrConfig,
    /// Build settings.
    pub build: BuildConfig,
    /// Lint settings.
    pub lint: LintConfig,
}

/// A configuration value that validation rejects.
pub enum ConfigError {
    /// The development server port is zero.
    PortZero,
    /// The HMR debounce time exceeds the allowed maximum.
    DebounceTooHigh,
}

impl ConfigError {
    /// Human-readable description of the error.
    pub fn message(&self) -> (r: String)
        ensures
            *self is PortZero ==> r@ == "Dev server port cannot be 0"@,
            *self is DebounceTooHigh ==> r@ == "HMR debounce time too high (max 5000ms)"@,
    {
        match self {
            ConfigError::PortZero => text::to_string("Dev server port cannot be 0"),
            ConfigError::DebounceTooHigh => text::to_string(
                "HMR debounce time too high (max 5000ms)",
            ),
        }
    }
}

/// Default source directory.
pub fn default_src_dir() -> (r: String)
    ensures
        r@ == "src"@,
{
    text::to_string("src")
}

/// Default output directory.
pub fn default_dist_dir() -> (r: String)
    ensures
        r@ == "dist"@,
{
    text::to_string("dist")
}

/// Default entry point file.
pub fn default_entry_point() -> (r: String)
    ensures
        r@ == "main.rs"@,
{
    text::to_string("main.rs")
}

/// Default development server port.
pub fn default_dev_port() -> (r: u16)
    ensures
        r == 3000,
{
    3000
}

/// Default development server host.
pub fn default_dev_host() -> (r: String)
    ensures
        r@ == "127.0.0.1"@,
{
    text::to_string("127.0.0.1")
}

/// By default the browser opens automatically.
pub fn default_auto_open() -> (r: bool)
    ensures
        r,
{
    true
}

/// By default HMR is enabled.
pub fn default_hmr_enabled() -> (r: bool)
    ensures
        r,
{
    true
}

/// Default HMR debounce time in milliseconds.
pub fn default_hmr_debounce() -> (r: u64)
    ensures
        r == 100,
{
    100
}

/// By default component state is preserved during HMR.
pub fn default_preserve_state() -> (r: bool)
    ensures
        r,
{
    true
}

/// Default maximum number of HMR retries.
pub fn default_max_retries() -> (r: u32)
    ensures
        r == 3,
{
    3
}

/// By default HMR notifications are shown.
pub fn default_show_notifications() -> (r: bool)
    ensures
        r,
{
    true
}

/// By default linting is enabled.
pub fn default_lint_enabled() -> (r: bool)
    ensures
        r,
{
    true
}

impl Default for ProjectConfig {
    /// Unnamed project with the standard directories.
    fn default() -> (r: Self)
        ensures
            r.name is None,
            r.version is None,
            r.src_dir@ == "src"@,
            r.dist_dir@ == "dist"@,
            r.entry_point@ == "main.rs"@,
    {
        ProjectConfig {
            name: None,
            version: None,
            src_dir: default_src_dir(),
            dist_dir: default_dist_dir(),
            entry_point: default_entry_point(),
        }
    }
}

impl Default for DevServerConfig {
    /// Local server on the default port, opening the browser.
    fn default() -> (r: Self)
        ensures
            r.port == 3000,
            r.host@ == "127.0.0.1"@,
            r.auto_open,
            r.static_dirs@.len() == 0,
            r.headers@.len() == 0,
    {
        DevServerConfig {
            port: default_dev_port(),
            host: default_dev_host(),
            auto_open: default_auto_open(),
            static_dirs: Vec::new(),
            headers: Vec::new(),
        }
    }
}

impl Default for HmrConfig {
    /// HMR enabled with the default debounce and the standard ignore
    /// patterns.
    fn default() -> (r: Self)
        ensures
            r.enabled,
            r.debounce_ms == 100,
            r.ignore_patterns@.len() == 4,
            r.ignore_patterns@[0]@ == "target/**"@,
            r.ignore_patterns@[1]@ == "**/.git/**"@,
            r.ignore_patterns@[2]@ == "**/node_modules/**"@,
            r.ignore_patterns@[3]@ == "**/*.log"@,
            r.preserve_state,
            r.max_retries == 3,
            r.show_notifications,
    {
        let mut ignore_patterns: Vec<String> = Vec::new();
        ignore_patterns.push(text::to_string("target/**"));
        ignore_patterns.push(text::to_string("**/.git/**"));
        ignore_patterns.push(text::to_string("**/node_modules/**"));
        ignore_patterns.push(text::to_string("**/*.log"));
        HmrConfig {
            enabled: default_hmr_enabled(),
            debounce_ms: default_hmr_debounce(),
            ignore_patterns,
            preserve_state: default_preserve_state(),
            max_retries: default_max_retries(),
            show_notifications: default_show_notifications(),
        }
    }
}

impl Default for BuildConfig {
    /// Debug build for the host with no extra features.
    fn default() -> (r: Self)
        ensures
            !r.use_beta_toolchain,
            !r.release,
            r.target is None,
            r.features@.len() == 0,
            r.opt_level is None,
    {
        BuildConfig {
            use_beta_toolchain: false,
            release: false,
            target: None,
            features: Vec::new(),
            opt_level: None,
        }
    }
}

impl Default for LintConfig {
    /// Linting enabled with no rule overrides.
    fn default() -> (r: Self)
        ensures
            r.enabled,
            r.rules@.len() == 0,
            r.custom_rules@.len() == 0,
    {
        LintConfig { enabled: default_lint_enabled(), rules: Vec::new(), custom_rules: Vec::new() }
    }
}

impl Default for OrbitonConfig {
    /// All sections at their defaults.
    fn default() -> (r: Self)
        ensures
            r.project.name is None,
            r.project.src_dir@ == "src"@,
            r.dev_server.port == 3000,
            r.dev_server.host@ == "127.0.0.1"@,
            r.hmr.enabled,
            r.hmr.debounce_ms == 100,
            !r.build.use_beta_toolchain,
            !r.build.release,
            r.lint.enabled,
            r.lint.rules@.len() == 0,
    {
        OrbitonConfig {
            project: ProjectConfig::default(),
            dev_server: DevServerConfig::default(),
            hmr: HmrConfig::default(),
            build: BuildConfig::default(),
            lint: LintConfig::default(),
        }
    }
}

/// Index of the rule named `k`, searching from position `i` on.
pub open spec fn find_rule(s: Seq<(String, bool)>, k: Seq<char>, i: int) -> Option<int>
    decreases s.len() - i,
{
    if i < 0 || i >= s.len() {
        None
    } else if s[i].0@ == k {
        Some(i)
    } else {
        find_rule(s, k, i + 1)
    }
}

/// Index of the first entry named `k` in a rule table spelled over views,
/// searching from position `i` on.
pub open spec fn find_rule_view(s: Seq<(Seq<char>, bool)>, k: Seq<char>, i: int) -> Option<int>
    decreases s.len() - i,
{
    if i < 0 || i >= s.len() {
        None
    } else if s[i].0 == k {
        Some(i)
    } else {
        find_rule_view(s, k, i + 1)
    }
}

/// The rule table after setting one rule: an existing entry is overwritten
/// in place, a new one is appended. Spelled over views.
pub open spec fn upsert_rule(s: Seq<(Seq<char>, bool)>, k: Seq<char>, v: bool) -> Seq<
    (Seq<char>, bool),
> {
    match find_rule_view(s, k, 0) {
        Some(i) => s.update(i, (k, v)),
        None => s.push((k, v)),
    }
}

/// The rule table after applying every entry of `adds` in order.
pub open spec fn merge_rules(s: Seq<(Seq<char>, bool)>, adds: Seq<(Seq<char>, bool)>) -> Seq<
    (Seq<char>, bool),
>
    decreases adds.len(),
{
    if adds.len() == 0 {
        s
    } else {
        merge_rules(upsert_rule(s, adds[0].0, adds[0].1), adds.skip(1))
    }
}

/// The views of a rule table.
pub open spec fn rule_views(v: Seq<(String, bool)>) -> Seq<(Seq<char>, bool)> {
    v.map_values(|p: (String, bool)| (p.0@, p.1))
}

fn set_rule(rules: &mut Vec<(String, bool)>, k: String, v: bool)
    ensures
        rule_views(final(rules)@) == upsert_rule(rule_views(old(rules)@), k@, v),
{
    let ghost s0 = rule_views(rules@);
    let ghost kv = k@;
    let n = rules.len();
    let mut i: usize = 0;
    while i < n
        invariant
            n == rules@.len(),
            rules@ == old(rules)@,
            s0 == rule_views(rules@),
            kv == k@,
            i <= n,
            find_rule_view(s0, kv, 0) == find_rule_view(s0, kv, i as int),
        decreases n - i,
    {
        if text::str_eq(rules[i].0.as_str(), k.as_str()) {
            proof {
                assert(s0[i as int].0 == kv);
                assert(find_rule_view(s0, kv, 0) == Some(i as int));
            }
            let _ = rules.remove(i);
            rules.insert(i, (k, v));
            proof {
                assert(rule_views(rules@) =~= s0.update(i as int, (kv, v)));
                assert(upsert_rule(s0, kv, v) == s0.update(i as int, (kv, v)));
            }
            return ;
        }
        assert(s0[i as int].0 != kv);
        i += 1;
    }
    assert(find_rule_view(s0, kv, 0) is None);
    rules.push((k, v));
    proof {
        assert(rule_views(rules@) =~= s0.push((kv, v)));
        assert(upsert_rule(s0, kv, v) == s0.push((kv, v)));
    }
}

fn apply_rules(rules: &mut Vec<(String, bool)>, adds: &Vec<(String, bool)>)
    ensures
        rule_views(final(rules)@) == merge_rules(rule_views(old(rules)@), rule_views(adds@)),
{
    let ghost base = rule_views(rules@);
    let ghost av = rule_views(adds@);
    let n = adds.len();
    let mut i: usize = 0;
    proof {
        assert(av.skip(0) =~= av);
    }
    while i < n
        invariant
            n == adds@.len(),
            i <= n,
            av == rule_views(adds@),
            merge_rules(base, av) == merge_rules(rule_views(rules@), av.skip(i as int)),
        decreases n - i,
    {
        proof {
            assert(av.skip(i as int).len() > 0);
            assert(av.skip(i as int)[0] == av[i as int]);
            assert(av.skip(i as int).skip(1) =~= av.skip(i + 1));
            assert(av[i as int] == (adds@[i as int].0@, adds@[i as int].1));
        }
        let k = adds[i].0.clone();
        let v = adds[i].1;
        set_rule(rules, k, v);
        i += 1;
    }
    proof {
        assert(av.skip(n as int) =~= Seq::<(Seq<char>, bool)>::empty());
    }
}

fn extend_strings(dst: &mut Vec<String>, src: &Vec<String>)
    ensures
        final(dst)@ == old(dst)@ + src@,
{
    let ghost d0 = dst@;
    let n = src.len();
    let mut i: usize = 0;
    while i < n
        invariant
            n == src@.len(),
            i <= n,
            dst@ == d0 + src@.take(i as int),
        decreases n - i,
    {
        let s = src[i].clone();
        dst.push(s);
        proof {
            assert(dst@ =~= d0 + src@.take(i + 1));
        }
        i += 1;
    }
    proof {
        assert(src@.take(n as int) =~= src@);
    }
}

/// `merged` is `base` overridden by `other` the way [`OrbitonConfig::merge_with`]
/// does it: set options and non-default scalars of `other` win, disabling
/// flags win, ignore patterns concatenate, and `other`'s lint rules are
/// applied over `base`'s.
pub open spec fn merged_from(base: OrbitonConfig, other: OrbitonConfig, merged: OrbitonConfig) -> bool {
    &&& merged.project.name == if other.project.name is Some {
        other.project.name
    } else {
        base.project.name
    }
    &&& merged.project.version == if other.project.version is Some {
        other.project.version
    } else {
        base.project.version
    }
    &&& merged.project.src_dir == base.project.src_dir
    &&& merged.project.dist_dir == base.project.dist_dir
    &&& merged.project.entry_point == base.project.entry_point
    &&& merged.dev_server.port == if other.dev_server.port != 3000 {
        other.dev_server.port
    } else {
        base.dev_server.port
    }
    &&& merged.dev_server.host == if other.dev_server.host@ != "127.0.0.1"@ {
        other.dev_server.host
    } else {
        base.dev_server.host
    }
    &&& merged.dev_server.auto_open == base.dev_server.auto_open
    &&& merged.dev_server.static_dirs == base.dev_server.static_dirs
    &&& merged.dev_server.headers == base.dev_server.headers
    &&& merged.hmr.enabled == (base.hmr.enabled && other.hmr.enabled)
    &&& merged.hmr.debounce_ms == if other.hmr.debounce_ms != 100 {
        other.hmr.debounce_ms
    } else {
        base.hmr.debounce_ms
    }
    &&& merged.hmr.ignore_patterns@ == if other.hmr.ignore_patterns@.len() > 0 {
        base.hmr.ignore_patterns@ + other.hmr.ignore_patterns@
    } else {
        base.hmr.ignore_patterns@
    }
    &&& merged.hmr.preserve_state == base.hmr.preserve_state
    &&& merged.hmr.max_retries == base.hmr.max_retries
    &&& merged.hmr.show_notifications == base.hmr.show_notifications
    &&& merged.build.use_beta_toolchain == (base.build.use_beta_toolchain
        || other.build.use_beta_toolchain)
    &&& merged.build.release == (base.build.release || other.build.release)
    &&& merged.build.target == base.build.target
    &&& merged.build.features == base.build.features
    &&& merged.build.opt_level == base.build.opt_level
    &&& merged.lint.enabled == (base.lint.enabled && other.lint.enabled)
    &&& rule_views(merged.lint.rules@) == merge_rules(
        rule_views(base.lint.rules@),
        rule_views(other.lint.rules@),
    )
    &&& merged.lint.custom_rules == base.lint.custom_rules
}

impl OrbitonConfig {
    /// Merge `other` into this configuration; `other` takes precedence for
    /// the fields it sets away from their defaults.
    #[verifier::rlimit(50)]
    pub fn merge_with(&mut self, other: &OrbitonConfig)
        ensures
            merged_from(*old(self), *other, *final(self)),
    {
        if other.project.name.is_some() {
            self.project.name = clone_opt_string(&other.project.name);
        }
        if other.project.version.is_some() {
            self.project.version = clone_opt_string(&other.project.version);
        }
        if other.dev_server.port != 3000 {
            self.dev_server.port = other.dev_server.port;
        }
        if !text::str_eq(other.dev_server.host.as_str(), "127.0.0.1") {
            self.dev_server.host = other.dev_server.host.clone();
        }
        if !other.hmr.enabled {
            self.hmr.enabled = false;
        }
        if other.hmr.debounce_ms != 100 {
            self.hmr.debounce_ms = other.hmr.debounce_ms;
        }
        if other.hmr.ignore_patterns.len() > 0 {
            extend_strings(&mut self.hmr.ignore_patterns, &other.hmr.ignore_patterns);
        }
        if other.build.use_beta_toolchain {
            self.build.use_beta_toolchain = true;
        }
        if other.build.release {
            self.build.release = true;
        }
        if !other.lint.enabled {
            self.lint.enabled = false;
        }
        apply_rules(&mut self.lint.rules, &other.lint.rules);
    }

    /// Check the configuration: the port must be nonzero and the HMR
    /// debounce at most 5000 ms. Returns the first violated rule.
    pub fn validate(&self) -> (r: Result<(), ConfigError>)
        ensures
            r is Ok <==> (self.dev_server.port != 0 && self.hmr.debounce_ms <= 5000),
            self.dev_server.port == 0 ==> r == Result::<(), ConfigError>::Err(
                ConfigError::PortZero,
            ),
            self.dev_server.port != 0 && self.hmr.debounce_ms > 5000 ==> r == Result::<
                (),
                ConfigError,
            >::Err(ConfigError::DebounceTooHigh),
    {
        if self.dev_server.port == 0 {
            return Err(ConfigError::PortZero);
        }
        if self.hmr.debounce_ms > 5000 {
            return Err(ConfigError::DebounceTooHigh);
        }
        Ok(())
    }
}

fn clone_opt_string(o: &Option<String>) -> (r: Option<String>)
    ensures
        r == *o,
{
    match o {
        Some(s) => Some(s.clone()),
        None => None,
    }
}

} // verus!
