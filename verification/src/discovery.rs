//! Capability inference: deciding which abstract tools a configured
//! server exposes from its name, command, and arguments alone, using an
//! ordered set of externally configured matching rules with a generic
//! fallback, and caching the outcome per server with a time-based expiry.
//!
//! Reading and parsing the rule configuration is an external concern; the
//! engine works over the parsed rules a caller hands it, and takes the
//! current time as a plain number of seconds.

use vstd::prelude::*;

use crate::text::{contains_seq, contains_str, lower_of, str_eq, to_lowercase_str};
use crate::types::{
    McpConfig, McpServer, McpServerView, PromptError, PromptErrorView, Tool, ToolView,
};

verus! {

/// One capability template of a matching rule.
#[derive(Clone, Debug)]
pub struct ToolTemplate {
    pub name: String,
    pub description: String,
}

#[verifier::ext_equal]
pub ghost struct ToolTemplateView {
    pub name: Seq<char>,
    pub description: Seq<char>,
}

impl View for ToolTemplate {
    type V = ToolTemplateView;

    open spec fn view(&self) -> ToolTemplateView {
        ToolTemplateView { name: self.name@, description: self.description@ }
    }
}

impl DeepView for ToolTemplate {
    type V = ToolTemplateView;

    open spec fn deep_view(&self) -> ToolTemplateView {
        self.view()
    }
}

/// One named matching rule: three pattern lists and the capability
/// templates to emit on a match.
#[derive(Clone, Debug)]
pub struct ServerPattern {
    pub command_patterns: Vec<String>,
    pub arg_patterns: Vec<String>,
    pub name_patterns: Vec<String>,
    pub tools: Vec<ToolTemplate>,
}

#[verifier::ext_equal]
pub ghost struct ServerPatternView {
    pub command_patterns: Seq<Seq<char>>,
    pub arg_patterns: Seq<Seq<char>>,
    pub name_patterns: Seq<Seq<char>>,
    pub tools: Seq<ToolTemplateView>,
}

impl View for ServerPattern {
    type V = ServerPatternView;

    open spec fn view(&self) -> ServerPatternView {
        ServerPatternView {
            command_patterns: self.command_patterns.deep_view(),
            arg_patterns: self.arg_patterns.deep_view(),
            name_patterns: self.name_patterns.deep_view(),
            tools: self.tools.deep_view(),
        }
    }
}

impl DeepView for ServerPattern {
    type V = ServerPatternView;

    open spec fn deep_view(&self) -> ServerPatternView {
        self.view()
    }
}

/// The complete rule configuration, one optional rule per category, in
/// the fixed priority order in which they are tried.
#[derive(Clone, Debug)]
pub struct ServerPatternsConfig {
    pub filesystem_servers: Option<ServerPattern>,
    pub weather_servers: Option<ServerPattern>,
    pub desktop_servers: Option<ServerPattern>,
    pub dynamic_servers: Option<ServerPattern>,
    pub data_servers: Option<ServerPattern>,
    pub web_servers: Option<ServerPattern>,
}

#[verifier::ext_equal]
pub ghost struct PatternsConfigView {
    pub filesystem_servers: Option<ServerPatternView>,
    pub weather_servers: Option<ServerPatternView>,
    pub desktop_servers: Option<ServerPatternView>,
    pub dynamic_servers: Option<ServerPatternView>,
    pub data_servers: Option<ServerPatternView>,
    pub web_servers: Option<ServerPatternView>,
}

impl View for ServerPatternsConfig {
    type V = PatternsConfigView;

    open spec fn view(&self) -> PatternsConfigView {
        PatternsConfigView {
            filesystem_servers: self.filesystem_servers.deep_view(),
            weather_servers: self.weather_servers.deep_view(),
            desktop_servers: self.desktop_servers.deep_view(),
            dynamic_servers: self.dynamic_servers.deep_view(),
            data_servers: self.data_servers.deep_view(),
            web_servers: self.web_servers.deep_view(),
        }
    }
}

impl DeepView for ServerPatternsConfig {
    type V = PatternsConfigView;

    open spec fn deep_view(&self) -> PatternsConfigView {
        self.view()
    }
}

/// Some pattern of the list occurs, lowercased, in the given lowercased
/// text.
pub open spec fn any_pattern_in(patterns: Seq<Seq<char>>, hay_lower: Seq<char>) -> bool {
    exists|i: int| 0 <= i < patterns.len() && contains_seq(hay_lower, lower_of(patterns[i]))
}

/// Whether any pattern of the list occurs in the already-lowercased text.
fn any_pattern_matches(patterns: &Vec<String>, hay_lower: &str) -> (r: bool)
    ensures
        r == any_pattern_in(patterns.deep_view(), hay_lower@),
{
    let n = patterns.len();
    let mut i: usize = 0;
    while i < n
        invariant
            n == patterns@.len(),
            i <= n,
            forall|k: int|
                0 <= k < i ==> !contains_seq(hay_lower@, lower_of(patterns.deep_view()[k])),
        decreases n - i,
    {
        let p_lower = to_lowercase_str(patterns[i].as_str());
        if contains_str(hay_lower, p_lower.as_str()) {
            proof {
                assert(patterns.deep_view()[i as int] == patterns@[i as int]@);
                assert(contains_seq(hay_lower@, lower_of(patterns.deep_view()[i as int])));
            }
            return true;
        }
        i += 1;
    }
    false
}

/// A server matches a rule when any name pattern occurs in its lowercased
/// name, any command pattern in its lowercased command, or any argument
/// pattern in any lowercased argument; all matching is case-insensitive,
/// unanchored substring search.
pub open spec fn pattern_matches(server: McpServerView, p: ServerPatternView) -> bool {
    ||| any_pattern_in(p.name_patterns, lower_of(server.name))
    ||| any_pattern_in(p.command_patterns, lower_of(server.command))
    ||| exists|j: int| 0 <= j < server.args.len() && any_pattern_in(p.arg_patterns, lower_of(server.args[j]))
}

/// Whether a server matches a rule.
fn matches_pattern(server: &McpServer, pattern: &ServerPattern) -> (r: bool)
    ensures
        r == pattern_matches(server@, pattern@),
{
    let name_lower = to_lowercase_str(server.name.as_str());
    if any_pattern_matches(&pattern.name_patterns, name_lower.as_str()) {
        return true;
    }
    let command_lower = to_lowercase_str(server.command.as_str());
    if any_pattern_matches(&pattern.command_patterns, command_lower.as_str()) {
        return true;
    }
    let n = server.args.len();
    let mut j: usize = 0;
    while j < n
        invariant
            n == server.args@.len(),
            j <= n,
            forall|k: int|
                0 <= k < j ==> !any_pattern_in(
                    pattern@.arg_patterns,
                    lower_of(server@.args[k]),
                ),
        decreases n - j,
    {
        let arg_lower = to_lowercase_str(server.args[j].as_str());
        if any_pattern_matches(&pattern.arg_patterns, arg_lower.as_str()) {
            proof {
                assert(server@.args[j as int] == server.args@[j as int]@);
            }
            return true;
        }
        proof {
            assert(server@.args[j as int] == server.args@[j as int]@);
        }
        j += 1;
    }
    false
}

/// The capabilities a matched rule emits for a server: one per template,
/// with the server's name substituted into the qualified name.
pub open spec fn tools_from_pattern(server_name: Seq<char>, p: ServerPatternView) -> Seq<ToolView> {
    Seq::new(
        p.tools.len(),
        |i: int|
            ToolView {
                name: server_name + "."@ + p.tools[i].name,
                description: p.tools[i].description,
                server: server_name,
                schema: None,
            },
    )
}

/// The single generic capability a server falls back to when no rule
/// matches.
pub open spec fn fallback_tool(server: McpServerView) -> ToolView {
    ToolView {
        name: server.name + ".execute"@,
        description: "Execute "@ + server.command + " functionality"@,
        server: server.name,
        schema: None,
    }
}

/// Creates the capability list of a matched rule.
fn create_tools_from_pattern(server_name: &str, pattern: &ServerPattern) -> (r: Vec<Tool>)
    ensures
        r.deep_view() == tools_from_pattern(server_name@, pattern@),
{
    let n = pattern.tools.len();
    let mut out: Vec<Tool> = Vec::new();
    let mut i: usize = 0;
    while i < n
        invariant
            n == pattern.tools@.len(),
            i <= n,
            out@.len() == i,
            forall|k: int|
                0 <= k < i ==> out@[k]@ == tools_from_pattern(server_name@, pattern@)[k],
        decreases n - i,
    {
        let template = &pattern.tools[i];
        let mut qualified = String::from_str(server_name);
        qualified.append(".");
        qualified.append(template.name.as_str());
        let tool = Tool {
            name: qualified,
            description: template.description.clone(),
            server: String::from_str(server_name),
            schema: None,
        };
        out.push(tool);
        proof {
            assert(pattern@.tools[i as int] == pattern.tools@[i as int]@);
            assert(out@[i as int]@ =~= tools_from_pattern(server_name@, pattern@)[i as int]);
        }
        i += 1;
    }
    proof {
        assert(out.deep_view() =~= tools_from_pattern(server_name@, pattern@));
    }
    out
}

/// Creates the generic fallback capability for a server.
fn create_fallback_tool(server: &McpServer) -> (r: Tool)
    ensures
        r@ == fallback_tool(server@),
{
    let mut name = String::from_str(server.name.as_str());
    name.append(".execute");
    let mut description = String::from_str("Execute ");
    description.append(server.command.as_str());
    description.append(" functionality");
    let r = Tool {
        name,
        description,
        server: server.name.clone(),
        schema: None,
    };
    proof {
        assert(r@ =~= fallback_tool(server@));
    }
    r
}

/// An optional rule is present and matched by the server.
pub open spec fn rule_applies(p: Option<ServerPatternView>, server: McpServerView) -> bool {
    p matches Some(pat) && pattern_matches(server, pat)
}

/// The first rule, in the fixed priority order, that the server matches.
pub open spec fn first_match(cfg: PatternsConfigView, server: McpServerView) -> Option<
    ServerPatternView,
> {
    if rule_applies(cfg.filesystem_servers, server) {
        cfg.filesystem_servers
    } else if rule_applies(cfg.weather_servers, server) {
        cfg.weather_servers
    } else if rule_applies(cfg.desktop_servers, server) {
        cfg.desktop_servers
    } else if rule_applies(cfg.dynamic_servers, server) {
        cfg.dynamic_servers
    } else if rule_applies(cfg.data_servers, server) {
        cfg.data_servers
    } else if rule_applies(cfg.web_servers, server) {
        cfg.web_servers
    } else {
        None
    }
}

/// What inference yields for a server under a rule configuration: the
/// capabilities of the first matching rule, or the generic fallback.
pub open spec fn infer_tools_spec(cfg: PatternsConfigView, server: McpServerView) -> Seq<ToolView> {
    match first_match(cfg, server) {
        Some(p) => tools_from_pattern(server.name, p),
        None => seq![fallback_tool(server)],
    }
}

/// One cached inference outcome: the server it belongs to, its tools,
/// and when they were last refreshed, in seconds.
#[derive(Clone, Debug)]
pub struct CacheEntry {
    pub server: String,
    pub tools: Vec<Tool>,
    pub refreshed_at: u64,
}

#[verifier::ext_equal]
pub ghost struct CacheEntryView {
    pub server: Seq<char>,
    pub tools: Seq<ToolView>,
    pub refreshed_at: u64,
}

impl View for CacheEntry {
    type V = CacheEntryView;

    open spec fn view(&self) -> CacheEntryView {
        CacheEntryView {
            server: self.server@,
            tools: self.tools.deep_view(),
            refreshed_at: self.refreshed_at,
        }
    }
}

impl DeepView for CacheEntry {
    type V = CacheEntryView;

    open spec fn deep_view(&self) -> CacheEntryView {
        self.view()
    }
}

/// The first cache entry of the given server, if any.
pub open spec fn find_entry(entries: Seq<CacheEntryView>, name: Seq<char>) -> Option<CacheEntryView>
    decreases entries.len(),
{
    if entries.len() == 0 {
        None
    } else if entries[0].server == name {
        Some(entries[0])
    } else {
        find_entry(entries.drop_first(), name)
    }
}

/// The cache with the given server's entry replaced, or appended when
/// the server had none.
pub open spec fn set_entry(
    entries: Seq<CacheEntryView>,
    name: Seq<char>,
    tools: Seq<ToolView>,
    now: u64,
) -> Seq<CacheEntryView>
    decreases entries.len(),
{
    if entries.len() == 0 {
        seq![CacheEntryView { server: name, tools, refreshed_at: now }]
    } else if entries[0].server == name {
        entries.update(0, CacheEntryView { server: name, tools, refreshed_at: now })
    } else {
        seq![entries[0]].add(set_entry(entries.drop_first(), name, tools, now))
    }
}

/// Every tool cached for any server, in cache order.
pub open spec fn all_cached(entries: Seq<CacheEntryView>) -> Seq<ToolView>
    decreases entries.len(),
{
    if entries.len() == 0 {
        Seq::empty()
    } else {
        entries[0].tools.add(all_cached(entries.drop_first()))
    }
}

proof fn lemma_all_cached_push(entries: Seq<CacheEntryView>, e: CacheEntryView)
    ensures
        all_cached(entries.push(e)) =~= all_cached(entries).add(e.tools),
    decreases entries.len(),
{
    if entries.len() == 0 {
        assert(entries.push(e)[0] == e);
        assert(entries.push(e).drop_first() =~= Seq::<CacheEntryView>::empty());
        assert(all_cached(entries.push(e).drop_first()) == all_cached(
            Seq::<CacheEntryView>::empty(),
        ));
        assert(all_cached(entries) == Seq::<ToolView>::empty());
    } else {
        lemma_all_cached_push(entries.drop_first(), e);
        assert(entries.push(e)[0] == entries[0]);
        assert(entries.push(e).drop_first() =~= entries.drop_first().push(e));
        assert(all_cached(entries.push(e)) == entries[0].tools.add(
            all_cached(entries.drop_first().push(e)),
        ));
        assert(all_cached(entries) == entries[0].tools.add(all_cached(entries.drop_first())));
    }
}

proof fn lemma_find_entry_at(entries: Seq<CacheEntryView>, name: Seq<char>, i: int)
    requires
        0 <= i < entries.len(),
        entries[i].server == name,
        forall|k: int| 0 <= k < i ==> entries[k].server != name,
    ensures
        find_entry(entries, name) == Some(entries[i]),
    decreases i,
{
    if i > 0 {
        assert(forall|k: int|
            0 <= k < i - 1 ==> entries.drop_first()[k] == entries[k + 1]);
        lemma_find_entry_at(entries.drop_first(), name, i - 1);
    }
}

proof fn lemma_find_entry_none(entries: Seq<CacheEntryView>, name: Seq<char>)
    requires
        forall|k: int| 0 <= k < entries.len() ==> entries[k].server != name,
    ensures
        find_entry(entries, name) is None,
    decreases entries.len(),
{
    if entries.len() > 0 {
        lemma_find_entry_none(entries.drop_first(), name);
    }
}

proof fn lemma_set_entry_at(
    entries: Seq<CacheEntryView>,
    name: Seq<char>,
    tools: Seq<ToolView>,
    now: u64,
    i: int,
)
    requires
        0 <= i < entries.len(),
        entries[i].server == name,
        forall|k: int| 0 <= k < i ==> entries[k].server != name,
    ensures
        set_entry(entries, name, tools, now) =~= entries.update(
            i,
            CacheEntryView { server: name, tools, refreshed_at: now },
        ),
    decreases i,
{
    if i > 0 {
        assert(forall|k: int|
            0 <= k < i - 1 ==> entries.drop_first()[k] == entries[k + 1]);
        lemma_set_entry_at(entries.drop_first(), name, tools, now, i - 1);
        assert(entries.drop_first().update(
            i - 1,
            CacheEntryView { server: name, tools, refreshed_at: now },
        ) =~= entries.update(i, CacheEntryView { server: name, tools, refreshed_at: now }).drop_first());
    }
}

proof fn lemma_set_entry_append(
    entries: Seq<CacheEntryView>,
    name: Seq<char>,
    tools: Seq<ToolView>,
    now: u64,
)
    requires
        forall|k: int| 0 <= k < entries.len() ==> entries[k].server != name,
    ensures
        set_entry(entries, name, tools, now) =~= entries.push(
            CacheEntryView { server: name, tools, refreshed_at: now },
        ),
    decreases entries.len(),
{
    if entries.len() > 0 {
        lemma_set_entry_append(entries.drop_first(), name, tools, now);
        assert(entries.drop_first().push(
            CacheEntryView { server: name, tools, refreshed_at: now },
        ) =~= entries.push(CacheEntryView { server: name, tools, refreshed_at: now }).drop_first());
    }
}

/// The first server of the given name in a configuration, if any.
pub open spec fn find_server(servers: Seq<McpServerView>, name: Seq<char>) -> Option<McpServerView>
    decreases servers.len(),
{
    if servers.len() == 0 {
        None
    } else if servers[0].name == name {
        Some(servers[0])
    } else {
        find_server(servers.drop_first(), name)
    }
}

#[verifier::ext_equal]
pub ghost struct DiscoveryView {
    pub entries: Seq<CacheEntryView>,
    pub cache_duration_secs: u64,
    pub patterns: Option<PatternsConfigView>,
}

/// A server's cached tools must be refreshed when it has no cache entry,
/// when its entry is older than the cache duration, or when the clock
/// has moved backwards past its entry.
pub open spec fn needs_refresh_spec(d: DiscoveryView, name: Seq<char>, now: u64) -> bool {
    match find_entry(d.entries, name) {
        None => true,
        Some(e) => now < e.refreshed_at || now - e.refreshed_at > d.cache_duration_secs,
    }
}

/// One server's discovery step: re-infer and overwrite the cache when a
/// refresh is due and the rules are available; fall back to whatever is
/// cached when inference is impossible; serve the cache otherwise.
pub open spec fn discover_step(d: DiscoveryView, server: McpServerView, now: u64) -> (
    DiscoveryView,
    Seq<ToolView>,
) {
    if needs_refresh_spec(d, server.name, now) {
        match d.patterns {
            Some(cfg) => {
                let tools = infer_tools_spec(cfg, server);
                (
                    DiscoveryView { entries: set_entry(d.entries, server.name, tools, now), ..d },
                    tools,
                )
            },
            None => match find_entry(d.entries, server.name) {
                Some(e) => (d, e.tools),
                None => (d, Seq::empty()),
            },
        }
    } else {
        match find_entry(d.entries, server.name) {
            Some(e) => (d, e.tools),
            None => (d, Seq::empty()),
        }
    }
}

/// Discovery over a whole configuration: every server's step, in
/// configuration order, threading the cache through.
pub open spec fn discover_rec(d: DiscoveryView, servers: Seq<McpServerView>, now: u64) -> (
    DiscoveryView,
    Seq<ToolView>,
)
    decreases servers.len(),
{
    if servers.len() == 0 {
        (d, Seq::empty())
    } else {
        let step = discover_step(d, servers[0], now);
        let rest = discover_rec(step.0, servers.drop_first(), now);
        (rest.0, step.1.add(rest.1))
    }
}

proof fn lemma_discover_rec_push(
    d: DiscoveryView,
    servers: Seq<McpServerView>,
    s: McpServerView,
    now: u64,
)
    ensures
        ({
            let whole = discover_rec(d, servers.push(s), now);
            let prefix = discover_rec(d, servers, now);
            let step = discover_step(prefix.0, s, now);
            whole.0 == step.0 && whole.1 =~= prefix.1.add(step.1)
        }),
    decreases servers.len(),
{
    reveal_with_fuel(discover_rec, 3);
    if servers.len() == 0 {
        assert(servers.push(s)[0] == s);
        assert(servers.push(s).drop_first() =~= Seq::<McpServerView>::empty());
    } else {
        assert(servers.push(s)[0] == servers[0]);
        assert(servers.push(s).drop_first() =~= servers.drop_first().push(s));
        lemma_discover_rec_push(
            discover_step(d, servers[0], now).0,
            servers.drop_first(),
            s,
            now,
        );
    }
}

/// What immediate, uncached inference yields for a whole configuration:
/// each server's inferred tools where the rules are available, its
/// generic fallback where they are not.
pub open spec fn immediate_tools(
    patterns: Option<PatternsConfigView>,
    servers: Seq<McpServerView>,
) -> Seq<ToolView>
    decreases servers.len(),
{
    if servers.len() == 0 {
        Seq::empty()
    } else {
        (match patterns {
            Some(cfg) => infer_tools_spec(cfg, servers[0]),
            None => seq![fallback_tool(servers[0])],
        }).add(immediate_tools(patterns, servers.drop_first()))
    }
}

proof fn lemma_immediate_tools_push(
    patterns: Option<PatternsConfigView>,
    servers: Seq<McpServerView>,
    s: McpServerView,
)
    ensures
        immediate_tools(patterns, servers.push(s)) =~= immediate_tools(patterns, servers).add(
            match patterns {
                Some(cfg) => infer_tools_spec(cfg, s),
                None => seq![fallback_tool(s)],
            },
        ),
    decreases servers.len(),
{
    reveal_with_fuel(immediate_tools, 3);
    if servers.len() == 0 {
        assert(servers.push(s)[0] == s);
        assert(servers.push(s).drop_first() =~= Seq::<McpServerView>::empty());
    } else {
        assert(servers.push(s)[0] == servers[0]);
        assert(servers.push(s).drop_first() =~= servers.drop_first().push(s));
        lemma_immediate_tools_push(patterns, servers.drop_first(), s);
    }
}

/// The message of the error raised when the rule configuration is not
/// available.
pub open spec fn patterns_missing_msg() -> Seq<char> {
    "Server patterns configuration file not found. Expected: prompts/server_patterns.toml"@
}

/// Tool discovery service that categorizes servers against the
/// externally configured matching rules and caches the outcome.
#[derive(Clone, Debug)]
pub struct ToolDiscovery {
    entries: Vec<CacheEntry>,
    cache_duration_secs: u64,
    server_patterns: Option<ServerPatternsConfig>,
}

impl View for ToolDiscovery {
    type V = DiscoveryView;

    closed spec fn view(&self) -> DiscoveryView {
        DiscoveryView {
            entries: self.entries.deep_view(),
            cache_duration_secs: self.cache_duration_secs,
            patterns: self.server_patterns.deep_view(),
        }
    }
}

impl ToolDiscovery {
    /// A discovery service with an empty cache, a five-minute cache
    /// duration, and no rule configuration yet.
    pub fn new() -> (r: Self)
        ensures
            r@.entries == Seq::<CacheEntryView>::empty(),
            r@.cache_duration_secs == 300,
            r@.patterns is None,
    {
        let r = ToolDiscovery {
            entries: Vec::new(),
            cache_duration_secs: 300,
            server_patterns: None,
        };
        proof {
            assert(r@.entries =~= Seq::<CacheEntryView>::empty());
        }
        r
    }

    /// Whether a rule configuration has been installed.
    pub fn has_patterns(&self) -> (r: bool)
        ensures
            r == (self@.patterns is Some),
    {
        self.server_patterns.is_some()
    }

    /// Installs the externally loaded rule configuration; every later
    /// inference evaluates these rules.
    pub fn set_server_patterns(&mut self, patterns: ServerPatternsConfig)
        ensures
            final(self)@ == (DiscoveryView { patterns: Some(patterns@), ..old(self)@ }),
    {
        self.server_patterns = Some(patterns);
        proof {
            assert(self@ =~= (DiscoveryView { patterns: Some(patterns@), ..old(self)@ }));
        }
    }

    /// Whether the cached tools of the named server must be refreshed.
    fn needs_refresh(&self, server_name: &str, now: u64) -> (r: bool)
        ensures
            r == needs_refresh_spec(self@, server_name@, now),
    {
        let n = self.entries.len();
        let mut i: usize = 0;
        while i < n
            invariant
                n == self.entries@.len(),
                i <= n,
                forall|k: int| 0 <= k < i ==> self@.entries[k].server != server_name@,
            decreases n - i,
        {
            let entry = &self.entries[i];
            if str_eq(entry.server.as_str(), server_name) {
                proof {
                    assert(self@.entries[i as int] == self.entries@[i as int]@);
                    lemma_find_entry_at(self@.entries, server_name@, i as int);
                }
                return if now < entry.refreshed_at {
                    true
                } else {
                    now - entry.refreshed_at > self.cache_duration_secs
                };
            }
            proof {
                assert(self@.entries[i as int] == self.entries@[i as int]@);
            }
            i += 1;
        }
        proof {
            lemma_find_entry_none(self@.entries, server_name@);
        }
        true
    }

    /// The cached tools of the named server, if any, copied out.
    fn cached_tools_of(&self, server_name: &str) -> (r: Option<Vec<Tool>>)
        ensures
            match find_entry(self@.entries, server_name@) {
                Some(e) => r matches Some(v) && v.deep_view() == e.tools,
                None => r is None,
            },
    {
        let n = self.entries.len();
        let mut i: usize = 0;
        while i < n
            invariant
                n == self.entries@.len(),
                i <= n,
                forall|k: int| 0 <= k < i ==> self@.entries[k].server != server_name@,
            decreases n - i,
        {
            let entry = &self.entries[i];
            if str_eq(entry.server.as_str(), server_name) {
                proof {
                    assert(self@.entries[i as int] == self.entries@[i as int]@);
                    lemma_find_entry_at(self@.entries, server_name@, i as int);
                }
                return Some(crate::types::duplicate_tools(&entry.tools));
            }
            proof {
                assert(self@.entries[i as int] == self.entries@[i as int]@);
            }
            i += 1;
        }
        proof {
            lemma_find_entry_none(self@.entries, server_name@);
        }
        None
    }

    /// The position of the named server's cache entry, if it has one.
    fn find_index(&self, server_name: &str) -> (r: Option<usize>)
        ensures
            match r {
                Some(i) => i < self@.entries.len() && self@.entries[i as int].server
                    == server_name@ && (forall|k: int|
                    0 <= k < i ==> self@.entries[k].server != server_name@),
                None => forall|k: int|
                    0 <= k < self@.entries.len() ==> self@.entries[k].server != server_name@,
            },
    {
        let n = self.entries.len();
        let mut i: usize = 0;
        while i < n
            invariant
                n == self.entries@.len(),
                i <= n,
                forall|k: int| 0 <= k < i ==> self@.entries[k].server != server_name@,
            decreases n - i,
        {
            let matched = str_eq(self.entries[i].server.as_str(), server_name);
            proof {
                assert(self@.entries[i as int] == self.entries@[i as int]@);
            }
            if matched {
                return Some(i);
            }
            i += 1;
        }
        None
    }

    /// Overwrites (or creates) the named server's cache entry.
    fn store_entry(&mut self, server_name: &str, tools: Vec<Tool>, now: u64)
        ensures
            final(self)@ == (DiscoveryView {
                entries: set_entry(old(self)@.entries, server_name@, tools.deep_view(), now),
                ..old(self)@
            }),
    {
        let ghost old_entries = self@.entries;
        let ghost new_view = CacheEntryView {
            server: server_name@,
            tools: tools.deep_view(),
            refreshed_at: now,
        };
        let entry = CacheEntry { server: String::from_str(server_name), tools, refreshed_at: now };
        let ghost ev = entry@;
        proof {
            assert(ev =~~= new_view);
        }
        match self.find_index(server_name) {
            Some(i) => {
                let ghost pre_vec = self.entries@;
                self.entries.set(i, entry);
                proof {
                    lemma_set_entry_at(old_entries, server_name@, new_view.tools, now, i as int);
                    assert(self.entries@[i as int]@ == ev);
                    assert forall|k: int|
                        0 <= k < self@.entries.len() && k != i implies self@.entries[k]
                        == old_entries[k] by {
                        assert(self.entries@[k] == pre_vec[k]);
                        assert(old_entries[k] == pre_vec[k]@);
                    }
                    assert(self@.entries =~~= old_entries.update(i as int, new_view));
                    assert(self@ =~~= (DiscoveryView {
                        entries: set_entry(old_entries, server_name@, new_view.tools, now),
                        ..old(self)@
                    }));
                }
            },
            None => {
                self.entries.push(entry);
                proof {
                    lemma_set_entry_append(old_entries, server_name@, new_view.tools, now);
                    assert(self@.entries =~~= old_entries.push(new_view));
                    assert(self@ =~~= (DiscoveryView {
                        entries: set_entry(old_entries, server_name@, new_view.tools, now),
                        ..old(self)@
                    }));
                }
            },
        }
    }

    /// Infers the named server's tools from the installed rules; fails
    /// exactly when no rule configuration is available.
    fn infer_server_tools(&self, server: &McpServer) -> (r: Result<Vec<Tool>, PromptError>)
        ensures
            match self@.patterns {
                Some(cfg) => r matches Ok(v) && v.deep_view() == infer_tools_spec(cfg, server@),
                None => r matches Err(e) && e@ == PromptErrorView::ConfigError(
                    patterns_missing_msg(),
                ),
            },
    {
        let patterns = match &self.server_patterns {
            Some(p) => p,
            None => {
                return Err(
                    PromptError::ConfigError(
                        String::from_str(
                            "Server patterns configuration file not found. Expected: prompts/server_patterns.toml",
                        ),
                    ),
                );
            },
        };
        if let Some(p) = &patterns.filesystem_servers {
            if matches_pattern(server, p) {
                return Ok(create_tools_from_pattern(server.name.as_str(), p));
            }
        }
        if let Some(p) = &patterns.weather_servers {
            if matches_pattern(server, p) {
                return Ok(create_tools_from_pattern(server.name.as_str(), p));
            }
        }
        if let Some(p) = &patterns.desktop_servers {
            if matches_pattern(server, p) {
                return Ok(create_tools_from_pattern(server.name.as_str(), p));
            }
        }
        if let Some(p) = &patterns.dynamic_servers {
            if matches_pattern(server, p) {
                return Ok(create_tools_from_pattern(server.name.as_str(), p));
            }
        }
        if let Some(p) = &patterns.data_servers {
            if matches_pattern(server, p) {
                return Ok(create_tools_from_pattern(server.name.as_str(), p));
            }
        }
        if let Some(p) = &patterns.web_servers {
            if matches_pattern(server, p) {
                return Ok(create_tools_from_pattern(server.name.as_str(), p));
            }
        }
        let mut out: Vec<Tool> = Vec::new();
        out.push(create_fallback_tool(server));
        proof {
            assert(out.deep_view() =~= seq![fallback_tool(server@)]);
        }
        Ok(out)
    }

    /// Discovers the tools of every configured server at the given time,
    /// serving fresh cache entries, re-inferring expired ones, and
    /// falling back to stale entries where inference is impossible.
    pub fn discover_tools(&mut self, mcp_config: &McpConfig, now: u64) -> (r: Result<
        Vec<Tool>,
        PromptError,
    >)
        ensures
            r matches Ok(v) && v.deep_view() == discover_rec(
                old(self)@,
                mcp_config@.mcp_servers,
                now,
            ).1,
            final(self)@ == discover_rec(old(self)@, mcp_config@.mcp_servers, now).0,
    {
        let ghost d0 = self@;
        let ghost servers = mcp_config@.mcp_servers;
        let mut all_tools: Vec<Tool> = Vec::new();
        let n = mcp_config.mcp_servers.len();
        let mut i: usize = 0;
        proof {
            assert(servers.take(0) =~= Seq::<McpServerView>::empty());
        }
        while i < n
            invariant
                n == mcp_config.mcp_servers@.len(),
                servers == mcp_config@.mcp_servers,
                i <= n,
                self@ == discover_rec(d0, servers.take(i as int), now).0,
                all_tools.deep_view() == discover_rec(d0, servers.take(i as int), now).1,
                self@.cache_duration_secs == d0.cache_duration_secs,
                self@.patterns == d0.patterns,
            decreases n - i,
        {
            let server = &mcp_config.mcp_servers[i];
            let ghost sv = servers[i as int];
            let ghost pre = self@;
            let ghost tools_before = all_tools.deep_view();
            proof {
                assert(sv == mcp_config.mcp_servers@[i as int]@);
            }
            if self.needs_refresh(server.name.as_str(), now) {
                match self.infer_server_tools(server) {
                    Ok(tools) => {
                        let copy = crate::types::duplicate_tools(&tools);
                        self.store_entry(server.name.as_str(), copy, now);
                        let mut j: usize = 0;
                        let ghost tv = tools.deep_view();
                        while j < tools.len()
                            invariant
                                tv == tools.deep_view(),
                                j <= tools@.len(),
                                all_tools.deep_view() =~= tools_before.add(tv.take(j as int)),
                            decreases tools@.len() - j,
                        {
                            let ghost before = all_tools.deep_view();
                            all_tools.push(tools[j].duplicate());
                            proof {
                                assert(tv[j as int] == tools@[j as int]@);
                                assert(all_tools.deep_view() =~= before.push(tv[j as int]));
                                assert(tv.take(j + 1) =~= tv.take(j as int).push(tv[j as int]));
                            }
                            j += 1;
                        }
                        proof {
                            assert(tv.take(tools@.len() as int) =~= tv);
                            assert(all_tools.deep_view() =~= tools_before.add(tv));
                        }
                    },
                    Err(_) => {
                        match self.cached_tools_of(server.name.as_str()) {
                            Some(cached) => {
                                let mut j: usize = 0;
                                let ghost cv = cached.deep_view();
                                while j < cached.len()
                                    invariant
                                        cv == cached.deep_view(),
                                        j <= cached@.len(),
                                        all_tools.deep_view() =~= tools_before.add(
                                            cv.take(j as int),
                                        ),
                                    decreases cached@.len() - j,
                                {
                                    let ghost before = all_tools.deep_view();
                                    all_tools.push(cached[j].duplicate());
                                    proof {
                                        assert(cv[j as int] == cached@[j as int]@);
                                        assert(all_tools.deep_view() =~= before.push(cv[j as int]));
                                        assert(cv.take(j + 1) =~= cv.take(j as int).push(
                                            cv[j as int],
                                        ));
                                    }
                                    j += 1;
                                }
                                proof {
                                    assert(cv.take(cached@.len() as int) =~= cv);
                                    assert(all_tools.deep_view() =~= tools_before.add(cv));
                                }
                            },
                            None => {
                                proof {
                                    assert(all_tools.deep_view() =~= tools_before.add(
                                        Seq::<ToolView>::empty(),
                                    ));
                                }
                            },
                        }
                    },
                }
            } else {
                match self.cached_tools_of(server.name.as_str()) {
                    Some(cached) => {
                        let mut j: usize = 0;
                        let ghost cv = cached.deep_view();
                        while j < cached.len()
                            invariant
                                cv == cached.deep_view(),
                                j <= cached@.len(),
                                all_tools.deep_view() =~= tools_before.add(cv.take(j as int)),
                            decreases cached@.len() - j,
                        {
                            let ghost before = all_tools.deep_view();
                            all_tools.push(cached[j].duplicate());
                            proof {
                                assert(cv[j as int] == cached@[j as int]@);
                                assert(all_tools.deep_view() =~= before.push(cv[j as int]));
                                assert(cv.take(j + 1) =~= cv.take(j as int).push(cv[j as int]));
                            }
                            j += 1;
                        }
                        proof {
                            assert(cv.take(cached@.len() as int) =~= cv);
                            assert(all_tools.deep_view() =~= tools_before.add(cv));
                        }
                    },
                    None => {
                        proof {
                            assert(all_tools.deep_view() =~= tools_before.add(
                                Seq::<ToolView>::empty(),
                            ));
                        }
                    },
                }
            }
            proof {
                let step = discover_step(pre, sv, now);
                assert(self@ =~= step.0);
                assert(all_tools.deep_view() =~= tools_before.add(step.1));
                lemma_discover_rec_push(d0, servers.take(i as int), sv, now);
                assert(servers.take(i as int).push(sv) =~= servers.take(i + 1));
            }
            i += 1;
        }
        proof {
            assert(servers.take(n as int) =~= servers);
        }
        Ok(all_tools)
    }

    /// Forces a fresh inference for one named server, overwriting its
    /// cache entry regardless of its age; fails when the server is not
    /// configured or the rules are unavailable.
    pub fn refresh_server(&mut self, server_name: &str, mcp_config: &McpConfig, now: u64) -> (r:
        Result<Vec<Tool>, PromptError>)
        ensures
            match find_server(mcp_config@.mcp_servers, server_name@) {
                None => r matches Err(e) && e@ == PromptErrorView::ConfigError(
                    "Server "@ + server_name@ + " not found in configuration"@,
                ) && final(self)@ == old(self)@,
                Some(server) => match old(self)@.patterns {
                    None => r matches Err(e) && e@ == PromptErrorView::ConfigError(
                        patterns_missing_msg(),
                    ) && final(self)@ == old(self)@,
                    Some(cfg) => r matches Ok(v) && v.deep_view() == infer_tools_spec(cfg, server)
                        && final(self)@ == (DiscoveryView {
                        entries: set_entry(
                            old(self)@.entries,
                            server_name@,
                            infer_tools_spec(cfg, server),
                            now,
                        ),
                        ..old(self)@
                    }),
                },
            },
    {
        let ghost servers = mcp_config@.mcp_servers;
        let n = mcp_config.mcp_servers.len();
        let mut i: usize = 0;
        while i < n
            invariant
                n == mcp_config.mcp_servers@.len(),
                servers == mcp_config@.mcp_servers,
                self@ == old(self)@,
                i <= n,
                forall|k: int| 0 <= k < i ==> servers[k].name != server_name@,
            decreases n - i,
        {
            let server = &mcp_config.mcp_servers[i];
            proof {
                assert(servers[i as int] == mcp_config.mcp_servers@[i as int]@);
            }
            if str_eq(server.name.as_str(), server_name) {
                proof {
                    lemma_find_server_at(servers, server_name@, i as int);
                }
                let tools = match self.infer_server_tools(server) {
                    Ok(t) => t,
                    Err(e) => {
                        return Err(e);
                    },
                };
                let copy = crate::types::duplicate_tools(&tools);
                self.store_entry(server_name, copy, now);
                return Ok(tools);
            }
            i += 1;
        }
        proof {
            lemma_find_server_none(servers, server_name@);
        }
        let mut msg = String::from_str("Server ");
        msg.append(server_name);
        msg.append(" not found in configuration");
        Err(PromptError::ConfigError(msg))
    }

    /// Every cached tool of every server, in cache order.
    pub fn get_cached_tools(&self) -> (r: Vec<Tool>)
        ensures
            r.deep_view() == all_cached(self@.entries),
    {
        let mut out: Vec<Tool> = Vec::new();
        let n = self.entries.len();
        let mut i: usize = 0;
        proof {
            assert(self@.entries.take(0) =~= Seq::<CacheEntryView>::empty());
        }
        while i < n
            invariant
                n == self.entries@.len(),
                i <= n,
                out.deep_view() =~= all_cached(self@.entries.take(i as int)),
            decreases n - i,
        {
            let entry = &self.entries[i];
            let ghost before = out.deep_view();
            let mut j: usize = 0;
            let ghost ev = self@.entries[i as int];
            proof {
                assert(ev == self.entries@[i as int]@);
            }
            while j < entry.tools.len()
                invariant
                    ev == self.entries@[i as int]@,
                    entry == self.entries@[i as int],
                    j <= entry.tools@.len(),
                    out.deep_view() =~= before.add(ev.tools.take(j as int)),
                decreases entry.tools@.len() - j,
            {
                let ghost ob = out.deep_view();
                out.push(entry.tools[j].duplicate());
                proof {
                    assert(ev.tools[j as int] == entry.tools@[j as int]@);
                    assert(out.deep_view() =~= ob.push(ev.tools[j as int]));
                    assert(ev.tools.take(j + 1) =~= ev.tools.take(j as int).push(
                        ev.tools[j as int],
                    ));
                }
                j += 1;
            }
            proof {
                assert(ev.tools.take(entry.tools@.len() as int) =~= ev.tools);
                assert(out.deep_view() =~= before.add(ev.tools));
                lemma_all_cached_push(self@.entries.take(i as int), ev);
                assert(self@.entries.take(i as int).push(ev) =~= self@.entries.take(i + 1));
            }
            i += 1;
        }
        proof {
            assert(self@.entries.take(n as int) =~= self@.entries);
        }
        out
    }

    /// Infers tools for a whole configuration without touching the
    /// cache: each server gets its inferred tools, or the generic
    /// fallback when the rules are unavailable.
    pub fn infer_tools_from_config_immediate(&self, mcp_config: &McpConfig) -> (r: Vec<Tool>)
        ensures
            r.deep_view() == immediate_tools(self@.patterns, mcp_config@.mcp_servers),
    {
        let ghost servers = mcp_config@.mcp_servers;
        let mut out: Vec<Tool> = Vec::new();
        let n = mcp_config.mcp_servers.len();
        let mut i: usize = 0;
        proof {
            assert(servers.take(0) =~= Seq::<McpServerView>::empty());
        }
        while i < n
            invariant
                n == mcp_config.mcp_servers@.len(),
                servers == mcp_config@.mcp_servers,
                i <= n,
                out.deep_view() =~= immediate_tools(self@.patterns, servers.take(i as int)),
            decreases n - i,
        {
            let server = &mcp_config.mcp_servers[i];
            let ghost sv = servers[i as int];
            let ghost before = out.deep_view();
            proof {
                assert(sv == mcp_config.mcp_servers@[i as int]@);
            }
            match self.infer_server_tools(server) {
                Ok(tools) => {
                    let mut j: usize = 0;
                    let ghost tv = tools.deep_view();
                    while j < tools.len()
                        invariant
                            tv == tools.deep_view(),
                            j <= tools@.len(),
                            out.deep_view() =~= before.add(tv.take(j as int)),
                        decreases tools@.len() - j,
                    {
                        let ghost ob = out.deep_view();
                        out.push(tools[j].duplicate());
                        proof {
                            assert(tv[j as int] == tools@[j as int]@);
                            assert(out.deep_view() =~= ob.push(tv[j as int]));
                            assert(tv.take(j + 1) =~= tv.take(j as int).push(tv[j as int]));
                        }
                        j += 1;
                    }
                    proof {
                        assert(tv.take(tools@.len() as int) =~= tv);
                        assert(out.deep_view() =~= before.add(tv));
                    }
                },
                Err(_) => {
                    let ghost ob = out.deep_view();
                    out.push(create_fallback_tool(server));
                    proof {
                        assert(out.deep_view() =~= ob.push(fallback_tool(sv)));
                        assert(out.deep_view() =~= before.add(seq![fallback_tool(sv)]));
                    }
                },
            }
            proof {
                lemma_immediate_tools_push(self@.patterns, servers.take(i as int), sv);
                assert(servers.take(i as int).push(sv) =~= servers.take(i + 1));
            }
            i += 1;
        }
        proof {
            assert(servers.take(n as int) =~= servers);
        }
        out
    }
}

impl Default for ToolDiscovery {
    /// A discovery service with an empty cache and no rules installed.
    fn default() -> (r: Self)
        ensures
            r@.entries == Seq::<CacheEntryView>::empty(),
            r@.cache_duration_secs == 300,
            r@.patterns is None,
    {
        Self::new()
    }
}

proof fn lemma_find_server_at(servers: Seq<McpServerView>, name: Seq<char>, i: int)
    requires
        0 <= i < servers.len(),
        servers[i].name == name,
        forall|k: int| 0 <= k < i ==> servers[k].name != name,
    ensures
        find_server(servers, name) == Some(servers[i]),
    decreases i,
{
    if i > 0 {
        assert(forall|k: int|
            0 <= k < i - 1 ==> servers.drop_first()[k] == servers[k + 1]);
        lemma_find_server_at(servers.drop_first(), name, i - 1);
    }
}

proof fn lemma_find_server_none(servers: Seq<McpServerView>, name: Seq<char>)
    requires
        forall|k: int| 0 <= k < servers.len() ==> servers[k].name != name,
    ensures
        find_server(servers, name) is None,
    decreases servers.len(),
{
    if servers.len() > 0 {
        lemma_find_server_none(servers.drop_first(), name);
    }
}

proof fn lemma_find_after_set(
    entries: Seq<CacheEntryView>,
    set_name: Seq<char>,
    tools: Seq<ToolView>,
    now: u64,
    name: Seq<char>,
)
    ensures
        find_entry(set_entry(entries, set_name, tools, now), name) == (if name == set_name {
            Some(CacheEntryView { server: set_name, tools, refreshed_at: now })
        } else {
            find_entry(entries, name)
        }),
    decreases entries.len(),
{
    reveal_with_fuel(find_entry, 3);
    reveal_with_fuel(set_entry, 3);
    if entries.len() == 0 {
    } else if entries[0].server == set_name {
        let new_entry = CacheEntryView { server: set_name, tools, refreshed_at: now };
        assert(entries.update(0, new_entry)[0] == new_entry);
        assert(entries.update(0, new_entry).drop_first() =~= entries.drop_first());
    } else {
        lemma_find_after_set(entries.drop_first(), set_name, tools, now, name);
        let s = seq![entries[0]].add(set_entry(entries.drop_first(), set_name, tools, now));
        assert(s[0] == entries[0]);
        assert(s.drop_first() =~= set_entry(entries.drop_first(), set_name, tools, now));
    }
}

/// Every present rule of the configuration declares at least one
/// capability template.
pub open spec fn rules_productive(cfg: PatternsConfigView) -> bool {
    &&& (cfg.filesystem_servers matches Some(p) ==> p.tools.len() > 0)
    &&& (cfg.weather_servers matches Some(p) ==> p.tools.len() > 0)
    &&& (cfg.desktop_servers matches Some(p) ==> p.tools.len() > 0)
    &&& (cfg.dynamic_servers matches Some(p) ==> p.tools.len() > 0)
    &&& (cfg.data_servers matches Some(p) ==> p.tools.len() > 0)
    &&& (cfg.web_servers matches Some(p) ==> p.tools.len() > 0)
}

/// Fallback guarantee: under a rule configuration whose present rules
/// each declare at least one capability template, inference yields at
/// least one capability for every server configuration.
pub proof fn lemma_inference_fallback_guarantee(cfg: PatternsConfigView, server: McpServerView)
    requires
        rules_productive(cfg),
    ensures
        infer_tools_spec(cfg, server).len() >= 1,
{
}

/// Fallback guarantee over a whole configuration: immediate inference
/// yields at least one capability per declared server, whether or not a
/// rule configuration is available.
pub proof fn lemma_immediate_at_least_one_each(
    patterns: Option<PatternsConfigView>,
    servers: Seq<McpServerView>,
)
    requires
        patterns matches Some(cfg) ==> rules_productive(cfg),
    ensures
        immediate_tools(patterns, servers).len() >= servers.len(),
    decreases servers.len(),
{
    if servers.len() > 0 {
        lemma_immediate_at_least_one_each(patterns, servers.drop_first());
        match patterns {
            Some(cfg) => lemma_inference_fallback_guarantee(cfg, servers[0]),
            None => (),
        }
    }
}

/// Cache idempotence: once discovery has re-evaluated the rules for a
/// provider, running it again for the same provider within the cache
/// duration is a cache hit that returns identical capabilities and
/// leaves the cache exactly as it was.
pub proof fn lemma_discovery_idempotent_within_duration(
    d: DiscoveryView,
    server: McpServerView,
    t1: u64,
    t2: u64,
)
    requires
        d.patterns is Some,
        needs_refresh_spec(d, server.name, t1),
        t1 <= t2,
        t2 - t1 <= d.cache_duration_secs,
    ensures
        ({
            let first = discover_step(d, server, t1);
            let second = discover_step(first.0, server, t2);
            second.1 == first.1 && second.0 == first.0
        }),
{
    let cfg = d.patterns->0;
    let tools = infer_tools_spec(cfg, server);
    let first = discover_step(d, server, t1);
    lemma_find_after_set(d.entries, server.name, tools, t1, server.name);
    assert(find_entry(first.0.entries, server.name) == Some(
        CacheEntryView { server: server.name, tools, refreshed_at: t1 },
    ));
    assert(!needs_refresh_spec(first.0, server.name, t2));
}

} // verus!
