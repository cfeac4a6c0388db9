//! Agent configuration: its sections, the checks it must pass, and the
//! expansion of `${NAME}` references to environment variables.
use vstd::prelude::*;
use vstd::string::StringExecFns;
use crate::error::cat3;
use crate::text::{chars_of, str_eq, text_from_chars};

verus! {

/// The agent's identity.
#[derive(Debug)]
pub struct AgentSection {
    pub name: String,
    pub version: Option<String>,
    pub description: Option<String>,
}

/// The language model. The temperature is held as the bit pattern of the
/// `f32` read from the configuration.
#[derive(Debug)]
pub struct ModelSection {
    pub provider: String,
    pub model: String,
    pub api_key: Option<String>,
    pub base_url: Option<String>,
    pub temperature_bits: Option<u32>,
    pub max_tokens: Option<usize>,
    pub context_strategy: Option<String>,
}

/// Memory settings.
#[derive(Debug)]
pub struct MemorySection {
    pub mode: Option<String>,
    pub short_term_ttl: Option<u64>,
    pub long_term_backend: Option<String>,
    pub vector_backend: Option<String>,
    pub embedding_model: Option<String>,
}

/// Self-healing settings.
#[derive(Debug)]
pub struct HealSection {
    pub enabled: Option<bool>,
    pub max_attempts: Option<usize>,
    pub strategies: Option<Vec<String>>,
    pub background: Option<bool>,
}

/// One quality criterion; its weight is held as an `f32`'s bit pattern.
#[derive(Debug)]
pub struct QualityCriterion {
    pub name: String,
    pub weight_bits: u32,
    pub description: String,
}

/// Quality settings of a loop agent; the threshold is held as an `f32`'s
/// bit pattern.
#[derive(Debug)]
pub struct QualitySection {
    pub threshold_bits: Option<u32>,
    pub max_iterations: Option<usize>,
    pub criteria: Option<Vec<QualityCriterion>>,
}

/// The tools an agent may use.
#[derive(Debug)]
pub struct ToolsSection {
    pub enabled: Vec<String>,
}

/// What an agent may touch.
#[derive(Debug)]
pub struct PermissionsSection {
    pub allow_network: bool,
    pub allow_filesystem: bool,
    pub allowed_paths: Option<Vec<String>>,
    pub max_execution_time: Option<u64>,
}

/// Observability settings.
#[derive(Debug)]
pub struct ObserveSection {
    pub enabled: Option<bool>,
    pub backend: Option<String>,
    pub endpoint: Option<String>,
}

/// A whole agent configuration.
#[derive(Debug)]
pub struct AgentConfig {
    pub agent: AgentSection,
    pub model: ModelSection,
    pub memory: Option<MemorySection>,
    pub heal: Option<HealSection>,
    pub quality: Option<QualitySection>,
    pub tools: ToolsSection,
    pub permissions: PermissionsSection,
    pub observe: Option<ObserveSection>,
}

/// Why a configuration is refused.
#[derive(Debug)]
pub enum ConfigIssue {
    /// The provider is not one of the known ones.
    InvalidProvider(String),
    /// The temperature (bit pattern) is outside [0, 2].
    TemperatureOutOfRange(u32),
    /// `max_tokens` is zero.
    ZeroMaxTokens,
    /// The quality threshold (bit pattern) is outside [0, 1].
    ThresholdOutOfRange(u32),
    /// No tool is enabled.
    NoTools,
}

/// The providers a configuration may name.
pub open spec fn known_providers() -> Seq<Seq<char>> {
    seq!["anthropic"@, "openai"@, "gemini"@, "ollama"@, "custom"@]
}

/// Whether the `f32` with bit pattern `bits` lies in `[0, x]`, where
/// `top_bits` is the bit pattern of the positive `x`: non-negative finite
/// values order as their bit patterns, negative zero counts as zero, and
/// NaNs and negative values lie outside.
pub open spec fn f32_bits_within(bits: u32, top_bits: u32) -> bool {
    bits <= top_bits || bits == 0x8000_0000
}

/// The bit pattern of 2.0f32.
pub open spec fn two_bits() -> u32 {
    0x4000_0000
}

/// The bit pattern of 1.0f32.
pub open spec fn one_bits() -> u32 {
    0x3F80_0000
}

/// The first problem a configuration has, in the order they are checked:
/// provider, temperature, maximum tokens, quality threshold, tools.
pub open spec fn config_issue(c: AgentConfig) -> Option<ConfigIssueKind> {
    if !known_providers().contains(c.model.provider@) {
        Some(ConfigIssueKind::InvalidProvider)
    } else if c.model.temperature_bits matches Some(t) && !f32_bits_within(t, two_bits()) {
        Some(ConfigIssueKind::TemperatureOutOfRange)
    } else if c.model.max_tokens == Some(0usize) {
        Some(ConfigIssueKind::ZeroMaxTokens)
    } else if c.quality matches Some(q) && q.threshold_bits matches Some(t) && !f32_bits_within(
        t,
        one_bits(),
    ) {
        Some(ConfigIssueKind::ThresholdOutOfRange)
    } else if c.tools.enabled@.len() == 0 {
        Some(ConfigIssueKind::NoTools)
    } else {
        None
    }
}

/// A provider is accepted exactly when it is one of the five names the
/// refusal message lists: anthropic, openai, gemini, ollama, custom.
pub proof fn lemma_known_provider(p: Seq<char>)
    ensures
        known_providers().contains(p) <==> (p == "anthropic"@ || p == "openai"@ || p == "gemini"@
            || p == "ollama"@ || p == "custom"@),
{
    let k = known_providers();
    if p == "anthropic"@ {
        assert(k[0] == p);
    } else if p == "openai"@ {
        assert(k[1] == p);
    } else if p == "gemini"@ {
        assert(k[2] == p);
    } else if p == "ollama"@ {
        assert(k[3] == p);
    } else if p == "custom"@ {
        assert(k[4] == p);
    }
}

/// A configuration is valid exactly when its provider is one of the five
/// known names, its temperature (if given) lies in [0, 2], its maximum
/// token count (if given) is not zero, its quality threshold (if given)
/// lies in [0, 1], and it enables at least one tool; it is refused for its
/// provider exactly when the provider is none of the five.
pub proof fn lemma_config_valid(c: AgentConfig)
    ensures
        config_issue(c) is None <==> {
            &&& (c.model.provider@ == "anthropic"@ || c.model.provider@ == "openai"@ || c.model.provider@
                == "gemini"@ || c.model.provider@ == "ollama"@ || c.model.provider@ == "custom"@)
            &&& (c.model.temperature_bits matches Some(t) ==> f32_bits_within(t, two_bits()))
            &&& c.model.max_tokens != Some(0usize)
            &&& match c.quality {
                Some(q) => match q.threshold_bits {
                    Some(t) => f32_bits_within(t, one_bits()),
                    None => true,
                },
                None => true,
            }
            &&& c.tools.enabled@.len() > 0
        },
        config_issue(c) == Some(ConfigIssueKind::InvalidProvider) <==> !(c.model.provider@ == "anthropic"@
            || c.model.provider@ == "openai"@ || c.model.provider@ == "gemini"@ || c.model.provider@
            == "ollama"@ || c.model.provider@ == "custom"@),
{
    let p = c.model.provider@;
    lemma_known_provider(p);
    let named = p == "anthropic"@ || p == "openai"@ || p == "gemini"@ || p == "ollama"@ || p == "custom"@;
    assert(known_providers().contains(p) == named);
}

/// The kinds of configuration problem.
#[derive(Clone, Copy, Debug, PartialEq, Eq, Structural)]
pub enum ConfigIssueKind {
    InvalidProvider,
    TemperatureOutOfRange,
    ZeroMaxTokens,
    ThresholdOutOfRange,
    NoTools,
}

impl ConfigIssue {
    /// The kind of the problem.
    pub open spec fn kind(self) -> ConfigIssueKind {
        match self {
            ConfigIssue::InvalidProvider(_) => ConfigIssueKind::InvalidProvider,
            ConfigIssue::TemperatureOutOfRange(_) => ConfigIssueKind::TemperatureOutOfRange,
            ConfigIssue::ZeroMaxTokens => ConfigIssueKind::ZeroMaxTokens,
            ConfigIssue::ThresholdOutOfRange(_) => ConfigIssueKind::ThresholdOutOfRange,
            ConfigIssue::NoTools => ConfigIssueKind::NoTools,
        }
    }

    /// The message for the problem. For an out-of-range temperature or
    /// threshold this is the message up to the offending value, which the
    /// caller renders and appends.
    pub fn message(&self) -> (s: String)
        ensures
            s@ == match *self {
                ConfigIssue::InvalidProvider(p) => "Invalid provider: "@ + p@
                    + ". Must be one of: [\"anthropic\", \"openai\", \"gemini\", \"ollama\", \"custom\"]"@,
                ConfigIssue::TemperatureOutOfRange(_) => "Temperature must be between 0.0 and 2.0, got "@,
                ConfigIssue::ZeroMaxTokens => "max_tokens must be greater than 0"@,
                ConfigIssue::ThresholdOutOfRange(_) => "Quality threshold must be between 0.0 and 1.0, got "@,
                ConfigIssue::NoTools => "tools.enabled must not be empty"@,
            },
    {
        match self {
            ConfigIssue::InvalidProvider(p) => cat3(
                "Invalid provider: ",
                p.as_str(),
                ". Must be one of: [\"anthropic\", \"openai\", \"gemini\", \"ollama\", \"custom\"]",
            ),
            ConfigIssue::TemperatureOutOfRange(_) => String::from_str(
                "Temperature must be between 0.0 and 2.0, got ",
            ),
            ConfigIssue::ZeroMaxTokens => String::from_str("max_tokens must be greater than 0"),
            ConfigIssue::ThresholdOutOfRange(_) => String::from_str(
                "Quality threshold must be between 0.0 and 1.0, got ",
            ),
            ConfigIssue::NoTools => String::from_str("tools.enabled must not be empty"),
        }
    }
}

fn bits_within(bits: u32, top_bits: u32) -> (r: bool)
    ensures
        r == f32_bits_within(bits, top_bits),
{
    bits <= top_bits || bits == 0x8000_0000
}

fn is_known_provider(p: &str) -> (r: bool)
    ensures
        r == known_providers().contains(p@),
{
    let r = str_eq(p, "anthropic") || str_eq(p, "openai") || str_eq(p, "gemini") || str_eq(
        p,
        "ollama",
    ) || str_eq(p, "custom");
    proof {
        let k = known_providers();
        if r {
            if p@ == "anthropic"@ {
                assert(k[0] == p@);
            } else if p@ == "openai"@ {
                assert(k[1] == p@);
            } else if p@ == "gemini"@ {
                assert(k[2] == p@);
            } else if p@ == "ollama"@ {
                assert(k[3] == p@);
            } else {
                assert(k[4] == p@);
            }
        } else {
            assert forall|j: int| 0 <= j < k.len() implies k[j] != p@ by {
            }
        }
    }
    r
}

impl AgentConfig {
    /// Checks the configuration: the provider must be known, the
    /// temperature (if set) in [0, 2], `max_tokens` (if set) positive, the
    /// quality threshold (if set) in [0, 1], and some tool enabled. The
    /// first problem found, in that order, is reported.
    pub fn validate(&self) -> (r: Result<(), ConfigIssue>)
        ensures
            match config_issue(*self) {
                None => r is Ok,
                Some(k) => r matches Err(issue) && issue.kind() == k && match issue {
                    ConfigIssue::InvalidProvider(p) => p@ == self.model.provider@,
                    ConfigIssue::TemperatureOutOfRange(b) => self.model.temperature_bits == Some(b),
                    ConfigIssue::ThresholdOutOfRange(b) => self.quality matches Some(q)
                        && q.threshold_bits == Some(b),
                    _ => true,
                },
            },
    {
        if !is_known_provider(self.model.provider.as_str()) {
            return Err(ConfigIssue::InvalidProvider(self.model.provider.clone()));
        }
        if let Some(t) = self.model.temperature_bits {
            if !bits_within(t, 0x4000_0000) {
                return Err(ConfigIssue::TemperatureOutOfRange(t));
            }
        }
        if let Some(tokens) = self.model.max_tokens {
            if tokens == 0 {
                return Err(ConfigIssue::ZeroMaxTokens);
            }
        }
        if let Some(quality) = &self.quality {
            if let Some(t) = quality.threshold_bits {
                if !bits_within(t, 0x3F80_0000) {
                    return Err(ConfigIssue::ThresholdOutOfRange(t));
                }
            }
        }
        if self.tools.enabled.len() == 0 {
            return Err(ConfigIssue::NoTools);
        }
        Ok(())
    }
}

// ---------------------------------------------------------------- ${NAME} expansion

/// The first position `i >= from` where `a` is followed by `b`.
pub open spec fn find_pair(s: Seq<char>, a: char, b: char, from: int) -> Option<int>
    decreases s.len() - from,
{
    if from < 0 || from + 1 >= s.len() {
        None
    } else if s[from] == a && s[from + 1] == b {
        Some(from)
    } else {
        find_pair(s, a, b, from + 1)
    }
}

/// The first position `i >= from` holding `c`.
pub open spec fn find_char(s: Seq<char>, c: char, from: int) -> Option<int>
    decreases s.len() - from,
{
    if from < 0 || from >= s.len() {
        None
    } else if s[from] == c {
        Some(from)
    } else {
        find_char(s, c, from + 1)
    }
}

/// The value of the variable `name` among `(name, value)` pairs: the first
/// pair with that name.
pub open spec fn lookup(vars: Seq<(Seq<char>, Seq<char>)>, name: Seq<char>) -> Option<Seq<char>>
    decreases vars.len(),
{
    if vars.len() == 0 {
        None
    } else if vars[0].0 == name {
        Some(vars[0].1)
    } else {
        lookup(vars.drop_first(), name)
    }
}

/// One expansion step: the first `${` with a closing `}` after it, whose
/// variable is set, is replaced by the variable's value. `None` when the
/// first `${` has no closing `}` or names an unset variable, or there is no
/// `${` at all (expansion stops there).
pub open spec fn expand_step(s: Seq<char>, vars: Seq<(Seq<char>, Seq<char>)>) -> Option<Seq<char>> {
    match find_pair(s, '$', '{', 0) {
        None => None,
        Some(start) => match find_char(s, '}', start + 2) {
            None => None,
            Some(end) => match lookup(vars, s.subrange(start + 2, end)) {
                None => None,
                Some(value) => Some(s.take(start) + value + s.skip(end + 1)),
            },
        },
    }
}

/// The text after at most `fuel` expansion steps, if expansion stops within
/// them.
pub open spec fn expand_within(s: Seq<char>, vars: Seq<(Seq<char>, Seq<char>)>, fuel: nat) -> Option<Seq<char>>
    decreases fuel,
{
    match expand_step(s, vars) {
        None => Some(s),
        Some(next) => if fuel == 0 {
            None
        } else {
            expand_within(next, vars, (fuel - 1) as nat)
        },
    }
}

/// The pairs by their characters.
pub open spec fn var_texts(vars: Seq<(String, String)>) -> Seq<(Seq<char>, Seq<char>)> {
    vars.map_values(|p: (String, String)| (p.0@, p.1@))
}

fn find_pair_exec(s: &Vec<char>, a: char, b: char) -> (r: Option<usize>)
    ensures
        match find_pair(s@, a, b, 0) {
            None => r is None,
            Some(i) => r == Some(i as usize),
        },
{
    let mut i: usize = 0;
    while i < s.len() && s.len() - i > 1
        invariant
            i <= s.len(),
            find_pair(s@, a, b, 0) == find_pair(s@, a, b, i as int),
        decreases s.len() - i,
    {
        if s[i] == a && s[i + 1] == b {
            return Some(i);
        }
        i = i + 1;
    }
    None
}

fn find_char_exec(s: &Vec<char>, c: char, from: usize) -> (r: Option<usize>)
    ensures
        match find_char(s@, c, from as int) {
            None => r is None,
            Some(i) => r == Some(i as usize),
        },
{
    let mut i: usize = from;
    while i < s.len()
        invariant
            from <= i,
            find_char(s@, c, from as int) == find_char(s@, c, i as int),
        decreases s.len() - i,
    {
        if s[i] == c {
            return Some(i);
        }
        i = i + 1;
    }
    None
}

proof fn lemma_find_char_bounds(s: Seq<char>, c: char, from: int)
    ensures
        find_char(s, c, from) matches Some(i) ==> from <= i < s.len() && s[i] == c,
    decreases s.len() - from,
{
    if from >= 0 && from < s.len() && s[from] != c {
        lemma_find_char_bounds(s, c, from + 1);
    }
}

proof fn lemma_find_pair_bounds(s: Seq<char>, a: char, b: char, from: int)
    ensures
        find_pair(s, a, b, from) matches Some(i) ==> from <= i && i + 1 < s.len(),
    decreases s.len() - from,
{
    if from >= 0 && from + 1 < s.len() && !(s[from] == a && s[from + 1] == b) {
        lemma_find_pair_bounds(s, a, b, from + 1);
    }
}

fn lookup_exec(vars: &Vec<(String, String)>, name: &Vec<char>) -> (r: Option<Vec<char>>)
    ensures
        match lookup(var_texts(vars@), name@) {
            None => r is None,
            Some(v) => r matches Some(x) && x@ == v,
        },
{
    let name_text = text_from_chars(name);
    let mut i: usize = 0;
    assert(var_texts(vars@).skip(0) =~= var_texts(vars@));
    while i < vars.len()
        invariant
            0 <= i <= vars.len(),
            name_text@ == name@,
            lookup(var_texts(vars@), name@) == lookup(var_texts(vars@).skip(i as int), name@),
        decreases vars.len() - i,
    {
        let ghost rest = var_texts(vars@).skip(i as int);
        assert(rest[0] == (vars@[i as int].0@, vars@[i as int].1@));
        assert(rest.drop_first() =~= var_texts(vars@).skip(i + 1));
        if str_eq(vars[i].0.as_str(), name_text.as_str()) {
            return Some(chars_of(vars[i].1.as_str()));
        }
        i = i + 1;
    }
    None
}

fn expand_step_exec(s: &Vec<char>, vars: &Vec<(String, String)>) -> (r: Option<Vec<char>>)
    ensures
        match expand_step(s@, var_texts(vars@)) {
            None => r is None,
            Some(t) => r matches Some(x) && x@ == t,
        },
{
    proof {
        lemma_find_pair_bounds(s@, '$', '{', 0);
    }
    let start = match find_pair_exec(s, '$', '{') {
        None => return None,
        Some(i) => i,
    };
    assert(start + 1 < s.len());
    proof {
        lemma_find_char_bounds(s@, '}', start + 2);
    }
    let end = match find_char_exec(s, '}', start + 2) {
        None => return None,
        Some(j) => j,
    };
    let mut name: Vec<char> = Vec::new();
    let mut k: usize = start + 2;
    while k < end
        invariant
            start + 2 <= k <= end < s.len(),
            name@ == s@.subrange(start + 2, k as int),
        decreases end - k,
    {
        name.push(s[k]);
        assert(name@ =~= s@.subrange(start + 2, k + 1));
        k = k + 1;
    }
    let value = match lookup_exec(vars, &name) {
        None => return None,
        Some(v) => v,
    };
    let mut out: Vec<char> = Vec::new();
    let mut i: usize = 0;
    while i < start
        invariant
            0 <= i <= start < s.len(),
            out@ == s@.take(i as int),
        decreases start - i,
    {
        out.push(s[i]);
        assert(out@ =~= s@.take(i + 1));
        i = i + 1;
    }
    let mut j: usize = 0;
    while j < value.len()
        invariant
            0 <= j <= value.len(),
            out@ == s@.take(start as int) + value@.take(j as int),
        decreases value.len() - j,
    {
        out.push(value[j]);
        assert(out@ =~= s@.take(start as int) + value@.take(j + 1));
        j = j + 1;
    }
    assert(value@.take(value.len() as int) =~= value@);
    let mut m: usize = end + 1;
    while m < s.len()
        invariant
            end + 1 <= m <= s.len(),
            out@ == s@.take(start as int) + value@ + s@.subrange(end + 1, m as int),
        decreases s.len() - m,
    {
        out.push(s[m]);
        assert(out@ =~= s@.take(start as int) + value@ + s@.subrange(end + 1, m + 1));
        m = m + 1;
    }
    assert(s@.subrange(end + 1, s.len() as int) =~= s@.skip(end + 1));
    Some(out)
}

proof fn lemma_expand_agree(s: Seq<char>, vars: Seq<(Seq<char>, Seq<char>)>, n: nat, m: nat)
    requires
        expand_within(s, vars, n) is Some,
        expand_within(s, vars, m) is Some,
    ensures
        expand_within(s, vars, n) == expand_within(s, vars, m),
    decreases n,
{
    match expand_step(s, vars) {
        None => {},
        Some(next) => {
            lemma_expand_agree(next, vars, (n - 1) as nat, (m - 1) as nat);
        },
    }
}

/// Expansion, where it stops, leaves nothing it could still expand: its
/// result holds no `${...}` reference to a set variable ahead of the first
/// one that cannot be expanded, so expanding the result again gives it back
/// unchanged.
pub proof fn lemma_expansion_stable(s: Seq<char>, vars: Seq<(Seq<char>, Seq<char>)>, n: nat)
    requires
        expand_within(s, vars, n) is Some,
    ensures
        expand_step(expand_within(s, vars, n)->0, vars) is None,
        expand_within(expand_within(s, vars, n)->0, vars, 0) == expand_within(s, vars, n),
    decreases n,
{
    match expand_step(s, vars) {
        None => {},
        Some(next) => {
            lemma_expansion_stable(next, vars, (n - 1) as nat);
        },
    }
}

/// Expands `${NAME}` references from left to right with the values in
/// `vars` (name, value pairs; the first pair with a name gives its value):
/// each step replaces the first `${...}` reference; expansion stops at the
/// first `${` that has no closing `}` or names an unset variable. It must
/// stop after finitely many steps (a value that refers to itself never
/// stops).
pub fn resolve_env_vars(input: &str, vars: &Vec<(String, String)>) -> (r: String)
    requires
        exists|n: nat| (#[trigger] expand_within(input@, var_texts(vars@), n)) is Some,
    ensures
        forall|n: nat| (#[trigger] expand_within(input@, var_texts(vars@), n)) is Some ==> Some(r@)
            == expand_within(input@, var_texts(vars@), n),
{
    let ghost fuel: nat = choose|n: nat| (#[trigger] expand_within(input@, var_texts(vars@), n)) is Some;
    let mut cur = chars_of(input);
    let ghost mut left: nat = fuel;
    loop
        invariant
            expand_within(cur@, var_texts(vars@), left) == expand_within(input@, var_texts(vars@), fuel),
            expand_within(input@, var_texts(vars@), fuel) is Some,
        decreases left,
    {
        match expand_step_exec(&cur, vars) {
            None => {
                let r = text_from_chars(&cur);
                proof {
                    assert forall|n: nat| (#[trigger] expand_within(input@, var_texts(vars@), n)) is Some implies Some(r@)
                        == expand_within(input@, var_texts(vars@), n) by {
                        lemma_expand_agree(input@, var_texts(vars@), n, fuel);
                    }
                }
                return r;
            },
            Some(next) => {
                proof {
                    left = (left - 1) as nat;
                }
                cur = next;
            },
        }
    }
}

} // verus!
