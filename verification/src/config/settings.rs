//! The configuration model: provider entries, commit settings, prompts, and the
//! rules that pick, name, add and remove provider entries.
use vstd::prelude::*;

use crate::ai::protocol::ProtocolKind;
use crate::config::prompt::{default_prompts, DEFAULT_SYSTEM_PROMPT, DEFAULT_USER_PROMPT_TEMPLATE};
use crate::text::{
    chars_of, contains_seq, copy_str, is_blank, lemma_replace_absent,
    lemma_replace_present, replace, replace_seq, str_eq, trim, trim_seq,
};

verus! {

/// The view of an optional string.
pub open spec fn opt_view(o: Option<String>) -> Option<Seq<char>> {
    match o {
        Some(s) => Some(s@),
        None => None,
    }
}

/// The view of an optional string slice.
pub open spec fn opt_str_view(o: Option<&str>) -> Option<Seq<char>> {
    match o {
        Some(s) => Some(s@),
        None => None,
    }
}

/// The views of a list of strings.
pub open spec fn strings_view(v: Seq<String>) -> Seq<Seq<char>> {
    v.map_values(|s: String| s@)
}

/// A copy of an optional string.
pub fn copy_opt(o: &Option<String>) -> (r: Option<String>)
    ensures
        opt_view(r) == opt_view(*o),
{
    match o {
        Some(s) => Some(copy_str(s.as_str())),
        None => None,
    }
}

/// A copy of a list of strings.
pub fn copy_strings(v: &Vec<String>) -> (r: Vec<String>)
    ensures
        strings_view(r@) == strings_view(v@),
{
    let mut r: Vec<String> = Vec::new();
    let mut i: usize = 0;
    while i < v.len()
        invariant
            i <= v.len(),
            r@.len() == i,
            forall|k: int| 0 <= k < i ==> r@[k]@ == v@[k]@,
        decreases v.len() - i,
    {
        let s = copy_str(v[i].as_str());
        r.push(s);
        i = i + 1;
    }
    assert(strings_view(r@) =~= strings_view(v@));
    r
}

/// A sampling temperature, held as the IEEE-754 bit pattern of the `f64` that
/// the configuration file gives. The library carries it and never reads it.
#[derive(Clone, Copy, Debug, PartialEq, Eq, Structural)]
pub struct Temperature {
    pub bits: u64,
}

impl Temperature {
    /// The temperature whose `f64` bit pattern is `bits`.
    pub fn from_bits(bits: u64) -> (t: Temperature)
        ensures
            t.bits == bits,
    {
        Temperature { bits }
    }

    /// The `f64` bit pattern of this temperature.
    pub fn to_bits(&self) -> (b: u64)
        ensures
            b == self.bits,
    {
        self.bits
    }
}

/// One configured provider entry.
#[derive(Debug)]
pub struct ApiConfig {
    /// User-defined identifier for this provider entry (e.g. "work", "local").
    pub name: Option<String>,
    /// Name of a built-in provider, if any.
    pub provider: Option<String>,
    pub endpoint: Option<String>,
    pub model: String,
    pub api_key: Option<String>,
    pub max_tokens: Option<usize>,
    pub temperature: Option<Temperature>,
    pub protocol: Option<ProtocolKind>,
}

/// The mathematical value of an [`ApiConfig`].
pub struct ApiConfigView {
    pub name: Option<Seq<char>>,
    pub provider: Option<Seq<char>>,
    pub endpoint: Option<Seq<char>>,
    pub model: Seq<char>,
    pub api_key: Option<Seq<char>>,
    pub max_tokens: Option<usize>,
    pub temperature: Option<Temperature>,
    pub protocol: Option<ProtocolKind>,
}

impl View for ApiConfig {
    type V = ApiConfigView;

    open spec fn view(&self) -> ApiConfigView {
        ApiConfigView {
            name: opt_view(self.name),
            provider: opt_view(self.provider),
            endpoint: opt_view(self.endpoint),
            model: self.model@,
            api_key: opt_view(self.api_key),
            max_tokens: self.max_tokens,
            temperature: self.temperature,
            protocol: self.protocol,
        }
    }
}

/// The identifier of an entry: its trimmed name when that is not blank, else
/// its built-in provider's name, else "default".
pub open spec fn spec_entry_name(c: ApiConfigView) -> Seq<char> {
    if c.name is Some && trim_seq(c.name->0).len() > 0 {
        trim_seq(c.name->0)
    } else if c.provider is Some {
        c.provider->0
    } else {
        "default"@
    }
}

/// The entry with its name filled in from [`spec_entry_name`] when it had none.
pub open spec fn spec_named(c: ApiConfigView) -> ApiConfigView {
    if c.name is None {
        ApiConfigView { name: Some(spec_entry_name(c)), ..c }
    } else {
        c
    }
}

impl ApiConfig {
    /// A stable identifier for this entry, falling back to the built-in provider
    /// name and finally to "default" when nothing is set.
    pub fn entry_name(&self) -> (r: String)
        ensures
            r@ == spec_entry_name(self@),
    {
        if let Some(name) = &self.name {
            if !is_blank(name.as_str()) {
                return trim(name.as_str());
            }
        }
        match &self.provider {
            Some(p) => copy_str(p.as_str()),
            None => {
                let d = "default";
                copy_str(d)
            },
        }
    }

    /// A copy of this entry.
    pub fn duplicate(&self) -> (r: ApiConfig)
        ensures
            r@ == self@,
    {
        ApiConfig {
            name: copy_opt(&self.name),
            provider: copy_opt(&self.provider),
            endpoint: copy_opt(&self.endpoint),
            model: copy_str(self.model.as_str()),
            api_key: copy_opt(&self.api_key),
            max_tokens: self.max_tokens,
            temperature: self.temperature,
            protocol: self.protocol,
        }
    }

    /// A copy of this entry with its name filled in when it had none.
    pub fn named(&self) -> (r: ApiConfig)
        ensures
            r@ == spec_named(self@),
    {
        let mut r = self.duplicate();
        if r.name.is_none() {
            r.name = Some(self.entry_name());
        }
        r
    }
}

/// Commit behaviour settings.
#[derive(Debug)]
pub struct CommitConfig {
    pub auto_confirm: bool,
    pub dry_run_by_default: bool,
    pub gpg_sign: Option<bool>,
    pub ignore_lock_files: bool,
    pub custom_ignore_patterns: Vec<String>,
    pub cache_expiry_days: u64,
}

/// The mathematical value of a [`CommitConfig`].
pub struct CommitConfigView {
    pub auto_confirm: bool,
    pub dry_run_by_default: bool,
    pub gpg_sign: Option<bool>,
    pub ignore_lock_files: bool,
    pub custom_ignore_patterns: Seq<Seq<char>>,
    pub cache_expiry_days: u64,
}

impl View for CommitConfig {
    type V = CommitConfigView;

    open spec fn view(&self) -> CommitConfigView {
        CommitConfigView {
            auto_confirm: self.auto_confirm,
            dry_run_by_default: self.dry_run_by_default,
            gpg_sign: self.gpg_sign,
            ignore_lock_files: self.ignore_lock_files,
            custom_ignore_patterns: strings_view(self.custom_ignore_patterns@),
            cache_expiry_days: self.cache_expiry_days,
        }
    }
}

impl CommitConfig {
    /// A copy of these settings.
    pub fn duplicate(&self) -> (r: CommitConfig)
        ensures
            r@ == self@,
    {
        CommitConfig {
            auto_confirm: self.auto_confirm,
            dry_run_by_default: self.dry_run_by_default,
            gpg_sign: self.gpg_sign,
            ignore_lock_files: self.ignore_lock_files,
            custom_ignore_patterns: copy_strings(&self.custom_ignore_patterns),
            cache_expiry_days: self.cache_expiry_days,
        }
    }
}

/// The prompts sent to the model.
#[derive(Debug)]
pub struct PromptConfig {
    pub system_prompt: String,
    pub user_prompt_template: String,
}

/// The mathematical value of a [`PromptConfig`].
pub struct PromptConfigView {
    pub system_prompt: Seq<char>,
    pub user_prompt_template: Seq<char>,
}

impl View for PromptConfig {
    type V = PromptConfigView;

    open spec fn view(&self) -> PromptConfigView {
        PromptConfigView {
            system_prompt: self.system_prompt@,
            user_prompt_template: self.user_prompt_template@,
        }
    }
}

impl PromptConfig {
    /// A copy of these prompts.
    pub fn duplicate(&self) -> (r: PromptConfig)
        ensures
            r@ == self@,
    {
        PromptConfig {
            system_prompt: copy_str(self.system_prompt.as_str()),
            user_prompt_template: copy_str(self.user_prompt_template.as_str()),
        }
    }
}

/// The whole configuration.
#[derive(Debug)]
pub struct AppConfig {
    /// Name of the provider entry to use by default. References `ApiConfig::name`.
    pub default_provider: Option<String>,
    /// List of configured providers.
    pub providers: Vec<ApiConfig>,
    /// Legacy single-provider section, migrated into `providers` by [`AppConfig::normalize`].
    pub api: Option<ApiConfig>,
    pub commit: CommitConfig,
    pub prompts: PromptConfig,
}

/// The mathematical value of an [`AppConfig`].
pub struct AppConfigView {
    pub default_provider: Option<Seq<char>>,
    pub providers: Seq<ApiConfigView>,
    pub api: Option<ApiConfigView>,
    pub commit: CommitConfigView,
    pub prompts: PromptConfigView,
}

/// The views of a list of provider entries.
pub open spec fn entries_view(v: Seq<ApiConfig>) -> Seq<ApiConfigView> {
    v.map_values(|c: ApiConfig| c@)
}

impl View for AppConfig {
    type V = AppConfigView;

    open spec fn view(&self) -> AppConfigView {
        AppConfigView {
            default_provider: opt_view(self.default_provider),
            providers: entries_view(self.providers@),
            api: match self.api {
                Some(a) => Some(a@),
                None => None,
            },
            commit: self.commit@,
            prompts: self.prompts@,
        }
    }
}

/// The entry identifiers of a list of entries, in order.
pub open spec fn spec_provider_names(ps: Seq<ApiConfigView>) -> Seq<Seq<char>> {
    ps.map_values(|p: ApiConfigView| spec_entry_name(p))
}

/// The first index at or after `i` whose entry is identified by `target`.
pub open spec fn find_from(ps: Seq<ApiConfigView>, target: Seq<char>, i: int) -> Option<int>
    decreases ps.len() - i,
{
    if i < 0 || i >= ps.len() {
        None
    } else if spec_entry_name(ps[i]) == target {
        Some(i)
    } else {
        find_from(ps, target, i + 1)
    }
}

/// The index of the entry that a lookup by `name` finds: the first one whose
/// identifier equals the trimmed name.
pub open spec fn spec_find_index(ps: Seq<ApiConfigView>, name: Seq<char>) -> Option<int> {
    find_from(ps, trim_seq(name), 0)
}

/// An override name counts when it is present and not blank.
pub open spec fn override_requested(o: Option<Seq<char>>) -> bool {
    o is Some && trim_seq(o->0).len() > 0
}

/// The index that the default provider selects: the entry named by
/// `default_provider` when it exists, else the first entry.
pub open spec fn spec_default_index(c: AppConfigView) -> int {
    match c.default_provider {
        Some(d) => match spec_find_index(c.providers, d) {
            Some(i) => i,
            None => 0,
        },
        None => 0,
    }
}

/// The provider entries after migration: the legacy entry when the list was
/// empty, and every entry named.
pub open spec fn spec_normalized_providers(c: AppConfigView) -> Seq<ApiConfigView> {
    let base = if c.api is Some && c.providers.len() == 0 {
        seq![c.api->0]
    } else {
        c.providers
    };
    base.map_values(|p: ApiConfigView| spec_named(p))
}

/// What [`AppConfig::normalize`] makes of a configuration.
pub open spec fn spec_normalize(c: AppConfigView) -> AppConfigView {
    let ps = spec_normalized_providers(c);
    AppConfigView {
        default_provider: if c.default_provider is Some {
            c.default_provider
        } else if ps.len() > 0 {
            ps[0].name
        } else {
            None
        },
        providers: ps,
        api: None,
        ..c
    }
}

/// What [`normalize_newlines`] returns: CRLF becomes LF, then every CR left is dropped.
pub open spec fn spec_normalize_newlines(s: Seq<char>) -> Seq<char> {
    replace_seq(replace_seq(s, "\r\n"@, "\n"@), "\r"@, ""@)
}

/// Errors in choosing or editing provider entries.
#[derive(Debug)]
pub enum ConfigError {
    /// The configuration lists no provider.
    NoProviders,
    /// No entry carries the requested name; `available` lists the entry names.
    ProviderNotFound { name: String, available: Vec<String> },
}

proof fn lemma_find_from_found(ps: Seq<ApiConfigView>, target: Seq<char>, i: int)
    requires
        0 <= i,
    ensures
        find_from(ps, target, i) matches Some(k) ==> i <= k < ps.len() && spec_entry_name(ps[k])
            == target && forall|m: int| i <= m < k ==> spec_entry_name(ps[m]) != target,
        find_from(ps, target, i) is None ==> forall|m: int|
            i <= m < ps.len() ==> spec_entry_name(ps[m]) != target,
    decreases ps.len() - i,
{
    if i < ps.len() {
        lemma_find_from_found(ps, target, i + 1);
    }
}

/// What a lookup by name finds: an entry with that identifier, and the first one.
pub proof fn lemma_find_index(ps: Seq<ApiConfigView>, name: Seq<char>)
    ensures
        spec_find_index(ps, name) matches Some(k) ==> 0 <= k < ps.len() && spec_entry_name(ps[k])
            == trim_seq(name) && forall|m: int| 0 <= m < k ==> spec_entry_name(ps[m]) != trim_seq(
            name),
        spec_find_index(ps, name) is None ==> forall|m: int|
            0 <= m < ps.len() ==> spec_entry_name(ps[m]) != trim_seq(name),
{
    lemma_find_from_found(ps, trim_seq(name), 0);
}

impl AppConfig {
    /// Migrate a legacy single `[api]` section into the `providers` list and
    /// ensure every entry has a usable name.
    pub fn normalize(&mut self)
        ensures
            final(self)@ == spec_normalize(old(self)@),
    {
        let ghost c = self@;
        let legacy = self.api.take();
        let mut base: Vec<ApiConfig> = Vec::new();
        let mut i: usize = 0;
        while i < self.providers.len()
            invariant
                i <= self.providers.len(),
                self@.providers == c.providers,
                base@.len() == i,
                forall|k: int| 0 <= k < i ==> base@[k]@ == self.providers@[k]@,
            decreases self.providers.len() - i,
        {
            base.push(self.providers[i].duplicate());
            i = i + 1;
        }
        assert(entries_view(base@) =~= c.providers);
        if let Some(api) = legacy {
            if base.len() == 0 {
                base.push(api);
                assert(entries_view(base@) =~= seq![c.api->0]);
            }
        }
        let ghost base_view = entries_view(base@);
        assert(spec_normalized_providers(c) =~= base_view.map_values(
            |p: ApiConfigView| spec_named(p),
        ));
        let mut named: Vec<ApiConfig> = Vec::new();
        let mut j: usize = 0;
        while j < base.len()
            invariant
                j <= base.len(),
                base_view == entries_view(base@),
                named@.len() == j,
                forall|k: int| 0 <= k < j ==> named@[k]@ == spec_named(base@[k]@),
            decreases base.len() - j,
        {
            named.push(base[j].named());
            j = j + 1;
        }
        assert(entries_view(named@) =~= spec_normalized_providers(c));
        if self.default_provider.is_none() && named.len() > 0 {
            self.default_provider = copy_opt(&named[0].name);
        }
        self.providers = named;
    }

    /// The index of the entry identified by `name` (after trimming), if any.
    pub fn find_provider_index(&self, name: &str) -> (r: Option<usize>)
        ensures
            match r {
                Some(i) => spec_find_index(self@.providers, name@) == Some(i as int),
                None => spec_find_index(self@.providers, name@) is None,
            },
    {
        let target = trim(name);
        let ghost ps = self@.providers;
        let mut i: usize = 0;
        while i < self.providers.len()
            invariant
                i <= self.providers.len(),
                ps == entries_view(self.providers@),
                target@ == trim_seq(name@),
                find_from(ps, target@, 0) == find_from(ps, target@, i as int),
            decreases self.providers.len() - i,
        {
            let n = self.providers[i].entry_name();
            if str_eq(n.as_str(), target.as_str()) {
                return Some(i);
            }
            i = i + 1;
        }
        None
    }

    /// The entry identified by `name` (after trimming), if any: the first such entry.
    pub fn find_provider(&self, name: &str) -> (r: Option<&ApiConfig>)
        ensures
            match spec_find_index(self@.providers, name@) {
                Some(k) => r matches Some(p) && p@ == self@.providers[k],
                None => r is None,
            },
    {
        proof {
            lemma_find_index(self@.providers, name@);
        }
        match self.find_provider_index(name) {
            Some(i) => {
                assert(self@.providers[i as int] == self.providers@[i as int]@);
                Some(&self.providers[i])
            },
            None => None,
        }
    }

    /// The identifiers of all entries, in order.
    pub fn provider_names(&self) -> (r: Vec<String>)
        ensures
            strings_view(r@) == spec_provider_names(self@.providers),
    {
        let ghost ps = self@.providers;
        let mut r: Vec<String> = Vec::new();
        let mut i: usize = 0;
        while i < self.providers.len()
            invariant
                i <= self.providers.len(),
                ps == entries_view(self.providers@),
                r@.len() == i,
                forall|k: int| 0 <= k < i ==> r@[k]@ == spec_entry_name(ps[k]),
            decreases self.providers.len() - i,
        {
            r.push(self.providers[i].entry_name());
            i = i + 1;
        }
        assert(strings_view(r@) =~= spec_provider_names(ps));
        r
    }

    /// Resolve the provider to use, preferring an explicit override, then the
    /// configured default, then the first entry.
    pub fn active_provider(&self, override_name: Option<&str>) -> (r: Result<&ApiConfig, ConfigError>)
        ensures
            self@.providers.len() == 0 ==> r matches Err(ConfigError::NoProviders),
            self@.providers.len() > 0 && override_requested(opt_str_view(override_name)) ==> match
                spec_find_index(self@.providers, opt_str_view(override_name)->0) {
                Some(k) => r matches Ok(p) && p@ == self@.providers[k],
                None => r matches Err(ConfigError::ProviderNotFound { name, available }) && name@
                    == trim_seq(opt_str_view(override_name)->0) && strings_view(available@)
                    == spec_provider_names(self@.providers),
            },
            self@.providers.len() > 0 && !override_requested(opt_str_view(override_name)) ==> (r matches Ok(p)
                && p@ == self@.providers[spec_default_index(self@)]),
    {
        if self.providers.len() == 0 {
            return Err(ConfigError::NoProviders);
        }
        proof {
            lemma_find_index(self@.providers, opt_str_view(override_name)->0);
        }
        if let Some(name) = override_name {
            if !is_blank(name) {
                return match self.find_provider_index(name) {
                    Some(i) => Ok(&self.providers[i]),
                    None => Err(
                        ConfigError::ProviderNotFound {
                            name: trim(name),
                            available: self.provider_names(),
                        },
                    ),
                };
            }
        }
        if let Some(default) = &self.default_provider {
            proof {
                lemma_find_index(self@.providers, default@);
            }
            if let Some(i) = self.find_provider_index(default.as_str()) {
                return Ok(&self.providers[i]);
            }
        }
        Ok(&self.providers[0])
    }

    /// The user prompt for a diff: the template with every `{diff}` replaced by the diff.
    pub fn generate_user_prompt(&self, diff: &str) -> (r: String)
        ensures
            r@ == replace_seq(self@.prompts.user_prompt_template, "{diff}"@, diff@),
    {
        let placeholder = "{diff}";
        proof {
            reveal_strlit("{diff}");
        }
        replace(self.prompts.user_prompt_template.as_str(), placeholder, diff)
    }
}

/// The entries of `ps` not identified by `name`, in order.
pub open spec fn entries_except(ps: Seq<ApiConfigView>, name: Seq<char>) -> Seq<ApiConfigView>
    decreases ps.len(),
{
    if ps.len() == 0 {
        ps
    } else if spec_entry_name(ps[0]) != name {
        seq![ps[0]] + entries_except(ps.drop_first(), name)
    } else {
        entries_except(ps.drop_first(), name)
    }
}

/// What removing the entries named `name` makes of a configuration: the
/// entries go, and a default that named them moves to the first entry left.
pub open spec fn spec_remove(c: AppConfigView, name: Seq<char>) -> AppConfigView {
    let ps = entries_except(c.providers, name);
    AppConfigView {
        providers: ps,
        default_provider: if c.default_provider == Some(name) {
            if ps.len() > 0 {
                Some(spec_entry_name(ps[0]))
            } else {
                None
            }
        } else {
            c.default_provider
        },
        ..c
    }
}

/// What adding an entry makes of a configuration.
pub open spec fn spec_add(c: AppConfigView, e: ApiConfigView, make_default: bool) -> AppConfigView {
    AppConfigView {
        providers: c.providers.push(e),
        default_provider: if make_default {
            Some(spec_entry_name(e))
        } else {
            c.default_provider
        },
        ..c
    }
}

/// What a fresh setup with one entry makes of a configuration.
pub open spec fn spec_init_with(c: AppConfigView, e: ApiConfigView) -> AppConfigView {
    AppConfigView { providers: seq![e], default_provider: Some(spec_entry_name(e)), ..c }
}

/// The entry that a model probe uses: the entry, with a placeholder model when its model is blank.
pub open spec fn spec_probe_entry(e: ApiConfigView) -> ApiConfigView {
    if trim_seq(e.model).len() == 0 {
        ApiConfigView { model: "_"@, ..e }
    } else {
        e
    }
}

/// The configuration that a model probe uses: the base configuration with the
/// probe entry as its only, default, entry.
pub open spec fn spec_probe(c: AppConfigView, e: ApiConfigView) -> AppConfigView {
    AppConfigView { providers: seq![spec_probe_entry(e)], default_provider: e.name, ..c }
}

/// The limits that a new entry takes over from the first configured entry.
pub open spec fn spec_first_max_tokens(c: AppConfigView) -> Option<usize> {
    if c.providers.len() > 0 && c.providers[0].max_tokens is Some {
        c.providers[0].max_tokens
    } else {
        Some(1000)
    }
}

/// The temperature that a new entry takes over from the first configured
/// entry, else 0.7.
pub open spec fn spec_first_temperature(c: AppConfigView) -> Option<Temperature> {
    if c.providers.len() > 0 && c.providers[0].temperature is Some {
        c.providers[0].temperature
    } else {
        Some(Temperature { bits: DEFAULT_TEMPERATURE_BITS })
    }
}

/// The entries that `entries_except` keeps are exactly those not named `name`,
/// and it drops at least one entry exactly when some entry is named `name`.
pub proof fn lemma_entries_except(ps: Seq<ApiConfigView>, name: Seq<char>)
    ensures
        forall|i: int|
            0 <= i < entries_except(ps, name).len() ==> spec_entry_name(
                #[trigger] entries_except(ps, name)[i],
            ) != name,
        entries_except(ps, name).len() <= ps.len(),
        (entries_except(ps, name).len() < ps.len()) <==> (exists|i: int|
            0 <= i < ps.len() && spec_entry_name(#[trigger] ps[i]) == name),
    decreases ps.len(),
{
    if ps.len() > 0 {
        let rest = entries_except(ps.drop_first(), name);
        lemma_entries_except(ps.drop_first(), name);
        if spec_entry_name(ps[0]) != name {
            assert forall|i: int|
                0 <= i < entries_except(ps, name).len() implies spec_entry_name(
                #[trigger] entries_except(ps, name)[i],
            ) != name by {
                if i > 0 {
                    assert(entries_except(ps, name)[i] == rest[i - 1]);
                }
            }
            if exists|i: int| 0 <= i < ps.len() && spec_entry_name(#[trigger] ps[i]) == name {
                let i = choose|i: int| 0 <= i < ps.len() && spec_entry_name(#[trigger] ps[i]) == name;
                assert(ps.drop_first()[i - 1] == ps[i]);
            }
            if exists|i: int|
                0 <= i < ps.drop_first().len() && spec_entry_name(#[trigger] ps.drop_first()[i])
                    == name {
                let i = choose|i: int|
                    0 <= i < ps.drop_first().len() && spec_entry_name(#[trigger] ps.drop_first()[i])
                        == name;
                assert(ps[i + 1] == ps.drop_first()[i]);
            }
        } else {
            assert(spec_entry_name(ps[0]) == name);
        }
    }
}

proof fn lemma_entries_except_concat(a: Seq<ApiConfigView>, b: Seq<ApiConfigView>, name: Seq<char>)
    ensures
        entries_except(a + b, name) == entries_except(a, name) + entries_except(b, name),
    decreases a.len(),
{
    if a.len() == 0 {
        assert(a + b =~= b);
        assert(entries_except(a, name) + entries_except(b, name) =~= entries_except(b, name));
    } else {
        assert((a + b).drop_first() =~= a.drop_first() + b);
        lemma_entries_except_concat(a.drop_first(), b, name);
        if spec_entry_name(a[0]) != name {
            assert(seq![a[0]] + (entries_except(a.drop_first(), name) + entries_except(b, name))
                =~= (seq![a[0]] + entries_except(a.drop_first(), name)) + entries_except(b, name));
        }
    }
}

impl AppConfig {
    /// A copy of this configuration.
    pub fn duplicate(&self) -> (r: AppConfig)
        ensures
            r@ == self@,
    {
        let mut providers: Vec<ApiConfig> = Vec::new();
        let mut i: usize = 0;
        while i < self.providers.len()
            invariant
                i <= self.providers.len(),
                providers@.len() == i,
                forall|k: int| 0 <= k < i ==> providers@[k]@ == self.providers@[k]@,
            decreases self.providers.len() - i,
        {
            providers.push(self.providers[i].duplicate());
            i = i + 1;
        }
        assert(entries_view(providers@) =~= entries_view(self.providers@));
        AppConfig {
            default_provider: copy_opt(&self.default_provider),
            providers,
            api: match &self.api {
                Some(a) => Some(a.duplicate()),
                None => None,
            },
            commit: self.commit.duplicate(),
            prompts: self.prompts.duplicate(),
        }
    }

    /// Make the entry identified by `name` the default. When no entry carries
    /// that name the configuration is left as it was and the error lists the
    /// entry names.
    pub fn set_default_provider(&mut self, name: &str) -> (r: Result<(), ConfigError>)
        ensures
            spec_find_index(old(self)@.providers, name@) is Some ==> r is Ok && final(self)@ == (AppConfigView {
                default_provider: Some(name@),
                ..old(self)@
            }),
            spec_find_index(old(self)@.providers, name@) is None ==> final(self)@ == old(self)@ && (
            r matches Err(ConfigError::ProviderNotFound { name: n, available }) && n@ == name@
                && strings_view(available@) == spec_provider_names(old(self)@.providers)),
    {
        if self.find_provider_index(name).is_none() {
            return Err(
                ConfigError::ProviderNotFound {
                    name: copy_str(name),
                    available: self.provider_names(),
                },
            );
        }
        self.default_provider = Some(copy_str(name));
        Ok(())
    }

    /// Remove every entry identified by `name`; a default that named them
    /// moves to the first entry left. When no entry carries that name the
    /// configuration is left as it was and the error lists the entry names.
    pub fn remove_provider_entry(&mut self, name: &str) -> (r: Result<(), ConfigError>)
        ensures
            entries_except(old(self)@.providers, name@).len() < old(self)@.providers.len() ==> r is Ok
                && final(self)@ == spec_remove(old(self)@, name@),
            entries_except(old(self)@.providers, name@).len() == old(self)@.providers.len() ==> final(self)@
                == old(self)@ && (r matches Err(ConfigError::ProviderNotFound { name: n, available })
                && n@ == name@ && strings_view(available@) == spec_provider_names(
                old(self)@.providers,
            )),
    {
        let ghost c = self@;
        let ghost ps = c.providers;
        proof {
            lemma_entries_except(ps, name@);
        }
        let mut kept: Vec<ApiConfig> = Vec::new();
        let mut i: usize = 0;
        while i < self.providers.len()
            invariant
                i <= self.providers.len(),
                self@ == c,
                ps == entries_view(self.providers@),
                entries_view(kept@) == entries_except(ps.take(i as int), name@),
            decreases self.providers.len() - i,
        {
            let n = self.providers[i].entry_name();
            let ghost before = kept@;
            proof {
                assert(ps.take(i + 1) =~= ps.take(i as int) + seq![ps[i as int]]);
                lemma_entries_except_concat(ps.take(i as int), seq![ps[i as int]], name@);
                assert(seq![ps[i as int]].drop_first() =~= Seq::<ApiConfigView>::empty());
                assert(entries_except(Seq::<ApiConfigView>::empty(), name@) =~= Seq::<
                    ApiConfigView,
                >::empty());
            }
            if !str_eq(n.as_str(), name) {
                kept.push(self.providers[i].duplicate());
                assert(entries_view(kept@) =~= entries_view(before) + seq![ps[i as int]]);
            } else {
                assert(entries_view(kept@) =~= entries_view(before) + Seq::<ApiConfigView>::empty());
            }
            i = i + 1;
        }
        assert(ps.take(i as int) =~= ps);
        if kept.len() == self.providers.len() {
            return Err(
                ConfigError::ProviderNotFound {
                    name: copy_str(name),
                    available: self.provider_names(),
                },
            );
        }
        let was_default = match &self.default_provider {
            Some(d) => str_eq(d.as_str(), name),
            None => false,
        };
        if was_default {
            self.default_provider = if kept.len() > 0 {
                Some(kept[0].entry_name())
            } else {
                None
            };
        }
        self.providers = kept;
        Ok(())
    }

    /// Append an entry, and make it the default when `make_default` holds.
    pub fn add_provider_entry(&mut self, entry: ApiConfig, make_default: bool)
        ensures
            final(self)@ == spec_add(old(self)@, entry@, make_default),
    {
        if make_default {
            self.default_provider = Some(entry.entry_name());
        }
        let ghost before = self@.providers;
        self.providers.push(entry);
        assert(self@.providers =~= before.push(entry@));
    }

    /// Start over with `entry` as the only, default, entry.
    pub fn init_with_entry(&mut self, entry: ApiConfig)
        ensures
            final(self)@ == spec_init_with(old(self)@, entry@),
    {
        self.providers.clear();
        self.default_provider = Some(entry.entry_name());
        self.providers.push(entry);
        assert(self@.providers =~= seq![entry@]);
    }

    /// A new entry for a built-in provider, with the limits of the first
    /// configured entry (or 1000 tokens and temperature 0.7) and no model yet.
    pub fn new_provider_entry(
        &self,
        entry_name: &str,
        provider_name: &str,
        api_key: String,
    ) -> (r: ApiConfig)
        ensures
            r@ == (ApiConfigView {
                name: Some(trim_seq(entry_name@)),
                provider: Some(provider_name@),
                endpoint: None,
                model: Seq::empty(),
                api_key: if api_key@.len() == 0 {
                    None
                } else {
                    Some(api_key@)
                },
                max_tokens: spec_first_max_tokens(self@),
                temperature: spec_first_temperature(self@),
                protocol: None,
            }),
    {
        let key_chars = chars_of(api_key.as_str());
        let max_tokens = if self.providers.len() > 0 && self.providers[0].max_tokens.is_some() {
            self.providers[0].max_tokens
        } else {
            Some(1000)
        };
        let temperature = if self.providers.len() > 0 && self.providers[0].temperature.is_some() {
            self.providers[0].temperature
        } else {
            Some(Temperature { bits: DEFAULT_TEMPERATURE_BITS })
        };
        ApiConfig {
            name: Some(trim(entry_name)),
            provider: Some(copy_str(provider_name)),
            endpoint: None,
            model: String::new(),
            api_key: if key_chars.len() == 0 {
                None
            } else {
                Some(api_key)
            },
            max_tokens,
            temperature,
            protocol: None,
        }
    }

    /// The configuration used to list the models available to `entry`.
    pub fn probe_config(&self, entry: &ApiConfig) -> (r: AppConfig)
        ensures
            r@ == spec_probe(self@, entry@),
    {
        let mut probe = self.duplicate();
        let mut probe_entry = entry.duplicate();
        if is_blank(probe_entry.model.as_str()) {
            probe_entry.model = copy_str("_");
        }
        probe.providers = vec![probe_entry];
        probe.default_provider = copy_opt(&entry.name);
        assert(probe@.providers =~= seq![spec_probe_entry(entry@)]);
        probe
    }
}

/// The legacy entry of a fresh configuration.
pub open spec fn spec_default_entry() -> ApiConfigView {
    ApiConfigView {
        name: None,
        provider: None,
        endpoint: Some("https://ark.cn-beijing.volces.com/api/v3/chat/completions"@),
        model: "doubao-1-5-pro-32k-250115"@,
        api_key: None,
        max_tokens: Some(1000),
        temperature: Some(Temperature { bits: DEFAULT_TEMPERATURE_BITS }),
        protocol: None,
    }
}

/// A fresh configuration as written, before migration.
pub open spec fn spec_default_config() -> AppConfigView {
    AppConfigView {
        default_provider: None,
        providers: Seq::empty(),
        api: Some(spec_default_entry()),
        commit: CommitConfigView {
            auto_confirm: false,
            dry_run_by_default: false,
            gpg_sign: None,
            ignore_lock_files: true,
            custom_ignore_patterns: Seq::empty(),
            cache_expiry_days: 7,
        },
        prompts: PromptConfigView {
            system_prompt: spec_normalize_newlines(DEFAULT_SYSTEM_PROMPT@),
            user_prompt_template: spec_normalize_newlines(DEFAULT_USER_PROMPT_TEMPLATE@),
        },
    }
}

/// The bit pattern of the `f64` 0.7, the default sampling temperature.
pub const DEFAULT_TEMPERATURE_BITS: u64 = 0x3FE6666666666666u64;

impl Default for AppConfig {
    /// A fresh configuration: one legacy entry for the default endpoint and
    /// model, migrated into the provider list, the default commit settings,
    /// and the default prompts without carriage returns.
    fn default() -> (r: AppConfig)
        ensures
            r@ == spec_normalize(spec_default_config()),
    {
        let prompts = default_prompts();
        let api = ApiConfig {
            name: None,
            provider: None,
            endpoint: Some(copy_str("https://ark.cn-beijing.volces.com/api/v3/chat/completions")),
            model: copy_str("doubao-1-5-pro-32k-250115"),
            api_key: None,
            max_tokens: Some(1000),
            temperature: Some(Temperature { bits: DEFAULT_TEMPERATURE_BITS }),
            protocol: None,
        };
        let mut config = AppConfig {
            default_provider: None,
            providers: Vec::new(),
            api: Some(api),
            commit: CommitConfig {
                auto_confirm: false,
                dry_run_by_default: false,
                gpg_sign: None,
                ignore_lock_files: true,
                custom_ignore_patterns: Vec::new(),
                cache_expiry_days: 7,
            },
            prompts,
        };
        assert(config@.providers =~= Seq::<ApiConfigView>::empty());
        assert(config@.commit.custom_ignore_patterns =~= Seq::<Seq<char>>::empty());
        assert(config@ == spec_default_config());
        config.normalize();
        config
    }
}

/// Remove carriage returns: CRLF becomes LF, and any CR left is dropped.
pub fn normalize_newlines(s: &str) -> (r: String)
    ensures
        r@ == spec_normalize_newlines(s@),
{
    proof {
        reveal_strlit("\r\n");
        reveal_strlit("\r");
    }
    let once = replace(s, "\r\n", "\n");
    replace(once.as_str(), "\r", "")
}

} // verus!

verus! {

/// After migration the legacy section is gone, every entry has a name, and a
/// default is set whenever there is an entry.
pub proof fn lemma_normalize_shape(c: AppConfigView)
    ensures
        spec_normalize(c).api is None,
        forall|i: int|
            0 <= i < spec_normalize(c).providers.len() ==> (#[trigger] spec_normalize(
                c,
            ).providers[i]).name is Some,
        spec_normalize(c).providers.len() > 0 ==> spec_normalize(c).default_provider is Some,
        c.providers.len() > 0 ==> spec_normalize(c).providers.len() == c.providers.len(),
        c.providers.len() == 0 && c.api is Some ==> spec_normalize(c).providers.len() == 1,
{
}

/// Migrating twice is migrating once.
pub proof fn lemma_normalize_idempotent(c: AppConfigView)
    ensures
        spec_normalize(spec_normalize(c)) == spec_normalize(c),
{
    let n = spec_normalize(c);
    lemma_normalize_shape(c);
    assert(spec_normalized_providers(n) =~= n.providers);
    assert(spec_normalize(n) =~= n);
}

/// After an entry becomes the default, the active entry without an override
/// is the entry that a lookup by that name finds.
pub proof fn lemma_set_default_then_active(c: AppConfigView, name: Seq<char>)
    requires
        spec_find_index(c.providers, name) is Some,
    ensures
        spec_default_index(AppConfigView { default_provider: Some(name), ..c }) == spec_find_index(
            c.providers,
            name,
        )->0,
{
}

/// After removing the entries named `name`, none is left, all others stay in
/// order, and a default that named them now names the first entry left.
pub proof fn lemma_remove_effect(c: AppConfigView, name: Seq<char>)
    ensures
        forall|i: int|
            0 <= i < spec_remove(c, name).providers.len() ==> spec_entry_name(
                #[trigger] spec_remove(c, name).providers[i],
            ) != name,
        c.default_provider == Some(name) && spec_remove(c, name).providers.len() > 0
            ==> spec_remove(c, name).default_provider == Some(
            spec_entry_name(spec_remove(c, name).providers[0]),
        ),
        c.default_provider == Some(name) && spec_remove(c, name).providers.len() == 0
            ==> spec_remove(c, name).default_provider is None,
        c.default_provider != Some(name) ==> spec_remove(c, name).default_provider
            == c.default_provider,
{
    lemma_entries_except(c.providers, name);
}

proof fn lemma_entries_except_none(ps: Seq<ApiConfigView>, name: Seq<char>)
    requires
        forall|i: int| 0 <= i < ps.len() ==> spec_entry_name(#[trigger] ps[i]) != name,
    ensures
        entries_except(ps, name) == ps,
    decreases ps.len(),
{
    if ps.len() > 0 {
        assert forall|i: int| 0 <= i < ps.drop_first().len() implies spec_entry_name(
            #[trigger] ps.drop_first()[i],
        ) != name by {
            assert(ps.drop_first()[i] == ps[i + 1]);
        }
        lemma_entries_except_none(ps.drop_first(), name);
        assert(spec_entry_name(ps[0]) != name);
        assert(seq![ps[0]] + ps.drop_first() =~= ps);
    }
}

/// Removing an entry just added, under a name that no other entry carries,
/// gives back the entries as they were; the default too, unless adding made
/// the new entry the default or the default already named it.
pub proof fn lemma_add_then_remove(c: AppConfigView, e: ApiConfigView, make_default: bool)
    requires
        forall|i: int|
            0 <= i < c.providers.len() ==> spec_entry_name(#[trigger] c.providers[i])
                != spec_entry_name(e),
    ensures
        spec_remove(spec_add(c, e, make_default), spec_entry_name(e)).providers == c.providers,
        !make_default && c.default_provider != Some(spec_entry_name(e)) ==> spec_remove(
            spec_add(c, e, make_default),
            spec_entry_name(e),
        ).default_provider == c.default_provider,
{
    let n = spec_entry_name(e);
    lemma_entries_except_none(c.providers, n);
    assert(c.providers.push(e) =~= c.providers + seq![e]);
    lemma_entries_except_concat(c.providers, seq![e], n);
    assert(seq![e].drop_first() =~= Seq::<ApiConfigView>::empty());
    assert(seq![e][0] == e);
    assert(entries_except(Seq::<ApiConfigView>::empty(), n) =~= Seq::<ApiConfigView>::empty());
    assert(entries_except(seq![e], n) =~= Seq::<ApiConfigView>::empty());
    assert(c.providers + Seq::<ApiConfigView>::empty() =~= c.providers);
}

/// A template without the `{diff}` placeholder is sent as it is; with it,
/// the prompt holds the diff.
pub proof fn lemma_user_prompt(template: Seq<char>, diff: Seq<char>)
    ensures
        !contains_seq(template, "{diff}"@) ==> replace_seq(template, "{diff}"@, diff) == template,
        contains_seq(template, "{diff}"@) ==> contains_seq(replace_seq(template, "{diff}"@, diff), diff),
{
    reveal_strlit("{diff}");
    if contains_seq(template, "{diff}"@) {
        lemma_replace_present(template, "{diff}"@, diff);
    } else {
        lemma_replace_absent(template, "{diff}"@, diff);
    }
}

proof fn lemma_replace_cr_free(s: Seq<char>)
    ensures
        !replace_seq(s, "\r"@, ""@).contains('\r'),
    decreases s.len(),
{
    reveal_strlit("\r");
    reveal_strlit("");
    if s.len() >= 1 {
        lemma_replace_cr_free(s.skip(1));
        let rest = replace_seq(s.skip(1), "\r"@, ""@);
        if s.take(1) == "\r"@ {
            assert(""@ + rest =~= rest);
        } else {
            assert(s[0] != '\r') by {
                if s[0] == '\r' {
                    assert(s.take(1) =~= "\r"@);
                }
            }
            let r = seq![s[0]] + rest;
            assert forall|i: int| 0 <= i < r.len() implies r[i] != '\r' by {
                if i > 0 {
                    assert(r[i] == rest[i - 1]);
                }
            }
        }
    }
}

/// Normalized text holds no carriage return.
pub proof fn lemma_normalize_newlines_cr_free(s: Seq<char>)
    ensures
        !spec_normalize_newlines(s).contains('\r'),
{
    lemma_replace_cr_free(replace_seq(s, "\r\n"@, "\n"@));
}

/// Without a default that names an entry, the default provider is the first
/// entry; with one, it is the first entry that carries the default's name.
pub proof fn lemma_default_index(c: AppConfigView)
    ensures
        (c.default_provider is None || spec_find_index(c.providers, c.default_provider->0) is None)
            ==> spec_default_index(c) == 0,
        (c.default_provider matches Some(d) && spec_find_index(c.providers, d) is Some) ==> {
            let k = spec_default_index(c);
            &&& 0 <= k < c.providers.len()
            &&& spec_entry_name(c.providers[k]) == trim_seq(c.default_provider->0)
            &&& forall|m: int|
                0 <= m < k ==> spec_entry_name(c.providers[m]) != trim_seq(c.default_provider->0)
        },
{
    if c.default_provider is Some {
        lemma_find_index(c.providers, c.default_provider->0);
    }
}

} // verus!
