//! The built-in provider catalogue and the resolution of a provider entry into
//! the endpoints and settings that a request uses.
use vstd::prelude::*;

use crate::ai::protocol::{spec_chat_path, spec_models_path, ProtocolKind};
use crate::config::settings::{copy_opt, opt_view, ApiConfig, ApiConfigView, Temperature};
use crate::text::{
    ascii_lower_seq, copy_str, is_blank, is_white_space, str_eq, strip_end,
    strip_end_char, strip_start, strip_start_char, to_ascii_lowercase, trim, trim_end_seq,
    trim_seq, trim_start_seq,
};

verus! {

/// A built-in provider.
#[derive(Clone, Copy, Debug)]
pub struct ProviderSpec {
    pub name: &'static str,
    pub display_name: &'static str,
    pub base_url: &'static str,
    pub protocol: ProtocolKind,
}

/// The mathematical value of a [`ProviderSpec`].
pub struct ProviderSpecView {
    pub name: Seq<char>,
    pub display_name: Seq<char>,
    pub base_url: Seq<char>,
    pub protocol: ProtocolKind,
}

impl View for ProviderSpec {
    type V = ProviderSpecView;

    open spec fn view(&self) -> ProviderSpecView {
        ProviderSpecView {
            name: self.name@,
            display_name: self.display_name@,
            base_url: self.base_url@,
            protocol: self.protocol,
        }
    }
}

/// The built-in providers, in the order they are offered.
pub open spec fn spec_provider_specs() -> Seq<ProviderSpecView> {
    seq![
        ProviderSpecView {
            name: "openai"@,
            display_name: "OpenAI"@,
            base_url: "https://api.openai.com/v1"@,
            protocol: ProtocolKind::OpenAiCompatible,
        },
        ProviderSpecView {
            name: "openrouter"@,
            display_name: "OpenRouter"@,
            base_url: "https://openrouter.ai/api/v1"@,
            protocol: ProtocolKind::OpenAiCompatible,
        },
        ProviderSpecView {
            name: "deepseek"@,
            display_name: "DeepSeek"@,
            base_url: "https://api.deepseek.com/v1"@,
            protocol: ProtocolKind::OpenAiCompatible,
        },
        ProviderSpecView {
            name: "zhipu"@,
            display_name: "Zhipu AI"@,
            base_url: "https://open.bigmodel.cn/api/paas/v4"@,
            protocol: ProtocolKind::OpenAiCompatible,
        },
        ProviderSpecView {
            name: "ollama"@,
            display_name: "Ollama (local)"@,
            base_url: "http://localhost:11434"@,
            protocol: ProtocolKind::Ollama,
        },
        ProviderSpecView {
            name: "lmstudio"@,
            display_name: "LM Studio (local)"@,
            base_url: "http://localhost:1234"@,
            protocol: ProtocolKind::LMStudio,
        },
    ]
}

/// The first built-in provider at or after index `i` whose name is `key`.
pub open spec fn find_spec_from(specs: Seq<ProviderSpecView>, key: Seq<char>, i: int) -> Option<
    ProviderSpecView,
>
    decreases specs.len() - i,
{
    if i < 0 || i >= specs.len() {
        None
    } else if specs[i].name == key {
        Some(specs[i])
    } else {
        find_spec_from(specs, key, i + 1)
    }
}

/// The built-in provider that a name selects: the one whose name is the
/// trimmed, ASCII-lowercased name.
pub open spec fn spec_find_builtin(name: Seq<char>) -> Option<ProviderSpecView> {
    find_spec_from(spec_provider_specs(), ascii_lower_seq(trim_seq(name)), 0)
}

/// A name without white space at its ends and without ASCII capitals is its own key.
proof fn lemma_plain_name_key(s: Seq<char>)
    requires
        s.len() > 0,
        !is_white_space(s[0]),
        !is_white_space(s.last()),
        forall|i: int| 0 <= i < s.len() ==> !('A' <= #[trigger] s[i] && s[i] <= 'Z'),
    ensures
        ascii_lower_seq(trim_seq(s)) == s,
{
    assert(trim_start_seq(s) == s);
    assert(trim_end_seq(s) == s);
    assert(ascii_lower_seq(s) =~= s);
}

/// Every built-in provider is found by its own name.
pub proof fn lemma_builtin_found_by_name(k: int)
    requires
        0 <= k < spec_provider_specs().len(),
    ensures
        spec_find_builtin(spec_provider_specs()[k].name) == Some(spec_provider_specs()[k]),
{
    reveal_strlit("openai");
    reveal_strlit("openrouter");
    reveal_strlit("deepseek");
    reveal_strlit("zhipu");
    reveal_strlit("ollama");
    reveal_strlit("lmstudio");
    let specs = spec_provider_specs();
    let name = specs[k].name;
    lemma_plain_name_key(name);
    assert forall|j: int| 0 <= j < k implies specs[j].name != name by {
        if specs[j].name == name {
            assert(specs[j].name.len() == name.len());
            assert(specs[j].name[1] == name[1]);
            assert(specs[j].name[0] == name[0]);
        }
    }
    assert(find_spec_from(specs, name, 0) == Some(specs[k])) by {
        reveal_with_fuel(find_spec_from, 7);
    }
}

/// `base` and `path` joined by exactly the one slash between them.
pub open spec fn spec_join_url(base: Seq<char>, path: Seq<char>) -> Seq<char> {
    strip_end_char(base, '/') + seq!['/'] + strip_start_char(path, '/')
}

/// The built-in provider that an entry names, if any.
pub open spec fn spec_builtin_for(c: ApiConfigView) -> Option<ProviderSpecView> {
    match c.provider {
        Some(p) => spec_find_builtin(p),
        None => None,
    }
}

/// The chat endpoint of an entry: its own endpoint when that is not blank,
/// else the chat endpoint of its built-in provider.
pub open spec fn spec_endpoint(c: ApiConfigView) -> Option<Seq<char>> {
    if c.endpoint is Some && trim_seq(c.endpoint->0).len() > 0 {
        c.endpoint
    } else {
        match spec_builtin_for(c) {
            Some(p) => Some(spec_join_url(p.base_url, spec_chat_path(p.protocol))),
            None => None,
        }
    }
}

/// The model-listing endpoint of an entry: that of its built-in provider.
pub open spec fn spec_models_endpoint(c: ApiConfigView) -> Option<Seq<char>> {
    match spec_builtin_for(c) {
        Some(p) => Some(spec_join_url(p.base_url, spec_models_path(p.protocol))),
        None => None,
    }
}

/// The protocol of an entry: its own, else its built-in provider's, else the default.
pub open spec fn spec_protocol(c: ApiConfigView) -> ProtocolKind {
    match c.protocol {
        Some(p) => p,
        None => match spec_builtin_for(c) {
            Some(b) => b.protocol,
            None => ProtocolKind::OpenAiCompatible,
        },
    }
}

/// A provider entry resolved into what a request needs.
#[derive(Debug)]
pub struct ResolvedApiConfig {
    pub endpoint: String,
    pub models_endpoint: Option<String>,
    pub model: String,
    pub api_key: Option<String>,
    pub max_tokens: Option<usize>,
    pub temperature: Option<Temperature>,
    pub protocol: ProtocolKind,
}

/// The mathematical value of a [`ResolvedApiConfig`].
pub struct ResolvedApiConfigView {
    pub endpoint: Seq<char>,
    pub models_endpoint: Option<Seq<char>>,
    pub model: Seq<char>,
    pub api_key: Option<Seq<char>>,
    pub max_tokens: Option<usize>,
    pub temperature: Option<Temperature>,
    pub protocol: ProtocolKind,
}

impl View for ResolvedApiConfig {
    type V = ResolvedApiConfigView;

    open spec fn view(&self) -> ResolvedApiConfigView {
        ResolvedApiConfigView {
            endpoint: self.endpoint@,
            models_endpoint: opt_view(self.models_endpoint),
            model: self.model@,
            api_key: opt_view(self.api_key),
            max_tokens: self.max_tokens,
            temperature: self.temperature,
            protocol: self.protocol,
        }
    }
}

/// Why an entry cannot be resolved.
#[derive(Clone, Copy, Debug, PartialEq, Eq, Structural)]
pub enum ResolveError {
    /// Neither the entry nor a built-in provider gives a chat endpoint.
    EndpointNotFound,
    /// The entry's model is blank.
    ModelNotFound,
}

/// The resolution of an entry that has an endpoint and a model.
pub open spec fn spec_resolved(c: ApiConfigView) -> ResolvedApiConfigView {
    ResolvedApiConfigView {
        endpoint: spec_endpoint(c)->0,
        models_endpoint: spec_models_endpoint(c),
        model: c.model,
        api_key: c.api_key,
        max_tokens: c.max_tokens,
        temperature: c.temperature,
        protocol: spec_protocol(c),
    }
}

/// The built-in providers, in the order they are offered.
pub fn provider_specs() -> (r: Vec<ProviderSpec>)
    ensures
        r@.map_values(|p: ProviderSpec| p@) == spec_provider_specs(),
{
    let r = vec![
        ProviderSpec {
            name: "openai",
            display_name: "OpenAI",
            base_url: "https://api.openai.com/v1",
            protocol: ProtocolKind::OpenAiCompatible,
        },
        ProviderSpec {
            name: "openrouter",
            display_name: "OpenRouter",
            base_url: "https://openrouter.ai/api/v1",
            protocol: ProtocolKind::OpenAiCompatible,
        },
        ProviderSpec {
            name: "deepseek",
            display_name: "DeepSeek",
            base_url: "https://api.deepseek.com/v1",
            protocol: ProtocolKind::OpenAiCompatible,
        },
        ProviderSpec {
            name: "zhipu",
            display_name: "Zhipu AI",
            base_url: "https://open.bigmodel.cn/api/paas/v4",
            protocol: ProtocolKind::OpenAiCompatible,
        },
        ProviderSpec {
            name: "ollama",
            display_name: "Ollama (local)",
            base_url: "http://localhost:11434",
            protocol: ProtocolKind::Ollama,
        },
        ProviderSpec {
            name: "lmstudio",
            display_name: "LM Studio (local)",
            base_url: "http://localhost:1234",
            protocol: ProtocolKind::LMStudio,
        },
    ];
    assert(r@.map_values(|p: ProviderSpec| p@) =~= spec_provider_specs());
    r
}

/// The built-in provider whose name matches `name`, ignoring surrounding
/// white space and ASCII case.
pub fn find_provider(name: &str) -> (r: Option<ProviderSpec>)
    ensures
        match spec_find_builtin(name@) {
            Some(v) => r matches Some(p) && p@ == v,
            None => r is None,
        },
{
    let trimmed = trim(name);
    let key = to_ascii_lowercase(trimmed.as_str());
    let specs = provider_specs();
    let ghost sv = specs@.map_values(|p: ProviderSpec| p@);
    let mut i: usize = 0;
    while i < specs.len()
        invariant
            i <= specs.len(),
            sv == specs@.map_values(|p: ProviderSpec| p@),
            sv == spec_provider_specs(),
            key@ == ascii_lower_seq(trim_seq(name@)),
            find_spec_from(sv, key@, 0) == find_spec_from(sv, key@, i as int),
        decreases specs.len() - i,
    {
        assert(sv[i as int] == specs@[i as int]@);
        if str_eq(specs[i].name, key.as_str()) {
            return Some(specs[i]);
        }
        i = i + 1;
    }
    None
}

/// Join a base URL and a path with exactly one slash between them.
pub fn join_url(base_url: &str, path: &str) -> (r: String)
    ensures
        r@ == spec_join_url(base_url@, path@),
{
    let mut r = strip_end(base_url, '/');
    r.push('/');
    let tail = strip_start(path, '/');
    r.append(tail.as_str());
    r
}

/// Resolve an entry into its chat endpoint, model-listing endpoint, model,
/// key, limits and protocol.
pub fn resolve_api_config(config: &ApiConfig) -> (r: Result<ResolvedApiConfig, ResolveError>)
    ensures
        spec_endpoint(config@) is None ==> r == Err::<ResolvedApiConfig, ResolveError>(
            ResolveError::EndpointNotFound,
        ),
        spec_endpoint(config@) is Some && trim_seq(config@.model).len() == 0 ==> r == Err::<
            ResolvedApiConfig,
            ResolveError,
        >(ResolveError::ModelNotFound),
        spec_endpoint(config@) is Some && trim_seq(config@.model).len() > 0 ==> (r matches Ok(res)
            && res@ == spec_resolved(config@)),
{
    let provider = match &config.provider {
        Some(p) => find_provider(p.as_str()),
        None => None,
    };
    let endpoint = match &config.endpoint {
        Some(e) if !is_blank(e.as_str()) => copy_str(e.as_str()),
        _ => match provider {
            Some(p) => join_url(p.base_url, p.protocol.chat_path()),
            None => {
                return Err(ResolveError::EndpointNotFound);
            },
        },
    };
    let models_endpoint = match provider {
        Some(p) => Some(join_url(p.base_url, p.protocol.models_path())),
        None => None,
    };
    if is_blank(config.model.as_str()) {
        return Err(ResolveError::ModelNotFound);
    }
    let protocol = match config.protocol {
        Some(p) => p,
        None => match provider {
            Some(p) => p.protocol,
            None => ProtocolKind::default(),
        },
    };
    Ok(
        ResolvedApiConfig {
            endpoint,
            models_endpoint,
            model: copy_str(config.model.as_str()),
            api_key: copy_opt(&config.api_key),
            max_tokens: config.max_tokens,
            temperature: config.temperature,
            protocol,
        },
    )
}

/// Which protocol a resolved entry speaks: its own when it names one, else
/// its built-in provider's, and, with neither, the default protocol
/// (OpenAI-compatible, what `ProtocolKind::default` gives).
pub proof fn lemma_resolved_protocol(c: ApiConfigView)
    ensures
        c.protocol matches Some(p) ==> spec_resolved(c).protocol == p,
        c.protocol is None ==> (spec_builtin_for(c) matches Some(b) ==> spec_resolved(c).protocol
            == b.protocol),
        c.protocol is None && spec_builtin_for(c) is None ==> spec_resolved(c).protocol
            == ProtocolKind::OpenAiCompatible,
{
}

} // verus!
