//! The wire protocols spoken by providers.
use vstd::prelude::*;

use reqwest::header::{HeaderMap, HeaderValue, InvalidHeaderValue, AUTHORIZATION, CONTENT_TYPE};

use crate::ai::client::Message;
use crate::ai::provider::{ResolvedApiConfig, ResolvedApiConfigView};
use crate::config::settings::{opt_view, Temperature};
use crate::text::copy_str;

verus! {

/// reqwest's (http's) `HeaderMap`, opaque here; what it holds is told by `header_entries`.
#[verifier::external_type_specification]
#[verifier::external_body]
#[verifier::reject_recursive_types(T)]
pub struct ExHeaderMap<T>(HeaderMap<T>);

/// reqwest's (http's) `HeaderValue`, opaque here.
#[verifier::external_type_specification]
#[verifier::external_body]
pub struct ExHeaderValue(HeaderValue);

/// The error of `HeaderValue::from_str`, opaque here.
#[verifier::external_type_specification]
#[verifier::external_body]
pub struct ExInvalidHeaderValue(InvalidHeaderValue);

/// The headers that a `HeaderMap` holds: each header name, in lower case, to
/// the text of its first value.
pub uninterp spec fn header_entries(m: HeaderMap) -> Map<Seq<char>, Seq<char>>;

/// `HeaderValue::from_str` accepts exactly the texts made of tabs and of
/// characters from the space up, DEL excepted.
pub open spec fn valid_header_value(s: Seq<char>) -> bool {
    forall|i: int| 0 <= i < s.len() ==> (s[i] == '\t' || (' ' <= s[i] && s[i] != '\u{7f}'))
}

/// The request headers that this library sets.
#[derive(Clone, Copy, Debug, PartialEq, Eq, Structural)]
pub enum HeaderField {
    ContentType,
    Authorization,
}

/// The lower-case name of a header.
pub open spec fn header_field_name(f: HeaderField) -> Seq<char> {
    match f {
        HeaderField::ContentType => "content-type"@,
        HeaderField::Authorization => "authorization"@,
    }
}

/// The header table with no entry.
pub open spec fn no_headers() -> Map<Seq<char>, Seq<char>> {
    Map::empty()
}

/// `HeaderMap::new`: a map with no header.
#[verifier::external_body]
fn new_header_map() -> (m: HeaderMap)
    ensures
        header_entries(m) == no_headers(),
{
    HeaderMap::new()
}

/// `HeaderValue::from_str` on `value`, then `HeaderMap::insert` under the
/// header's name. The value is refused exactly when `from_str` refuses it, and
/// then the map is left as it was; otherwise the header now holds this one
/// value (`insert` drops the earlier ones). `insert` panics only when the map
/// outgrows its capacity, far beyond the few headers admitted here.
#[verifier::external_body]
fn insert_header(map: &mut HeaderMap, field: HeaderField, value: &str) -> (r: Result<
    (),
    InvalidHeaderValue,
>)
    requires
        header_entries(*old(map)).dom().finite(),
        header_entries(*old(map)).dom().len() < 64,
    ensures
        r is Ok <==> valid_header_value(value@),
        r is Ok ==> header_entries(*final(map)) == header_entries(*old(map)).insert(
            header_field_name(field),
            value@,
        ),
        r is Err ==> header_entries(*final(map)) == header_entries(*old(map)),
{
    let v = HeaderValue::from_str(value)?;
    let name = match field {
        HeaderField::ContentType => CONTENT_TYPE,
        HeaderField::Authorization => AUTHORIZATION,
    };
    map.insert(name, v);
    Ok(())
}

/// Why request headers cannot be built.
#[derive(Clone, Copy, Debug, PartialEq, Eq, Structural)]
pub enum HeaderError {
    /// The API key holds a character that a header value cannot carry.
    InvalidApiKey,
}

/// The value of the authorization header for a key.
pub open spec fn spec_bearer(key: Seq<char>) -> Seq<char> {
    "Bearer "@ + key
}

/// The request headers for an optional API key.
pub open spec fn spec_headers(key: Option<Seq<char>>) -> Map<Seq<char>, Seq<char>> {
    let base = no_headers().insert("content-type"@, "application/json"@);
    match key {
        Some(k) => base.insert("authorization"@, spec_bearer(k)),
        None => base,
    }
}

/// Headers can be built for a key when the key is absent or its bearer value is a valid header value.
pub open spec fn headers_buildable(key: Option<Seq<char>>) -> bool {
    match key {
        Some(k) => valid_header_value(spec_bearer(k)),
        None => true,
    }
}

/// One entry of a model listing, as the logic reads it: the entry's string
/// `id` and string `name`, where present.
pub struct ModelEntry {
    pub id: Option<String>,
    pub name: Option<String>,
}

/// A model-listing response, as the logic reads it: the `data` array
/// (OpenAI-compatible) and the `models` array (Ollama), where present.
pub struct ModelsResponse {
    pub data: Option<Vec<ModelEntry>>,
    pub models: Option<Vec<ModelEntry>>,
}

/// One element of a chat response's `choices` array: the string at `message.content`, if any.
pub struct ChatChoice {
    pub content: Option<String>,
}

/// A chat response, as the logic reads it: the `choices` array
/// (OpenAI-compatible) and, when `message` is an object, its string `content`
/// (Ollama).
pub struct ChatResponse {
    pub choices: Option<Vec<ChatChoice>>,
    pub message: Option<ChatChoice>,
}

/// The texts of the present fields, in order: `id` when `by_name` is false, else `name`.
pub open spec fn spec_listed(entries: Seq<ModelEntry>, by_name: bool) -> Seq<Seq<char>>
    decreases entries.len(),
{
    if entries.len() == 0 {
        Seq::empty()
    } else {
        let rest = spec_listed(entries.drop_last(), by_name);
        let field = if by_name {
            entries.last().name
        } else {
            entries.last().id
        };
        match field {
            Some(s) => rest.push(s@),
            None => rest,
        }
    }
}

/// Whether a protocol lists models under `models`/`name` (Ollama) rather than `data`/`id`.
pub open spec fn lists_by_name(p: ProtocolKind) -> bool {
    p == ProtocolKind::Ollama
}

/// The model names that a listing response gives under a protocol.
pub open spec fn spec_models(p: ProtocolKind, r: ModelsResponse) -> Seq<Seq<char>> {
    let arr = if lists_by_name(p) {
        r.models
    } else {
        r.data
    };
    match arr {
        Some(v) => spec_listed(v@, lists_by_name(p)),
        None => Seq::empty(),
    }
}

/// The reply text that a chat response gives under a protocol.
pub open spec fn spec_chat_reply(p: ProtocolKind, r: ChatResponse) -> Option<Seq<char>> {
    if p == ProtocolKind::Ollama {
        match r.message {
            Some(m) => opt_view(m.content),
            None => None,
        }
    } else {
        match r.choices {
            Some(v) => if v@.len() > 0 {
                opt_view(v@[0].content)
            } else {
                None
            },
            None => None,
        }
    }
}

/// The body of a chat request, by protocol. Each message is its role and its
/// content. An OpenAI-compatible body (also LM Studio's) is sent with
/// `stream: false` and thinking disabled, and carries the token limit and the
/// temperature; an Ollama body is sent with `think: false` and
/// `stream: false`, and carries the temperature among its options.
#[derive(Debug)]
pub enum ChatRequestBody {
    OpenAi {
        model: String,
        messages: Vec<(String, String)>,
        max_tokens: Option<usize>,
        temperature: Option<Temperature>,
    },
    Ollama { model: String, messages: Vec<(String, String)>, temperature: Option<Temperature> },
}

/// The mathematical value of a [`ChatRequestBody`].
pub enum ChatRequestBodyView {
    OpenAi {
        model: Seq<char>,
        messages: Seq<(Seq<char>, Seq<char>)>,
        max_tokens: Option<usize>,
        temperature: Option<Temperature>,
    },
    Ollama {
        model: Seq<char>,
        messages: Seq<(Seq<char>, Seq<char>)>,
        temperature: Option<Temperature>,
    },
}

/// The views of a list of (role, content) pairs.
pub open spec fn pairs_view(v: Seq<(String, String)>) -> Seq<(Seq<char>, Seq<char>)> {
    v.map_values(|p: (String, String)| (p.0@, p.1@))
}

impl View for ChatRequestBody {
    type V = ChatRequestBodyView;

    open spec fn view(&self) -> ChatRequestBodyView {
        match self {
            ChatRequestBody::OpenAi { model, messages, max_tokens, temperature } => {
                ChatRequestBodyView::OpenAi {
                    model: model@,
                    messages: pairs_view(messages@),
                    max_tokens: *max_tokens,
                    temperature: *temperature,
                }
            },
            ChatRequestBody::Ollama { model, messages, temperature } => ChatRequestBodyView::Ollama {
                model: model@,
                messages: pairs_view(messages@),
                temperature: *temperature,
            },
        }
    }
}

/// The (role, content) pairs of a list of messages, in order.
pub open spec fn spec_messages<'a>(ms: Seq<Message<'a>>) -> Seq<(Seq<char>, Seq<char>)> {
    ms.map_values(|m: Message<'a>| (m.role_view(), m.content_view()))
}

/// The chat request body that a protocol sends for a resolved entry: the
/// entry's model and the messages; the token limit too, except for Ollama;
/// and the temperature.
pub open spec fn spec_chat_request_body<'a>(
    p: ProtocolKind,
    c: ResolvedApiConfigView,
    ms: Seq<Message<'a>>,
) -> ChatRequestBodyView {
    if p == ProtocolKind::Ollama {
        ChatRequestBodyView::Ollama {
            model: c.model,
            messages: spec_messages(ms),
            temperature: c.temperature,
        }
    } else {
        ChatRequestBodyView::OpenAi {
            model: c.model,
            messages: spec_messages(ms),
            max_tokens: c.max_tokens,
            temperature: c.temperature,
        }
    }
}

/// The request/response dialect of a provider.
#[derive(Clone, Copy, Debug, PartialEq, Eq, Structural)]
pub enum ProtocolKind {
    OpenAiCompatible,
    Ollama,
    LMStudio,
}

/// The path of the chat endpoint, relative to a provider's base URL.
pub open spec fn spec_chat_path(p: ProtocolKind) -> Seq<char> {
    match p {
        ProtocolKind::OpenAiCompatible => "chat/completions"@,
        ProtocolKind::Ollama => "api/chat"@,
        ProtocolKind::LMStudio => "v1/chat/completions"@,
    }
}

/// The path of the model-listing endpoint, relative to a provider's base URL.
pub open spec fn spec_models_path(p: ProtocolKind) -> Seq<char> {
    match p {
        ProtocolKind::OpenAiCompatible => "models"@,
        ProtocolKind::Ollama => "api/tags"@,
        ProtocolKind::LMStudio => "v1/models"@,
    }
}

impl Default for ProtocolKind {
    fn default() -> (r: ProtocolKind)
        ensures
            r == ProtocolKind::OpenAiCompatible,
    {
        ProtocolKind::OpenAiCompatible
    }
}

impl ProtocolKind {
    /// The path of the chat endpoint, relative to a provider's base URL.
    pub fn chat_path(&self) -> (r: &'static str)
        ensures
            r@ == spec_chat_path(*self),
    {
        match self {
            ProtocolKind::OpenAiCompatible => "chat/completions",
            ProtocolKind::Ollama => "api/chat",
            ProtocolKind::LMStudio => "v1/chat/completions",
        }
    }

    /// The path of the model-listing endpoint, relative to a provider's base URL.
    pub fn models_path(&self) -> (r: &'static str)
        ensures
            r@ == spec_models_path(*self),
    {
        match self {
            ProtocolKind::OpenAiCompatible => "models",
            ProtocolKind::Ollama => "api/tags",
            ProtocolKind::LMStudio => "v1/models",
        }
    }

    /// The request headers: JSON content, and a bearer authorization when a key is given.
    pub fn headers(&self, api_key: &Option<String>) -> (r: Result<HeaderMap, HeaderError>)
        ensures
            r is Ok <==> headers_buildable(opt_view(*api_key)),
            r matches Ok(m) ==> header_entries(m) == spec_headers(opt_view(*api_key)),
    {
        let mut headers = new_header_map();
        proof {
            reveal_strlit("application/json");
        }
        let json = "application/json";
        assert(valid_header_value(json@));
        match insert_header(&mut headers, HeaderField::ContentType, json) {
            Ok(()) => {},
            Err(_) => {
                return Err(HeaderError::InvalidApiKey);
            },
        }
        if let Some(key) = api_key {
            let mut value = copy_str("Bearer ");
            value.append(key.as_str());
            match insert_header(&mut headers, HeaderField::Authorization, value.as_str()) {
                Ok(()) => {},
                Err(_) => {
                    return Err(HeaderError::InvalidApiKey);
                },
            }
        }
        assert(header_entries(headers) =~= spec_headers(opt_view(*api_key)));
        Ok(headers)
    }

    /// The body of a chat request for a resolved entry and the messages to send.
    pub fn build_chat_request(&self, config: &ResolvedApiConfig, messages: &[Message<'_>]) -> (r:
        ChatRequestBody)
        ensures
            r@ == spec_chat_request_body(*self, config@, messages@),
    {
        let mut pairs: Vec<(String, String)> = Vec::new();
        let mut i: usize = 0;
        while i < messages.len()
            invariant
                i <= messages.len(),
                pairs_view(pairs@) == spec_messages(messages@.take(i as int)),
            decreases messages.len() - i,
        {
            let m = &messages[i];
            let ghost before = pairs@;
            pairs.push((copy_str(m.role()), copy_str(m.content())));
            assert(messages@.take(i + 1) =~= messages@.take(i as int).push(*m));
            assert(pairs_view(pairs@) =~= pairs_view(before).push((m.role_view(), m.content_view())));
            assert(spec_messages(messages@.take(i + 1)) =~= spec_messages(messages@.take(i as int)).push(
                (m.role_view(), m.content_view()),
            ));
            i = i + 1;
        }
        assert(messages@.take(messages.len() as int) =~= messages@);
        let model = copy_str(config.model.as_str());
        match self {
            ProtocolKind::Ollama => ChatRequestBody::Ollama {
                model,
                messages: pairs,
                temperature: config.temperature,
            },
            _ => ChatRequestBody::OpenAi {
                model,
                messages: pairs,
                max_tokens: config.max_tokens,
                temperature: config.temperature,
            },
        }
    }

    /// The model names in a listing response: the string `id`s of the `data`
    /// entries, or for Ollama the string `name`s of the `models` entries.
    pub fn parse_models_response(&self, response: ModelsResponse) -> (r: Vec<String>)
        ensures
            r@.map_values(|s: String| s@) == spec_models(*self, response),
    {
        let by_name = match self {
            ProtocolKind::Ollama => true,
            _ => false,
        };
        let arr = if by_name {
            response.models
        } else {
            response.data
        };
        let mut out: Vec<String> = Vec::new();
        match arr {
            Some(entries) => {
                let mut i: usize = 0;
                while i < entries.len()
                    invariant
                        i <= entries.len(),
                        out@.map_values(|s: String| s@) == spec_listed(
                            entries@.take(i as int),
                            by_name,
                        ),
                    decreases entries.len() - i,
                {
                    let field = if by_name {
                        &entries[i].name
                    } else {
                        &entries[i].id
                    };
                    let ghost before = out@;
                    assert(entries@.take(i + 1).drop_last() =~= entries@.take(i as int));
                    match field {
                        Some(s) => {
                            out.push(copy_str(s.as_str()));
                            assert(out@.map_values(|s: String| s@) =~= before.map_values(
                                |s: String| s@,
                            ).push(s@));
                        },
                        None => {},
                    }
                    i = i + 1;
                }
                assert(entries@.take(entries.len() as int) =~= entries@);
            },
            None => {
                assert(out@.map_values(|s: String| s@) =~= Seq::<Seq<char>>::empty());
            },
        }
        out
    }

    /// The reply text of a chat response: the first choice's message content,
    /// or for Ollama the content of `message`.
    pub fn parse_chat_response(&self, response: ChatResponse) -> (r: Option<String>)
        ensures
            opt_view(r) == spec_chat_reply(*self, response),
    {
        match self {
            ProtocolKind::Ollama => match response.message {
                Some(m) => m.content,
                None => None,
            },
            _ => match response.choices {
                Some(v) => {
                    if v.len() > 0 {
                        match &v[0].content {
                            Some(s) => Some(copy_str(s.as_str())),
                            None => None,
                        }
                    } else {
                        None
                    }
                },
                None => None,
            },
        }
    }
}

} // verus!
