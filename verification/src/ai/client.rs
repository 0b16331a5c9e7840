//! Chat messages, and the requests that a client sends to the active provider.
use vstd::prelude::*;

use reqwest::header::HeaderMap;

use crate::ai::protocol::{header_entries, headers_buildable, spec_headers, ProtocolKind};
use crate::ai::provider::{
    resolve_api_config, spec_endpoint, spec_resolved, ResolveError, ResolvedApiConfig,
};
use crate::config::settings::{
    opt_str_view, override_requested, spec_default_index, spec_find_index, AppConfig,
    AppConfigView, ApiConfigView, ConfigError,
};
use crate::text::{copy_str, trim_seq};

verus! {

/// One chat message: a role and its content.
pub struct Message<'a> {
    role: &'a str,
    pub content: &'a str,
}

impl<'a> Message<'a> {
    /// The role of this message (the field is private: only `system` and
    /// `user` make messages).
    pub closed spec fn role_view(&self) -> Seq<char> {
        self.role@
    }

    /// The content of this message. The field is public, but the private
    /// `role` makes the type opaque outside this module, so contracts read
    /// the content through this function.
    pub closed spec fn content_view(&self) -> Seq<char> {
        self.content@
    }

    /// A system message with the given content.
    pub fn system(content: &'a str) -> (m: Self)
        ensures
            m.role_view() == "system"@,
            m.content_view() == content@,
    {
        Message { role: "system", content }
    }

    /// A user message with the given content.
    pub fn user(content: &'a str) -> (m: Self)
        ensures
            m.role_view() == "user"@,
            m.content_view() == content@,
    {
        Message { role: "user", content }
    }

    /// The content of this message.
    pub fn content(&self) -> (r: &'a str)
        ensures
            r@ == self.content_view(),
    {
        self.content
    }

    /// The role of this message.
    pub fn role(&self) -> (r: &'a str)
        ensures
            r@ == self.role_view(),
    {
        self.role
    }
}

/// The entry that a request uses: the one that [`AppConfig::active_provider`]
/// picks for the override, if it picks one.
pub open spec fn spec_active_entry(c: AppConfigView, o: Option<Seq<char>>) -> Option<ApiConfigView> {
    if c.providers.len() == 0 {
        None
    } else if override_requested(o) {
        match spec_find_index(c.providers, o->0) {
            Some(k) => Some(c.providers[k]),
            None => None,
        }
    } else {
        Some(c.providers[spec_default_index(c)])
    }
}

/// An entry resolves when it has an endpoint and a model that is not blank.
pub open spec fn spec_resolvable(e: ApiConfigView) -> bool {
    spec_endpoint(e) is Some && trim_seq(e.model).len() > 0
}

/// Why a request to the provider cannot be prepared.
#[derive(Debug)]
pub enum ClientError {
    /// No entry could be chosen.
    Config(ConfigError),
    /// The chosen entry does not resolve.
    Resolve(ResolveError),
    /// The chosen entry has no model-listing endpoint (a custom endpoint).
    NoModelsEndpoint,
    /// The API key cannot be sent in a header.
    InvalidApiKey,
}

/// The error of a request whose entry could not be chosen, as
/// [`AppConfig::active_provider`] reports it.
pub open spec fn is_choice_error(c: AppConfigView, o: Option<Seq<char>>, e: ClientError) -> bool {
    if c.providers.len() == 0 {
        e matches ClientError::Config(ConfigError::NoProviders)
    } else {
        e matches ClientError::Config(ConfigError::ProviderNotFound { name, .. }) && name@
            == trim_seq(o->0)
    }
}

/// A chat request: the resolved entry and the headers to send.
pub struct ChatRequest {
    pub config: ResolvedApiConfig,
    pub headers: HeaderMap,
}

/// A model-listing request: where to send it, the headers to send, and the
/// protocol whose listing format the reply has.
pub struct ModelsRequest {
    pub endpoint: String,
    pub headers: HeaderMap,
    pub protocol: ProtocolKind,
}

/// Choose the entry for `provider` (or the default one), resolve it and build
/// its headers.
pub fn prepare_chat_request(config: &AppConfig, provider: Option<&str>) -> (r: Result<
    ChatRequest,
    ClientError,
>)
    ensures
        spec_active_entry(config@, opt_str_view(provider)) is None ==> (r matches Err(e)
            && is_choice_error(config@, opt_str_view(provider), e)),
        spec_active_entry(config@, opt_str_view(provider)) matches Some(e) ==> {
            if spec_endpoint(e) is None {
                r matches Err(ClientError::Resolve(ResolveError::EndpointNotFound))
            } else if !spec_resolvable(e) {
                r matches Err(ClientError::Resolve(ResolveError::ModelNotFound))
            } else if !headers_buildable(e.api_key) {
                r matches Err(ClientError::InvalidApiKey)
            } else {
                r matches Ok(req) && req.config@ == spec_resolved(e) && header_entries(req.headers)
                    == spec_headers(e.api_key)
            }
        },
{
    let entry = match config.active_provider(provider) {
        Ok(p) => p,
        Err(e) => {
            return Err(ClientError::Config(e));
        },
    };
    let resolved = match resolve_api_config(entry) {
        Ok(r) => r,
        Err(e) => {
            return Err(ClientError::Resolve(e));
        },
    };
    let headers = match resolved.protocol.headers(&resolved.api_key) {
        Ok(h) => h,
        Err(_) => {
            return Err(ClientError::InvalidApiKey);
        },
    };
    Ok(ChatRequest { config: resolved, headers })
}

/// Choose the entry for `provider` (or the default one), resolve it, and
/// build the model-listing request of its built-in provider.
pub fn prepare_models_request(config: &AppConfig, provider: Option<&str>) -> (r: Result<
    ModelsRequest,
    ClientError,
>)
    ensures
        spec_active_entry(config@, opt_str_view(provider)) is None ==> (r matches Err(e)
            && is_choice_error(config@, opt_str_view(provider), e)),
        spec_active_entry(config@, opt_str_view(provider)) matches Some(e) ==> {
            if spec_endpoint(e) is None {
                r matches Err(ClientError::Resolve(ResolveError::EndpointNotFound))
            } else if !spec_resolvable(e) {
                r matches Err(ClientError::Resolve(ResolveError::ModelNotFound))
            } else if spec_resolved(e).models_endpoint is None {
                r matches Err(ClientError::NoModelsEndpoint)
            } else if !headers_buildable(e.api_key) {
                r matches Err(ClientError::InvalidApiKey)
            } else {
                r matches Ok(req) && req.endpoint@ == spec_resolved(e).models_endpoint->0
                    && header_entries(req.headers) == spec_headers(e.api_key) && req.protocol
                    == spec_resolved(e).protocol
            }
        },
{
    let entry = match config.active_provider(provider) {
        Ok(p) => p,
        Err(e) => {
            return Err(ClientError::Config(e));
        },
    };
    let resolved = match resolve_api_config(entry) {
        Ok(r) => r,
        Err(e) => {
            return Err(ClientError::Resolve(e));
        },
    };
    let endpoint = match &resolved.models_endpoint {
        Some(m) => copy_str(m.as_str()),
        None => {
            return Err(ClientError::NoModelsEndpoint);
        },
    };
    let headers = match resolved.protocol.headers(&resolved.api_key) {
        Ok(h) => h,
        Err(_) => {
            return Err(ClientError::InvalidApiKey);
        },
    };
    Ok(ModelsRequest { endpoint, headers, protocol: resolved.protocol })
}

} // verus!
