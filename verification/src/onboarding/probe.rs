//! A custom provider is tried out with one request for its model list before its settings
//! are written.

use crate::onboarding::provider::{error_text, CustomProviderConfig};
use crate::onboarding::wizard::{ApiProviderWireApi, ApiWireApi};
use crate::text::joined;
use vstd::prelude::*;

verus! {

/// How the request that tries out a provider is made.
#[derive(Debug, PartialEq, Eq)]
pub struct ProviderProbe {
    pub name: String,
    pub base_url: String,
    pub wire: ApiWireApi,
    pub bearer_token: String,
    pub max_attempts: u64,
    pub base_delay_ms: u64,
    pub retry_429: bool,
    pub retry_5xx: bool,
    pub retry_transport: bool,
    pub stream_idle_timeout_secs: u64,
}

/// The request goes to the configured address with the configured key as bearer token, once
/// and without retries.
pub fn provider_probe(config: &CustomProviderConfig) -> (probe: ProviderProbe)
    ensures
        probe.name@ == config@.provider_id,
        probe.base_url@ == config@.base_url,
        probe.bearer_token@ == config@.api_key,
        probe.wire == ApiWireApi::Chat <==> config@.wire_api == ApiProviderWireApi::Chat,
        probe.max_attempts == 1,
        probe.base_delay_ms == 200,
        !probe.retry_429,
        !probe.retry_5xx,
        !probe.retry_transport,
        probe.stream_idle_timeout_secs == 5,
{
    ProviderProbe {
        name: config.provider_id.clone(),
        base_url: config.base_url.clone(),
        wire: config.wire_api.as_api_wire(),
        bearer_token: config.api_key.clone(),
        max_attempts: 1,
        base_delay_ms: 200,
        retry_429: false,
        retry_5xx: false,
        retry_transport: false,
        stream_idle_timeout_secs: 5,
    }
}

/// Why a request did not get a reply that can be read.
#[derive(Debug, PartialEq, Eq)]
pub enum TransportError {
    Http { status: u16 },
    RetryLimit,
    Timeout,
    Network(String),
    Build(String),
}

/// Why the provider's model list could not be had.
#[derive(Debug, PartialEq, Eq)]
pub enum ApiError {
    Transport(TransportError),
    Api { status: u16, message: String },
    Stream,
    ContextWindowExceeded,
    QuotaExceeded,
    UsageNotIncluded,
    Retryable,
    RateLimit,
    InvalidRequest,
}

/// The HTTP statuses 401 (Unauthorized) and 403 (Forbidden).
pub open spec fn is_auth_failure(status: u16) -> bool {
    status == 401 || status == 403
}

/// What the reply says against the provider. A provider need not offer a model list, so only
/// a refused key and a failed connection count.
pub open spec fn probe_error(reply: Result<(), ApiError>) -> Option<Seq<char>> {
    match reply {
        Err(ApiError::Transport(TransportError::Http { status })) => if is_auth_failure(status) {
            Some("Authentication failed while checking the provider. Verify the API key."@)
        } else {
            None
        },
        Err(ApiError::Transport(TransportError::Timeout)) => Some(
            "Timed out while connecting to the provider."@,
        ),
        Err(ApiError::Transport(TransportError::RetryLimit)) => Some(
            "Could not connect to the provider after retrying."@,
        ),
        Err(ApiError::Transport(TransportError::Build(message))) => Some(
            "Could not connect to the provider: "@ + message@,
        ),
        Err(ApiError::Transport(TransportError::Network(message))) => Some(
            "Could not connect to the provider: "@ + message@,
        ),
        Err(ApiError::Api { status, message }) => if is_auth_failure(status) {
            Some("Authentication failed while checking the provider: "@ + message@)
        } else {
            None
        },
        _ => None,
    }
}

/// Judges a provider by the reply to its [`ProviderProbe`].
pub fn validate_custom_provider_config(
    reply: Result<(), ApiError>,
) -> (outcome: Result<(), String>)
    ensures
        error_text(outcome) == probe_error(reply),
{
    match reply {
        Ok(()) => Ok(()),
        Err(ApiError::Transport(error)) => match error {
            TransportError::Http { status } => if status == 401 || status == 403 {
                Err(
                    "Authentication failed while checking the provider. Verify the API key.".to_string(),
                )
            } else {
                Ok(())
            },
            TransportError::Timeout => Err(
                "Timed out while connecting to the provider.".to_string(),
            ),
            TransportError::RetryLimit => Err(
                "Could not connect to the provider after retrying.".to_string(),
            ),
            TransportError::Build(message) => Err(
                joined("Could not connect to the provider: ", &message),
            ),
            TransportError::Network(message) => Err(
                joined("Could not connect to the provider: ", &message),
            ),
        },
        Err(ApiError::Api { status, message }) => if status == 401 || status == 403 {
            Err(joined("Authentication failed while checking the provider: ", &message))
        } else {
            Ok(())
        },
        Err(_) => Ok(()),
    }
}

/// A provider that answers at all, with any status but a refused key, is accepted.
pub proof fn law_any_answer_but_a_refused_key_is_accepted(status: u16, message: String)
    ensures
        probe_error(Err(ApiError::Transport(TransportError::Http { status }))) is None
            <==> !is_auth_failure(status),
        probe_error(Err(ApiError::Api { status, message })) is None <==> !is_auth_failure(status),
{
}

/// What each reply says against a provider. The statuses of a refused key are 401 and 403.
pub proof fn law_judgement_of_each_reply(reply: Result<(), ApiError>)
    ensures
        reply is Ok ==> probe_error(reply) is None,
        reply matches Err(ApiError::Transport(TransportError::Http { status })) ==> {
            &&& status == 401 || status == 403 ==> probe_error(reply) == Some(
                "Authentication failed while checking the provider. Verify the API key."@,
            )
            &&& status != 401 && status != 403 ==> probe_error(reply) is None
        },
        reply matches Err(ApiError::Transport(TransportError::Timeout)) ==> probe_error(reply)
            == Some("Timed out while connecting to the provider."@),
        reply matches Err(ApiError::Transport(TransportError::RetryLimit)) ==> probe_error(reply)
            == Some("Could not connect to the provider after retrying."@),
        reply matches Err(ApiError::Transport(TransportError::Network(message))) ==> probe_error(
            reply,
        ) == Some("Could not connect to the provider: "@ + message@),
        reply matches Err(ApiError::Transport(TransportError::Build(message))) ==> probe_error(
            reply,
        ) == Some("Could not connect to the provider: "@ + message@),
        reply matches Err(ApiError::Api { status, message }) ==> {
            &&& status == 401 || status == 403 ==> probe_error(reply) == Some(
                "Authentication failed while checking the provider: "@ + message@,
            )
            &&& status != 401 && status != 403 ==> probe_error(reply) is None
        },
        reply matches Err(error) ==> error is Transport || error is Api || probe_error(
            reply,
        ) is None,
{
}

/// A provider is tried out at its own address, under its own name and with its own key, in one
/// attempt that is not repeated for any reason.
pub proof fn law_probe_of_a_provider(config: CustomProviderConfig, probe: ProviderProbe)
    requires
        call_ensures(provider_probe, (&config,), probe),
    ensures
        probe.name@ == config.provider_id@,
        probe.base_url@ == config.base_url@,
        probe.bearer_token@ == config.api_key@,
        config.wire_api is Chat ==> probe.wire is Chat,
        config.wire_api is Responses ==> probe.wire is Responses,
        probe.max_attempts == 1,
        probe.base_delay_ms == 200,
        !probe.retry_429 && !probe.retry_5xx && !probe.retry_transport,
        probe.stream_idle_timeout_secs == 5,
{
}

} // verus!
