use vstd::prelude::*;
use crate::error::LangSmithError;

verus! {

/// How tracing is set up: whether it is on, where runs go and with which
/// credentials.
pub struct Config {
    pub tracing_enabled: bool,
    pub endpoint: String,
    pub api_key: String,
    pub project: Option<String>,
    pub tenant_id: Option<String>,
}

/// What `str::to_lowercase` makes of a string.
pub uninterp spec fn lower_of(s: Seq<char>) -> Seq<char>;

/// Relies on `str::to_lowercase`: the result depends on the characters
/// alone.
#[verifier::external_body]
fn lowercase(s: &str) -> (r: String)
    ensures
        r@ == lower_of(s@),
{
    s.to_lowercase()
}

/// The collector used when no endpoint is given.
pub open spec fn default_endpoint() -> Seq<char> {
    "https://api.smith.langchain.com"@
}

/// Reads a tracing flag that is already lowercase: only `true` turns tracing
/// on.
pub fn parse_flag(lowered: &str) -> (r: bool)
    ensures
        r == (lowered@ == "true"@),
{
    let t = "true".to_string();
    let l = lowered.to_string();
    l == t
}

impl Config {
    /// The configuration from the values of the tracing variables, `None`
    /// standing for one that is unset: the flag is on when it reads `true` in
    /// any case, the endpoint falls back to the public collector, and the API
    /// key is required.
    pub fn from_values(
        tracing: Option<String>,
        endpoint: Option<String>,
        api_key: Option<String>,
        project: Option<String>,
        tenant_id: Option<String>,
    ) -> (r: Result<Config, LangSmithError>)
        ensures
            api_key is None ==> (r matches Err(LangSmithError::Config(m)) && m@
                == "LANGSMITH_API_KEY not set"@),
            api_key matches Some(k) ==> (r matches Ok(c) && c.api_key == k && c.tracing_enabled == (
            match tracing {
                Some(t) => lower_of(t@) == "true"@,
                None => false,
            }) && c.endpoint@ == (match endpoint {
                Some(e) => e@,
                None => default_endpoint(),
            }) && c.project == project && c.tenant_id == tenant_id),
    {
        let tracing_enabled = match &tracing {
            Some(t) => {
                let lowered = lowercase(t.as_str());
                parse_flag(lowered.as_str())
            },
            None => false,
        };
        let endpoint = match endpoint {
            Some(e) => e,
            None => "https://api.smith.langchain.com".to_string(),
        };
        let api_key = match api_key {
            Some(k) => k,
            None => {
                return Err(LangSmithError::Config("LANGSMITH_API_KEY not set".to_string()));
            },
        };
        Ok(Config { tracing_enabled, endpoint, api_key, project, tenant_id })
    }

    /// Whether tracing is on for a configuration as it was loaded: off when
    /// it could not be loaded.
    pub fn is_tracing_enabled(loaded: &Result<Config, LangSmithError>) -> (r: bool)
        ensures
            r == (loaded matches Ok(c) && c.tracing_enabled),
    {
        match loaded {
            Ok(c) => c.tracing_enabled,
            Err(_) => false,
        }
    }
}

} // verus!
