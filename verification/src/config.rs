//! The settings that a session starts with.

use vstd::prelude::*;

verus! {

/// Where the model is reached and which model is asked. A `model_name` that
/// is empty or `AUTODETECT` stands for the first model that the endpoint
/// lists.
#[derive(Debug, Clone)]
pub struct LlmConfig {
    pub provider: Option<String>,
    pub api_key: String,
    pub api_base_url: String,
    pub model_name: String,
}

/// Which service answers web searches.
#[derive(Debug, Clone)]
pub struct WebConfig {
    pub provider: String,
    pub api_key: Option<String>,
}

/// The settings of a session.
#[derive(Debug, Clone)]
pub struct Config {
    pub llm: LlmConfig,
    pub web: WebConfig,
}

/// The search provider of a web section that names none.
pub fn default_provider() -> (r: String)
    ensures
        r@ == "duckduckgo"@,
{
    String::from_str("duckduckgo")
}

impl Default for WebConfig {
    /// The web settings of a configuration without a web section: no
    /// provider, no key.
    fn default() -> (r: Self)
        ensures
            r.provider@ == Seq::<char>::empty(),
            r.api_key is None,
    {
        WebConfig { provider: String::new(), api_key: None }
    }
}

} // verus!
