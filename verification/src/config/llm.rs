//! Settings of the optional LLM text enhancement.

use vstd::prelude::*;

use super::secret::{resolved_as, SecretSource};
use crate::error::{reports, CoreError};
use crate::text::{is_blank, is_blank_str, owned, trim};

verus! {

/// LLM enhancement settings for transcription post-processing.
#[derive(Clone, Debug, PartialEq, Eq)]
pub struct LlmConfig {
    pub enabled: bool,
    pub base_url: String,
    pub model: String,
    pub api_key: SecretSource,
}

/// The first rule that an LLM configuration breaks, as its message. A
/// disabled enhancement is not checked.
pub open spec fn llm_problem(c: LlmConfig) -> Option<Seq<char>> {
    if !c.enabled {
        None
    } else if trim(c.base_url@).len() == 0 {
        Some("llm.base_url must not be empty when enabled"@)
    } else if trim(c.model@).len() == 0 {
        Some("llm.model must not be empty when enabled"@)
    } else {
        None
    }
}

impl Default for LlmConfig {
    fn default() -> (c: LlmConfig)
        ensures
            !c.enabled,
            c.base_url@.len() == 0,
            c.model@.len() == 0,
            c.api_key@ is Empty,
    {
        LlmConfig {
            enabled: false,
            base_url: String::new(),
            model: String::new(),
            api_key: SecretSource::Empty,
        }
    }
}

impl LlmConfig {
    /// When enabled, the base URL and the model must hold more than
    /// whitespace.
    pub fn validate(&self) -> (r: Result<(), CoreError>)
        ensures
            reports(r, llm_problem(*self)),
    {
        if !self.enabled {
            return Ok(());
        }
        if is_blank_str(self.base_url.as_str()) {
            return Err(CoreError::InvalidConfig(owned("llm.base_url must not be empty when enabled")));
        }
        if is_blank_str(self.model.as_str()) {
            return Err(CoreError::InvalidConfig(owned("llm.model must not be empty when enabled")));
        }
        Ok(())
    }

    /// Resolves the LLM API key, given the value of its environment variable
    /// when the key comes from one and that variable is set.
    pub fn resolve_api_key(&self, env_value: Option<String>) -> (r: Result<String, CoreError>)
        ensures
            resolved_as(
                self.api_key@,
                match env_value {
                    Some(v) => Some(v@),
                    None => None,
                },
                r,
            ),
    {
        self.api_key.resolve(env_value)
    }
}

/// A disabled enhancement always passes; an enabled one passes exactly when
/// its base URL and model hold more than whitespace.
pub proof fn law_llm_config_rules(c: LlmConfig)
    ensures
        !c.enabled ==> llm_problem(c) is None,
        c.enabled ==> (llm_problem(c) is None <==> (!is_blank(c.base_url@) && !is_blank(
            c.model@,
        ))),
{
    crate::text::lemma_trim_empty_iff_blank(c.base_url@);
    crate::text::lemma_trim_empty_iff_blank(c.model@);
}

} // verus!
