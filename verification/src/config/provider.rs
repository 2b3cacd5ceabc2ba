//! Speech-to-text provider settings.

use vstd::prelude::*;

use super::secret::SecretSource;
use crate::error::{reports, CoreError};
use crate::status::ProviderKind;
use crate::text::{is_blank, is_blank_str, owned, trim};

verus! {

/// Provider settings for speech-to-text integration.
#[derive(Clone, Debug, PartialEq, Eq)]
pub struct ProviderConfig {
    pub kind: ProviderKind,
    pub base_url: Option<String>,
    pub model: String,
    pub api_key: SecretSource,
}

/// The first rule that a provider configuration breaks, as its message.
pub open spec fn provider_problem(c: ProviderConfig) -> Option<Seq<char>> {
    if trim(c.model@).len() == 0 {
        Some("provider.model must not be empty"@)
    } else if c.kind == ProviderKind::OpenAiCompatible && (c.base_url is None
        || c.base_url->0@.len() == 0) {
        Some("provider.base_url is required for openai-compatible"@)
    } else if c.base_url is Some && trim(c.base_url->0@).len() == 0 {
        Some("provider.base_url must not be empty when provided"@)
    } else if c.kind != ProviderKind::OpenAiCompatible && c.api_key@ is Empty {
        Some("provider.api_key must not be empty unless kind is openai-compatible"@)
    } else {
        None
    }
}

impl ProviderConfig {
    /// Checks the provider rules in order and reports the first one broken.
    pub fn validate(&self) -> (r: Result<(), CoreError>)
        ensures
            reports(r, provider_problem(*self)),
    {
        if is_blank_str(self.model.as_str()) {
            return Err(CoreError::InvalidConfig(owned("provider.model must not be empty")));
        }
        let compatible = match self.kind {
            ProviderKind::OpenAiCompatible => true,
            _ => false,
        };
        let base_url_missing = match &self.base_url {
            None => true,
            Some(url) => url.as_str().is_empty(),
        };
        if compatible && base_url_missing {
            return Err(
                CoreError::InvalidConfig(
                    owned("provider.base_url is required for openai-compatible"),
                ),
            );
        }
        if let Some(base_url) = &self.base_url {
            if is_blank_str(base_url.as_str()) {
                return Err(
                    CoreError::InvalidConfig(
                        owned("provider.base_url must not be empty when provided"),
                    ),
                );
            }
        }
        let key_empty = match self.api_key {
            SecretSource::Empty => true,
            _ => false,
        };
        if !compatible && key_empty {
            return Err(
                CoreError::InvalidConfig(
                    owned("provider.api_key must not be empty unless kind is openai-compatible"),
                ),
            );
        }
        let _ = self.api_key.describe();
        Ok(())
    }
}

/// A provider configuration passes exactly when the model holds more than
/// whitespace, a given base URL does too, an OpenAI-compatible provider has
/// a non-empty base URL, and every other provider has an API key source.
pub proof fn law_provider_config_rules(c: ProviderConfig)
    ensures
        provider_problem(c) is None <==> {
            &&& !is_blank(c.model@)
            &&& c.base_url matches Some(u) ==> !is_blank(u@)
            &&& c.kind == ProviderKind::OpenAiCompatible ==> (c.base_url matches Some(u) && u@.len()
                > 0)
            &&& c.kind != ProviderKind::OpenAiCompatible ==> !(c.api_key@ is Empty)
        },
{
    crate::text::lemma_trim_empty_iff_blank(c.model@);
    if let Some(u) = c.base_url {
        crate::text::lemma_trim_empty_iff_blank(u@);
    }
}

} // verus!
