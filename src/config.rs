//! Service configuration values.
use vstd::prelude::*;

verus! {

/// Where this service runs and where its peers are.
#[derive(Clone, Debug, Default)]
pub struct ServiceConfig {
    pub env: String,
    pub service_grpc_url: String,
    pub common_service_grpc_url: String,
}

/// The service's own configuration file.
#[derive(Clone, Debug, Default)]
pub struct Config {
    pub service: ServiceConfig,
}

/// What the client of the common configuration service is built from.
#[derive(Debug)]
pub struct CommonArgs {
    pub service_config: Config,
}

/// Languages that messages can be shown in.
#[derive(Debug)]
pub struct LanguageSettings {
    pub available_languages: Vec<String>,
    pub default_language: String,
}

impl LanguageSettings {
    /// Settings with the configured default locale, English when none is configured.
    pub fn new(available_languages: Vec<String>, default_locale: Option<String>) -> (r:
        LanguageSettings)
        ensures
            r.available_languages == available_languages,
            r.default_language@ == match default_locale {
                Some(l) => l@,
                None => "en"@,
            },
    {
        let default_language = match default_locale {
            Some(l) => l,
            None => String::from_str("en"),
        };
        LanguageSettings { available_languages, default_language }
    }

    /// The language to show messages in: the caller's accept-language, or the default
    /// language when the caller sent none.
    pub fn message_language(&self, accept_language: &str) -> (r: String)
        ensures
            r@ == if accept_language@.len() == 0 {
                self.default_language@
            } else {
                accept_language@
            },
    {
        if accept_language.unicode_len() == 0 {
            self.default_language.clone()
        } else {
            accept_language.to_owned()
        }
    }
}

} // verus!
