//! The failures the library reports to its callers.

use vstd::prelude::*;
use vstd::string::StringExecFns;

verus! {

/// Why a server configuration cannot be used. Either kind is final: a server
/// must not start on a configuration that is only partly valid.
#[derive(Debug)]
pub enum ConfigurationError {
    /// The stored settings could not be read as settings at all.
    MalformedSettings,
    /// The pattern of the redaction rule at `rule_index` does not compile.
    InvalidPattern { rule_index: usize, pattern: String, replacement: String },
}

/// The mathematical content of a [`ConfigurationError`].
pub ghost enum ConfigurationErrorView {
    MalformedSettings,
    InvalidPattern { rule_index: nat, pattern: Seq<char>, replacement: Seq<char> },
}

impl View for ConfigurationError {
    type V = ConfigurationErrorView;

    open spec fn view(&self) -> ConfigurationErrorView {
        match self {
            ConfigurationError::MalformedSettings => ConfigurationErrorView::MalformedSettings,
            ConfigurationError::InvalidPattern { rule_index, pattern, replacement } =>
                ConfigurationErrorView::InvalidPattern {
                    rule_index: *rule_index as nat,
                    pattern: pattern@,
                    replacement: replacement@,
                },
        }
    }
}

/// The text that tells an operator what is wrong with the configuration.
pub open spec fn message_text(error: ConfigurationErrorView) -> Seq<char> {
    match error {
        ConfigurationErrorView::MalformedSettings =>
            "Failed parse server config. Please delete server config from config file and re-create it."@,
        ConfigurationErrorView::InvalidPattern { rule_index, pattern, replacement } =>
            "Invalid regex pattern in server configuration for rule: '"@ + pattern
                + "'. Replacement: '"@ + replacement + "'"@,
    }
}

impl ConfigurationError {
    /// The text that tells an operator what is wrong with the configuration.
    pub fn message(&self) -> (text: String)
        ensures
            text@ == message_text(self@),
    {
        match self {
            ConfigurationError::MalformedSettings => {
                "Failed parse server config. Please delete server config from config file and re-create it.".to_string()
            },
            ConfigurationError::InvalidPattern { rule_index: _, pattern, replacement } => {
                let mut text = "Invalid regex pattern in server configuration for rule: '".to_string();
                text.append(pattern.as_str());
                text.append("'. Replacement: '");
                text.append(replacement.as_str());
                text.append("'");
                text
            },
        }
    }
}

/// Why a write was turned away. The store is untouched in both cases.
#[derive(Debug, Clone, Copy, PartialEq, Eq, Structural)]
pub enum AuthorizationError {
    /// The request carried no credential.
    MissingCredential,
    /// The credential, once trimmed, is not the shared secret.
    WrongCredential,
}

} // verus!
