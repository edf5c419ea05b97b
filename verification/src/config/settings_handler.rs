//! Where settings are kept, and how stored settings become usable ones.

use crate::config::settings::ServerSettings;
use crate::config::settings::ServerSettingsView;
use crate::error::ConfigurationError;
use crate::error::ConfigurationErrorView;
use crate::filter::filter_rule::all_accepted;
use crate::filter::filter_rule::compile_rules;
use crate::filter::filter_rule::compiled_views;
use crate::filter::filter_rule::first_rejected_at;
use crate::filter::filter_rule::invalid_pattern_at;
use crate::filter::filter_rule::rule_views;
use vstd::prelude::*;

verus! {

/// The mathematical content of a [`SettingsPath`].
pub ghost struct SettingsPathView {
    pub directory: Seq<char>,
    pub file_stem: Seq<char>,
    pub extension: Seq<char>,
}

/// The place of a settings file, by its parts: the file `file_stem` with
/// extension `extension` in the directory `directory`, relative to where the
/// program runs. Joining the parts is left to the platform's path type.
#[derive(Debug)]
pub struct SettingsPath {
    pub directory: String,
    pub file_stem: String,
    pub extension: String,
}

impl View for SettingsPath {
    type V = SettingsPathView;

    open spec fn view(&self) -> SettingsPathView {
        SettingsPathView {
            directory: self.directory@,
            file_stem: self.file_stem@,
            extension: self.extension@,
        }
    }
}

/// Where the client keeps its settings.
pub fn get_client_settings_path_buf() -> (path: SettingsPath)
    ensures
        path@ == (SettingsPathView {
            directory: "config"@,
            file_stem: "client-settings"@,
            extension: "yml"@,
        }),
{
    SettingsPath {
        directory: "config".to_string(),
        file_stem: "client-settings".to_string(),
        extension: "yml".to_string(),
    }
}

/// Where the server keeps its settings.
pub fn get_server_settings_path_buf() -> (path: SettingsPath)
    ensures
        path@ == (SettingsPathView {
            directory: "config"@,
            file_stem: "server-settings"@,
            extension: "yml"@,
        }),
{
    SettingsPath {
        directory: "config".to_string(),
        file_stem: "server-settings".to_string(),
        extension: "yml".to_string(),
    }
}

/// What to do with the text found where settings are kept.
#[derive(Debug, Clone, Copy, PartialEq, Eq, Structural)]
pub enum SettingsPlan {
    /// Nothing is stored yet: take the defaults and store them.
    CreateDefaults,
    /// Settings are stored: they are to be parsed.
    Parse,
}

/// Decides between a first run and a stored configuration. A file that is
/// missing is handed in as the empty text, and an empty file counts as
/// missing.
pub fn plan_for_stored_settings(content: &str) -> (plan: SettingsPlan)
    ensures
        plan == (if content@.len() == 0 {
            SettingsPlan::CreateDefaults
        } else {
            SettingsPlan::Parse
        }),
{
    if content.is_empty() {
        SettingsPlan::CreateDefaults
    } else {
        SettingsPlan::Parse
    }
}

/// Server settings with every redaction rule compiled from its own pattern.
pub open spec fn with_compiled_rules(settings: ServerSettingsView) -> ServerSettingsView {
    ServerSettingsView {
        host: settings.host,
        key: settings.key,
        timeout_secs: settings.timeout_secs,
        filter_rule: compiled_views(settings.filter_rule),
    }
}

/// Turns what parsing the stored server settings gave into settings that a
/// server may start on, or into the error that stops it.
///
/// `None` stands for stored text that is no settings at all. Parsed settings
/// are usable exactly when `regex` accepts the pattern of every redaction
/// rule, as settings without rules always are; otherwise the error names the
/// first rule whose pattern is turned down.
pub fn initialize_server_settings(parsed: Option<ServerSettings>) -> (outcome: Result<
    ServerSettings,
    ConfigurationError,
>)
    ensures
        match parsed {
            None => outcome matches Err(error) && error@
                == ConfigurationErrorView::MalformedSettings,
            Some(settings) => match outcome {
                Ok(usable) => usable@ == with_compiled_rules(settings@),
                Err(error) => exists|i: int| #[trigger]
                    first_rejected_at(settings@.filter_rule, i) && error@ == invalid_pattern_at(
                        settings@.filter_rule,
                        i,
                    ),
            },
        },
        outcome is Ok <==> (parsed matches Some(settings) && all_accepted(settings@.filter_rule)),
        parsed matches Some(settings) && settings@.filter_rule.len() == 0 ==> outcome is Ok,
{
    match parsed {
        None => Err(ConfigurationError::MalformedSettings),
        Some(settings) => {
            match compile_rules(&settings.filter_rule) {
                Ok(compiled) => Ok(
                    ServerSettings {
                        host: settings.host,
                        key: settings.key,
                        timeout_secs: settings.timeout_secs,
                        filter_rule: compiled,
                    },
                ),
                Err(error) => {
                    assert(settings@.filter_rule == rule_views(settings.filter_rule@));
                    Err(error)
                },
            }
        },
    }
}

} // verus!
