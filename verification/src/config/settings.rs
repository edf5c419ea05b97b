//! The settings records and their defaults.

use crate::filter::filter_rule::rule_views;
use crate::filter::filter_rule::FilterRule;
use crate::filter::filter_rule::FilterRuleView;
use vstd::prelude::*;

verus! {

/// The mathematical content of [`ClientSettings`].
pub ghost struct ClientSettingsView {
    pub url: Seq<char>,
    pub key: Seq<char>,
    pub update_interval_secs: nat,
}

/// What a reporting client needs: where to report, the shared secret, and
/// how often to report.
#[derive(Debug)]
pub struct ClientSettings {
    pub url: String,
    pub key: String,
    pub update_interval_secs: u64,
}

impl View for ClientSettings {
    type V = ClientSettingsView;

    open spec fn view(&self) -> ClientSettingsView {
        ClientSettingsView {
            url: self.url@,
            key: self.key@,
            update_interval_secs: self.update_interval_secs as nat,
        }
    }
}

/// The mathematical content of [`ServerSettings`].
pub ghost struct ServerSettingsView {
    pub host: Seq<char>,
    pub key: Seq<char>,
    pub timeout_secs: nat,
    pub filter_rule: Seq<FilterRuleView>,
}

/// What the server needs: where to listen, the shared secret, the freshness
/// timeout in seconds, and the redaction rules in the order they act.
#[derive(Debug)]
pub struct ServerSettings {
    pub host: String,
    pub key: String,
    pub timeout_secs: u64,
    pub filter_rule: Vec<FilterRule>,
}

impl View for ServerSettings {
    type V = ServerSettingsView;

    open spec fn view(&self) -> ServerSettingsView {
        ServerSettingsView {
            host: self.host@,
            key: self.key@,
            timeout_secs: self.timeout_secs as nat,
            filter_rule: rule_views(self.filter_rule@),
        }
    }
}

/// The client settings of a first run.
pub open spec fn default_client_settings() -> ClientSettingsView {
    ClientSettingsView {
        url: "http://127.0.0.1:1239/api/status"@,
        key: " "@,
        update_interval_secs: 5,
    }
}

/// The server settings of a first run: no redaction rules, and a timeout of
/// twenty seconds.
pub open spec fn default_server_settings() -> ServerSettingsView {
    ServerSettingsView {
        host: "127.0.0.1:1239"@,
        key: " "@,
        timeout_secs: 20,
        filter_rule: Seq::empty(),
    }
}

impl Default for ClientSettings {
    fn default() -> (settings: Self)
        ensures
            settings@ == default_client_settings(),
    {
        ClientSettings {
            url: "http://127.0.0.1:1239/api/status".to_string(),
            key: " ".to_string(),
            update_interval_secs: 5,
        }
    }
}

impl Default for ServerSettings {
    fn default() -> (settings: Self)
        ensures
            settings@ == default_server_settings(),
    {
        let settings = ServerSettings {
            host: "127.0.0.1:1239".to_string(),
            key: " ".to_string(),
            timeout_secs: 20,
            filter_rule: Vec::new(),
        };
        assert(settings@.filter_rule =~= Seq::empty());
        settings
    }
}

} // verus!
