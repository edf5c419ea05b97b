//! The status record that clients report and the aggregator serves.

use vstd::prelude::*;

verus! {

/// The mathematical content of a [`Status`]: its four text fields.
pub ghost struct StatusView {
    pub title: Seq<char>,
    pub app_name: Seq<char>,
    pub os_name: Seq<char>,
    pub force_status_type: Seq<char>,
}

/// A snapshot of what a user is doing on one device.
///
/// All four fields are always present. `os_name` doubles as the identity of
/// the reporting device; `force_status_type` is a control tag that is carried
/// along untouched.
#[derive(Debug)]
pub struct Status {
    pub title: String,
    pub app_name: String,
    pub os_name: String,
    pub force_status_type: String,
}

impl View for Status {
    type V = StatusView;

    open spec fn view(&self) -> StatusView {
        StatusView {
            title: self.title@,
            app_name: self.app_name@,
            os_name: self.os_name@,
            force_status_type: self.force_status_type@,
        }
    }
}

impl Clone for Status {
    fn clone(&self) -> (copy: Self)
        ensures
            copy@ == self@,
    {
        Status {
            title: self.title.clone(),
            app_name: self.app_name.clone(),
            os_name: self.os_name.clone(),
            force_status_type: self.force_status_type.clone(),
        }
    }
}

/// The text that stands for "unknown" in any field.
pub open spec fn na_text() -> Seq<char> {
    "N/A"@
}

/// The status that stands for a device from which nothing recent is known.
pub open spec fn offline_view() -> StatusView {
    StatusView {
        title: "Client is currently offline."@,
        app_name: "Offline"@,
        os_name: "Offline"@,
        force_status_type: na_text(),
    }
}

impl Status {
    /// A status of the reporting machine itself, whose operating system name
    /// the caller supplies. No override tag is set.
    pub fn new(title: String, app_name: String, os_name: String) -> (status: Status)
        ensures
            status@ == (StatusView {
                title: title@,
                app_name: app_name@,
                os_name: os_name@,
                force_status_type: na_text(),
            }),
    {
        Status { title, app_name, os_name, force_status_type: "N/A".to_string() }
    }

    /// A status reported on behalf of the device named `os_name`.
    pub fn with_os(title: String, app_name: String, os_name: String) -> (status: Status)
        ensures
            status@ == (StatusView {
                title: title@,
                app_name: app_name@,
                os_name: os_name@,
                force_status_type: na_text(),
            }),
    {
        Status { title, app_name, os_name, force_status_type: "N/A".to_string() }
    }

    /// A status of the reporting machine that carries an override tag.
    pub fn with_forced_status(
        title: String,
        app_name: String,
        os_name: String,
        force_status_type: String,
    ) -> (status: Status)
        ensures
            status@ == (StatusView {
                title: title@,
                app_name: app_name@,
                os_name: os_name@,
                force_status_type: force_status_type@,
            }),
    {
        Status { title, app_name, os_name, force_status_type }
    }

    /// The "unknown" status of the reporting machine: every field but the
    /// device identity reads `N/A`.
    pub fn na(os_name: String) -> (status: Status)
        ensures
            status@ == (StatusView {
                title: na_text(),
                app_name: na_text(),
                os_name: os_name@,
                force_status_type: na_text(),
            }),
    {
        Status::new("N/A".to_string(), "N/A".to_string(), os_name)
    }

    /// What a client reports after looking for its active window: the
    /// window's title and application where it found one, "unknown" where it
    /// did not.
    pub fn of_active_window(window: Option<(String, String)>, os_name: String) -> (status: Status)
        ensures
            status@ == (match window {
                Some(found) => StatusView {
                    title: found.0@,
                    app_name: found.1@,
                    os_name: os_name@,
                    force_status_type: na_text(),
                },
                None => StatusView {
                    title: na_text(),
                    app_name: na_text(),
                    os_name: os_name@,
                    force_status_type: na_text(),
                },
            }),
    {
        match window {
            Some((title, app_name)) => Status::new(title, app_name, os_name),
            None => Status::na(os_name),
        }
    }

    /// The sentinel served in place of a device that is absent or stale.
    pub fn offline() -> (status: Status)
        ensures
            status@ == offline_view(),
    {
        Status {
            title: "Client is currently offline.".to_string(),
            app_name: "Offline".to_string(),
            os_name: "Offline".to_string(),
            force_status_type: "N/A".to_string(),
        }
    }
}

} // verus!
