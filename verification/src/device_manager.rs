//! The aggregation service: redacts what is reported, keeps it in the
//! presence store, and serves what is still fresh.

use crate::filter::filter_manager::filter_status;
use crate::filter::filter_manager::redact_status;
use crate::filter::filter_rule::rule_views;
use crate::filter::filter_rule::FilterRule;
use crate::filter::filter_rule::FilterRuleView;
pub use crate::presence::DeviceStatus;
use crate::presence::fresh_statuses;
use crate::presence::lists;
use crate::presence::status_views;
use crate::presence::upserted;
use crate::presence::DeviceStatusView;
use crate::presence::PresenceStore;
use crate::status::offline_view;
use crate::status::Status;
use crate::status::StatusView;
use vstd::prelude::*;

verus! {

/// What a reader of a single device is served at `now`: the device's status
/// while its record is fresh, the offline sentinel otherwise.
pub open spec fn status_or_offline(
    store: Map<Seq<char>, DeviceStatusView>,
    device: Seq<char>,
    now: nat,
    timeout: nat,
) -> StatusView {
    if fresh_statuses(store, now, timeout).dom().contains(device) {
        fresh_statuses(store, now, timeout)[device]
    } else {
        offline_view()
    }
}

/// Tracks the latest status of every device that reports to it.
///
/// The timeout and the redaction rules are fixed when the tracker is made.
/// Time is handed in by the caller, who reads the clock.
pub struct DeviceTracker {
    statuses: PresenceStore,
    timeout_ms: u128,
    rules: Vec<FilterRule>,
}

impl View for DeviceTracker {
    type V = Map<Seq<char>, DeviceStatusView>;

    /// The presence store: each device's latest record.
    closed spec fn view(&self) -> Map<Seq<char>, DeviceStatusView> {
        self.statuses@
    }
}

impl DeviceTracker {
    /// The freshness timeout in milliseconds, as a mathematical value.
    pub closed spec fn timeout(&self) -> nat {
        self.timeout_ms as nat
    }

    /// The redaction rules, in the order in which they act.
    pub closed spec fn rules(&self) -> Seq<FilterRuleView> {
        rule_views(self.rules@)
    }

    /// Every record is kept under the name of the device it reports on, and
    /// the tracker holds finitely many devices.
    pub proof fn records_are_keyed_by_device(&self)
        ensures
            self@.dom().finite(),
            forall|device: Seq<char>| #[trigger]
                self@.dom().contains(device) ==> self@[device].status.os_name == device,
    {
        self.statuses.records_are_keyed_by_device();
    }

    /// A tracker that has heard from no device, with a timeout given in
    /// seconds and the rules by which it redacts.
    pub fn new(timeout_secs: u64, rules: Vec<FilterRule>) -> (tracker: DeviceTracker)
        ensures
            tracker@ == Map::<Seq<char>, DeviceStatusView>::empty(),
            tracker.timeout() == timeout_secs as nat * 1000,
            tracker.rules() == rule_views(rules@),
    {
        DeviceTracker {
            statuses: PresenceStore::new(),
            timeout_ms: (timeout_secs as u128) * 1000,
            rules,
        }
    }

    /// The freshness timeout in milliseconds.
    pub fn timeout_ms(&self) -> (timeout: u128)
        ensures
            timeout == self.timeout(),
    {
        self.timeout_ms
    }

    /// Takes a report received at `now`: redacts it, then stores it as the
    /// latest of its device, under the device name as redacted. The status
    /// comes back as it was stored, for the caller's records.
    pub fn update_status(&mut self, new_status: &Status, now: u128) -> (stored: Status)
        ensures
            stored@ == redact_status(old(self).rules(), new_status@),
            final(self)@ == upserted(old(self)@, stored@, now as nat),
            final(self).timeout() == old(self).timeout(),
            final(self).rules() == old(self).rules(),
    {
        let status = filter_status(&self.rules, new_status);
        let stored = status.clone();
        self.statuses.upsert(status, now);
        stored
    }

    /// The statuses of all devices that are fresh at `now`, in no particular
    /// order.
    pub fn get_active_statuses(&self, now: u128) -> (active: Vec<Status>)
        ensures
            lists(status_views(active@), fresh_statuses(self@, now as nat, self.timeout())),
    {
        self.statuses.snapshot_fresh(now, self.timeout_ms)
    }

    /// The status of the one device `device` at `now`, for deployments with
    /// a single reporter: the offline sentinel stands in while the device is
    /// absent or stale.
    pub fn get_device_status(&self, device: &str, now: u128) -> (status: Status)
        ensures
            status@ == status_or_offline(self@, device@, now as nat, self.timeout()),
    {
        match self.statuses.get(device) {
            Some(entry) => {
                if entry.is_fresh_at(now, self.timeout_ms) {
                    entry.status
                } else {
                    Status::offline()
                }
            },
            None => Status::offline(),
        }
    }
}

} // verus!
