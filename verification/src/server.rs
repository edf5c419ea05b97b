//! The two operations that the server offers over its transport: a write
//! that must be authorized, and a read that anyone may make.

use crate::auth::authorize;
use crate::auth::authorized;
use crate::auth::credential_view;
use crate::auth::verdict_on;
use crate::device_manager::status_or_offline;
use crate::device_manager::DeviceTracker;
use crate::error::AuthorizationError;
use crate::filter::filter_manager::redact_status;
use crate::presence::fresh_statuses;
use crate::presence::lists;
use crate::presence::status_views;
use crate::presence::upserted;
use crate::status::Status;
use vstd::prelude::*;

verus! {

/// Handles a write received at `now`. The report reaches the tracker only if
/// the request's credential, trimmed, is the shared secret `key`; a request
/// that is turned away leaves the tracker exactly as it was, so nothing a
/// reader is served afterwards can differ. An accepted report comes back as
/// it was stored.
pub fn put_status(
    tracker: &mut DeviceTracker,
    key: &str,
    authorization: Option<&str>,
    new_status: &Status,
    now: u128,
) -> (response: Result<Status, AuthorizationError>)
    ensures
        match verdict_on(credential_view(authorization), key@) {
            Ok(_) => response matches Ok(stored) && stored@ == redact_status(
                old(tracker).rules(),
                new_status@,
            ) && final(tracker)@ == upserted(old(tracker)@, stored@, now as nat),
            Err(refusal) => response matches Err(given) && given == refusal && *final(tracker)
                == *old(tracker),
        },
        response is Ok <==> authorized(credential_view(authorization), key@),
        final(tracker).timeout() == old(tracker).timeout(),
        final(tracker).rules() == old(tracker).rules(),
{
    match authorize(authorization, key) {
        Ok(()) => Ok(tracker.update_status(new_status, now)),
        Err(refusal) => Err(refusal),
    }
}

/// What a read is answered with.
#[derive(Debug)]
pub enum ServedStatus {
    /// The answer of a server with a single reporter: the status of that one
    /// device, or the offline sentinel in its place.
    One(Status),
    /// The answer of a server with many reporters: the statuses of all
    /// devices that are fresh.
    All(Vec<Status>),
}

/// Handles a read at `now`. Reads need no credential.
///
/// A server with a single reporter names that device in `single_device` and
/// answers with one status: the device's while its record is fresh, the
/// offline sentinel while the device is stale or has never reported. Without
/// such a device the answer is the statuses of all devices that are fresh,
/// in no particular order.
pub fn get_status(
    tracker: &DeviceTracker,
    single_device: Option<&str>,
    now: u128,
) -> (served: ServedStatus)
    ensures
        match single_device {
            Some(device) => served matches ServedStatus::One(status) && status@
                == status_or_offline(tracker@, device@, now as nat, tracker.timeout()),
            None => served matches ServedStatus::All(statuses) && lists(
                status_views(statuses@),
                fresh_statuses(tracker@, now as nat, tracker.timeout()),
            ),
        },
{
    match single_device {
        Some(device) => ServedStatus::One(tracker.get_device_status(device, now)),
        None => ServedStatus::All(tracker.get_active_statuses(now)),
    }
}

/// The HTTP status code that answers a write: 200 when it was accepted, 401
/// when it was turned away.
pub fn response_code(response: &Result<Status, AuthorizationError>) -> (code: u16)
    ensures
        code == (if response is Ok {
            200u16
        } else {
            401u16
        }),
{
    match response {
        Ok(_) => 200,
        Err(_) => 401,
    }
}

} // verus!
