//! The presence store: the latest status of each device, with the time it
//! was received, and the freshness rule that decides what a reader sees.

use crate::status::Status;
use crate::status::StatusView;
use vstd::prelude::*;
use vstd::seq_lib::seq_to_set_is_finite;

verus! {

/// The mathematical content of a [`DeviceStatus`].
pub ghost struct DeviceStatusView {
    pub status: StatusView,
    pub last_update: nat,
}

/// The stored record of one device: its latest status, already redacted, and
/// the time of its receipt in milliseconds since the epoch.
#[derive(Debug)]
pub struct DeviceStatus {
    pub status: Status,
    pub last_update: u128,
}

impl View for DeviceStatus {
    type V = DeviceStatusView;

    open spec fn view(&self) -> DeviceStatusView {
        DeviceStatusView { status: self.status@, last_update: self.last_update as nat }
    }
}

impl DeviceStatus {
    /// Whether this record is still fresh at time `now` under `timeout`.
    pub fn is_fresh_at(&self, now: u128, timeout: u128) -> (fresh: bool)
        ensures
            fresh == is_fresh(self@.last_update, now as nat, timeout as nat),
    {
        now.saturating_sub(self.last_update) <= timeout
    }
}

impl Clone for DeviceStatus {
    fn clone(&self) -> (copy: Self)
        ensures
            copy@ == self@,
    {
        DeviceStatus { status: self.status.clone(), last_update: self.last_update }
    }
}

/// The age of a record at time `now`. A record from the future, as a skewed
/// clock may produce, has age zero.
pub open spec fn age(last_update: nat, now: nat) -> nat {
    if now >= last_update {
        (now - last_update) as nat
    } else {
        0
    }
}

/// A record is fresh while its age does not exceed the timeout.
pub open spec fn is_fresh(last_update: nat, now: nat, timeout: nat) -> bool {
    age(last_update, now) <= timeout
}

/// The store after a report: the record of the reporting device is replaced
/// as a whole, or created; every other device keeps its record.
pub open spec fn upserted(
    store: Map<Seq<char>, DeviceStatusView>,
    status: StatusView,
    now: nat,
) -> Map<Seq<char>, DeviceStatusView> {
    store.insert(status.os_name, DeviceStatusView { status, last_update: now })
}

/// What a reader sees at time `now`: the status of each device whose record
/// is fresh. Stale records are hidden, not removed.
pub open spec fn fresh_statuses(
    store: Map<Seq<char>, DeviceStatusView>,
    now: nat,
    timeout: nat,
) -> Map<Seq<char>, StatusView> {
    Map::new(
        |device: Seq<char>|
            store.dom().contains(device) && is_fresh(store[device].last_update, now, timeout),
        |device: Seq<char>| store[device].status,
    )
}

/// `statuses` lists `by_device` when it holds exactly the statuses of the
/// map, each once, in whatever order.
pub open spec fn lists(statuses: Seq<StatusView>, by_device: Map<Seq<char>, StatusView>) -> bool {
    &&& forall|i: int|
        0 <= i < statuses.len() ==> by_device.dom().contains((#[trigger] statuses[i]).os_name)
            && by_device[statuses[i].os_name] == statuses[i]
    &&& forall|device: Seq<char>| #[trigger]
        by_device.dom().contains(device) ==> exists|i: int|
            0 <= i < statuses.len() && (#[trigger] statuses[i]).os_name == device
    &&& forall|i: int, j: int|
        0 <= i < j < statuses.len() ==> (#[trigger] statuses[i]).os_name != (
        #[trigger] statuses[j]).os_name
}

/// The views of a list of statuses, in the same order.
pub open spec fn status_views(statuses: Seq<Status>) -> Seq<StatusView> {
    statuses.map_values(|status: Status| status@)
}

/// No two records belong to the same device.
spec fn distinct_devices(entries: Seq<DeviceStatus>) -> bool {
    forall|i: int, j: int|
        0 <= i < j < entries.len() ==> (#[trigger] entries[i])@.status.os_name != (
        #[trigger] entries[j])@.status.os_name
}

/// Whether the record at `i` belongs to `device`.
spec fn holds_at(entries: Seq<DeviceStatus>, device: Seq<char>, i: int) -> bool {
    0 <= i < entries.len() && entries[i]@.status.os_name == device
}

/// The map that a list of records stands for.
spec fn as_map(entries: Seq<DeviceStatus>) -> Map<Seq<char>, DeviceStatusView> {
    Map::new(
        |device: Seq<char>| exists|i: int| holds_at(entries, device, i),
        |device: Seq<char>| entries[choose|i: int| holds_at(entries, device, i)]@,
    )
}

/// Among distinct records, the record at `i` is the one its device maps to.
proof fn lemma_as_map_at(entries: Seq<DeviceStatus>, i: int)
    requires
        distinct_devices(entries),
        0 <= i < entries.len(),
    ensures
        as_map(entries).dom().contains(entries[i]@.status.os_name),
        as_map(entries)[entries[i]@.status.os_name] == entries[i]@,
{
    let device = entries[i]@.status.os_name;
    assert(holds_at(entries, device, i));
    let k = choose|k: int| holds_at(entries, device, k);
    assert(k == i);
}

/// Putting `entry` in the place of its device's record, or behind all records
/// where its device has none, keeps the records distinct and upserts the map
/// they stand for.
proof fn lemma_upsert_at(
    before: Seq<DeviceStatus>,
    after: Seq<DeviceStatus>,
    entry: DeviceStatus,
    i: int,
)
    requires
        distinct_devices(before),
        0 <= i <= before.len(),
        forall|k: int| 0 <= k < i ==> !holds_at(before, entry@.status.os_name, k),
        i < before.len() ==> holds_at(before, entry@.status.os_name, i) && after == before.update(
            i,
            entry,
        ),
        i == before.len() ==> after == before.push(entry),
    ensures
        distinct_devices(after),
        as_map(after) == upserted(as_map(before), entry@.status, entry@.last_update),
{
    let device = entry@.status.os_name;
    let target = upserted(as_map(before), entry@.status, entry@.last_update);
    assert(holds_at(after, device, i));
    assert forall|a: int, b: int| 0 <= a < b < after.len() implies (
    #[trigger] after[a])@.status.os_name != (#[trigger] after[b])@.status.os_name by {
        if a != i && b != i {
            assert(before[a]@.status.os_name != before[b]@.status.os_name);
        } else if i < before.len() {
            assert(before[a]@.status.os_name != before[b]@.status.os_name);
        } else {
            assert(!holds_at(before, device, a));
        }
    }
    assert forall|other: Seq<char>| as_map(after).dom().contains(other) == target.dom().contains(
        other,
    ) by {
        if other != device {
            if as_map(after).dom().contains(other) {
                let k = choose|k: int| holds_at(after, other, k);
                assert(holds_at(before, other, k));
            }
            if as_map(before).dom().contains(other) {
                let k = choose|k: int| holds_at(before, other, k);
                assert(holds_at(after, other, k));
            }
        }
    }
    assert forall|other: Seq<char>| as_map(after).dom().contains(other) implies as_map(
        after,
    )[other] == target[other] by {
        let k = choose|k: int| holds_at(after, other, k);
        lemma_as_map_at(after, k);
        if other != device {
            assert(holds_at(before, other, k));
            lemma_as_map_at(before, k);
        }
    }
    assert(as_map(after) =~= target);
}

/// The latest status of each device, keyed by the device's name.
///
/// A device enters the store with its first report and never leaves it.
pub struct PresenceStore {
    entries: Vec<DeviceStatus>,
}

impl View for PresenceStore {
    type V = Map<Seq<char>, DeviceStatusView>;

    closed spec fn view(&self) -> Map<Seq<char>, DeviceStatusView> {
        as_map(self.entries@)
    }
}

impl PresenceStore {
    #[verifier::type_invariant]
    spec fn well_formed(self) -> bool {
        distinct_devices(self.entries@)
    }

    /// Every record is kept under the name of the device it reports on, and
    /// the store holds finitely many devices.
    pub proof fn records_are_keyed_by_device(&self)
        ensures
            self@.dom().finite(),
            forall|device: Seq<char>| #[trigger]
                self@.dom().contains(device) ==> self@[device].status.os_name == device,
    {
        let entries = self.entries@;
        let names = entries.map_values(|entry: DeviceStatus| entry@.status.os_name);
        assert forall|device: Seq<char>| #[trigger]
            self@.dom().contains(device) implies self@[device].status.os_name == device
            && names.to_set().contains(device) by {
            let i = choose|i: int| holds_at(entries, device, i);
            assert(names[i] == device);
        }
        seq_to_set_is_finite(names);
        vstd::set_lib::lemma_len_subset(self@.dom(), names.to_set());
    }

    /// A store that has heard from no device.
    pub fn new() -> (store: PresenceStore)
        ensures
            store@ == Map::<Seq<char>, DeviceStatusView>::empty(),
    {
        let store = PresenceStore { entries: Vec::new() };
        assert(store@ =~= Map::<Seq<char>, DeviceStatusView>::empty());
        store
    }

    /// Records `status` as the latest of its device, received at `now`.
    pub fn upsert(&mut self, status: Status, now: u128)
        ensures
            final(self)@ == upserted(old(self)@, status@, now as nat),
    {
        proof {
            use_type_invariant(&*self);
        }
        let mut entries: Vec<DeviceStatus> = Vec::new();
        std::mem::swap(&mut entries, &mut self.entries);
        let ghost before = entries@;
        let mut i: usize = 0;
        while i < entries.len() && entries[i].status.os_name != status.os_name
            invariant
                i <= entries@.len(),
                entries@ == before,
                distinct_devices(before),
                forall|k: int| 0 <= k < i ==> !holds_at(before, status@.os_name, k),
            decreases entries@.len() - i,
        {
            i += 1;
        }
        let entry = DeviceStatus { status, last_update: now };
        if i < entries.len() {
            entries.set(i, entry);
        } else {
            entries.push(entry);
        }
        proof {
            lemma_upsert_at(before, entries@, entry, i as int);
        }
        self.entries = entries;
    }

    /// The record of `device`, if the store has ever heard from it.
    pub fn get(&self, device: &str) -> (found: Option<DeviceStatus>)
        ensures
            match found {
                Some(entry) => self@.dom().contains(device@) && entry@ == self@[device@],
                None => !self@.dom().contains(device@),
            },
    {
        proof {
            use_type_invariant(self);
        }
        let name = device.to_string();
        let mut i: usize = 0;
        while i < self.entries.len()
            invariant
                i <= self.entries@.len(),
                name@ == device@,
                distinct_devices(self.entries@),
                forall|k: int| 0 <= k < i ==> !holds_at(self.entries@, device@, k),
            decreases self.entries@.len() - i,
        {
            if self.entries[i].status.os_name == name {
                proof {
                    lemma_as_map_at(self.entries@, i as int);
                }
                return Some(self.entries[i].clone());
            }
            i += 1;
        }
        None
    }

    /// The statuses of all devices whose record is fresh at `now`, in no
    /// particular order. The store itself is left as it is.
    pub fn snapshot_fresh(&self, now: u128, timeout: u128) -> (statuses: Vec<Status>)
        ensures
            lists(status_views(statuses@), fresh_statuses(self@, now as nat, timeout as nat)),
    {
        proof {
            use_type_invariant(self);
        }
        let mut statuses: Vec<Status> = Vec::new();
        let ghost mut picked: Seq<int> = Seq::empty();
        let mut i: usize = 0;
        while i < self.entries.len()
            invariant
                i <= self.entries@.len(),
                distinct_devices(self.entries@),
                picked.len() == statuses@.len(),
                forall|j: int|
                    0 <= j < picked.len() ==> 0 <= #[trigger] picked[j] < i && statuses@[j]@
                        == self.entries@[picked[j]]@.status && is_fresh(
                        self.entries@[picked[j]]@.last_update,
                        now as nat,
                        timeout as nat,
                    ),
                forall|j: int, k: int|
                    0 <= j < k < picked.len() ==> #[trigger] picked[j] < #[trigger] picked[k],
                forall|k: int|
                    0 <= k < i && is_fresh(
                        (#[trigger] self.entries@[k])@.last_update,
                        now as nat,
                        timeout as nat,
                    ) ==> exists|j: int| 0 <= j < picked.len() && picked[j] == k,
            decreases self.entries@.len() - i,
        {
            if self.entries[i].is_fresh_at(now, timeout) {
                statuses.push(self.entries[i].status.clone());
                proof {
                    let earlier = picked;
                    picked = picked.push(i as int);
                    assert forall|k: int|
                        0 <= k < i + 1 && is_fresh(
                            (#[trigger] self.entries@[k])@.last_update,
                            now as nat,
                            timeout as nat,
                        ) implies exists|j: int| 0 <= j < picked.len() && picked[j] == k by {
                        if k < i {
                            let j = choose|j: int| 0 <= j < earlier.len() && earlier[j] == k;
                            assert(picked[j] == k);
                        } else {
                            assert(picked[earlier.len() as int] == k);
                        }
                    }
                }
            }
            i += 1;
        }
        proof {
            let entries = self.entries@;
            let seen = status_views(statuses@);
            let fresh = fresh_statuses(self@, now as nat, timeout as nat);
            assert forall|j: int| 0 <= j < seen.len() implies fresh.dom().contains(
                (#[trigger] seen[j]).os_name,
            ) && fresh[seen[j].os_name] == seen[j] by {
                lemma_as_map_at(entries, picked[j]);
            }
            assert forall|device: Seq<char>| #[trigger]
                fresh.dom().contains(device) implies exists|j: int|
                0 <= j < seen.len() && (#[trigger] seen[j]).os_name == device by {
                let k = choose|k: int| holds_at(entries, device, k);
                lemma_as_map_at(entries, k);
                let j = choose|j: int| 0 <= j < picked.len() && picked[j] == k;
                assert(seen[j].os_name == device);
            }
            assert forall|a: int, b: int| 0 <= a < b < seen.len() implies (
            #[trigger] seen[a]).os_name != (#[trigger] seen[b]).os_name by {
                assert(picked[a] < picked[b]);
                assert(entries[picked[a]]@.status.os_name != entries[picked[b]]@.status.os_name);
            }
        }
        statuses
    }
}

/// A listing holds one status for each device of the map and nothing else:
/// it is as long as the map has devices, and the status of every device of
/// the map is found in it.
pub proof fn listing_has_one_status_per_device(
    statuses: Seq<StatusView>,
    by_device: Map<Seq<char>, StatusView>,
)
    requires
        lists(statuses, by_device),
    ensures
        by_device.dom().finite(),
        by_device.dom().len() == statuses.len(),
        forall|device: Seq<char>| #[trigger]
            by_device.dom().contains(device) ==> statuses.contains(by_device[device]),
        forall|i: int|
            0 <= i < statuses.len() ==> by_device.contains_pair(
                (#[trigger] statuses[i]).os_name,
                statuses[i],
            ),
{
    let names = statuses.map_values(|status: StatusView| status.os_name);
    assert forall|i: int, j: int|
        0 <= i < names.len() && 0 <= j < names.len() && i != j implies names[i] != names[j] by {
        if i < j {
            assert(statuses[i].os_name != statuses[j].os_name);
        } else {
            assert(statuses[j].os_name != statuses[i].os_name);
        }
    }
    assert forall|device: Seq<char>| names.to_set().contains(device) == by_device.dom().contains(
        device,
    ) by {
        if names.to_set().contains(device) {
            let i = choose|i: int| 0 <= i < names.len() && names[i] == device;
            assert(by_device.dom().contains(statuses[i].os_name));
        }
        if by_device.dom().contains(device) {
            let i = choose|i: int| 0 <= i < statuses.len() && statuses[i].os_name == device;
            assert(names[i] == device);
        }
    }
    assert(names.to_set() =~= by_device.dom());
    names.unique_seq_to_set();
    seq_to_set_is_finite(names);
    assert forall|device: Seq<char>| #[trigger]
        by_device.dom().contains(device) implies statuses.contains(by_device[device]) by {
        let i = choose|i: int| 0 <= i < statuses.len() && statuses[i].os_name == device;
        assert(statuses[i] == by_device[device]);
    }
}

/// The freshness boundary is inclusive: a record is still served when its
/// age is exactly the timeout, and no longer one millisecond later.
pub proof fn freshness_boundary(
    store: Map<Seq<char>, DeviceStatusView>,
    device: Seq<char>,
    timeout: nat,
)
    requires
        store.dom().contains(device),
    ensures
        fresh_statuses(store, store[device].last_update + timeout, timeout).dom().contains(device),
        !fresh_statuses(store, store[device].last_update + timeout + 1, timeout).dom().contains(
            device,
        ),
{
}

/// A record stamped later than the reader's clock is served, whatever the
/// timeout: its age counts as zero.
pub proof fn record_from_the_future_is_fresh(
    store: Map<Seq<char>, DeviceStatusView>,
    device: Seq<char>,
    now: nat,
    timeout: nat,
)
    requires
        store.dom().contains(device),
        now < store[device].last_update,
    ensures
        age(store[device].last_update, now) == 0,
        fresh_statuses(store, now, timeout).dom().contains(device),
        fresh_statuses(store, now, timeout)[device] == store[device].status,
{
}

/// A later report of a device replaces the earlier one as a whole: the store
/// is as if the earlier report had never arrived, and no field of it remains.
pub proof fn later_report_replaces_earlier(
    store: Map<Seq<char>, DeviceStatusView>,
    earlier: StatusView,
    earlier_time: nat,
    later: StatusView,
    later_time: nat,
)
    requires
        earlier.os_name == later.os_name,
    ensures
        upserted(upserted(store, earlier, earlier_time), later, later_time) == upserted(
            store,
            later,
            later_time,
        ),
        upserted(upserted(store, earlier, earlier_time), later, later_time)[later.os_name] == (
        DeviceStatusView { status: later, last_update: later_time }),
{
    assert(upserted(upserted(store, earlier, earlier_time), later, later_time) =~= upserted(
        store,
        later,
        later_time,
    ));
}

/// Reports of different devices do not disturb each other: in whichever
/// order the two are applied the store is the same, it holds both records,
/// and a reader for whom both are fresh is served both.
pub proof fn reports_of_different_devices_are_independent(
    store: Map<Seq<char>, DeviceStatusView>,
    one: StatusView,
    one_time: nat,
    other: StatusView,
    other_time: nat,
    now: nat,
    timeout: nat,
)
    requires
        one.os_name != other.os_name,
    ensures
        upserted(upserted(store, one, one_time), other, other_time) == upserted(
            upserted(store, other, other_time),
            one,
            one_time,
        ),
        upserted(upserted(store, one, one_time), other, other_time)[one.os_name] == (
        DeviceStatusView { status: one, last_update: one_time }),
        upserted(upserted(store, one, one_time), other, other_time)[other.os_name] == (
        DeviceStatusView { status: other, last_update: other_time }),
        is_fresh(one_time, now, timeout) ==> fresh_statuses(
            upserted(upserted(store, one, one_time), other, other_time),
            now,
            timeout,
        ).contains_pair(one.os_name, one),
        is_fresh(other_time, now, timeout) ==> fresh_statuses(
            upserted(upserted(store, one, one_time), other, other_time),
            now,
            timeout,
        ).contains_pair(other.os_name, other),
{
    assert(upserted(upserted(store, one, one_time), other, other_time) =~= upserted(
        upserted(store, other, other_time),
        one,
        one_time,
    ));
}

/// A report never makes the store forget a device, and reading never changes
/// the store: a stale record stays and is served again once a new report of
/// its device arrives.
pub proof fn devices_are_never_forgotten(
    store: Map<Seq<char>, DeviceStatusView>,
    status: StatusView,
    now: nat,
)
    ensures
        store.dom().subset_of(upserted(store, status, now).dom()),
        upserted(store, status, now).dom().contains(status.os_name),
        forall|later: nat, timeout: nat|
            is_fresh(now, later, timeout) ==> #[trigger] fresh_statuses(
                upserted(store, status, now),
                later,
                timeout,
            ).contains_pair(status.os_name, status),
{
}

} // verus!
