//! The decisions of the two background producers that change the registry.
//!
//! The event listener waits for attach and detach notifications.  An attach changes
//! nothing: the next scan will find the device.  A detach names a role; the entries of
//! the device that the role is bound to leave the registry at once.  When the stream of
//! notifications ends, the listener stops for good.
//!
//! The poll scanner scans over and over.  A scan that succeeds replaces the registry, a
//! scan that fails leaves it as it was.  After a scan that took longer than a second
//! the next one starts immediately, otherwise after a short pause.
//!
//! Waiting, scanning and sleeping are the caller's work; the functions here say what to
//! do with what came back.

use crate::models::{DeviceConfig, DeviceConfigModel, RawDevice, RawDeviceModel};
use crate::registry::{same_identity, without_identity, DeviceRegistry};
use vstd::prelude::*;

verus! {

/// A notification from the device monitor.
#[derive(Debug, PartialEq, Eq)]
pub enum DeviceEvent {
    /// A device was attached.
    Attached(RawDevice),
    /// The device that is bound to the named role was removed.
    Detached(String),
}

/// `i` is the position of the first rule in `rules` that is bound to `role`.
pub open spec fn is_first_bound(rules: Seq<DeviceConfigModel>, role: Seq<char>, i: int) -> bool {
    &&& 0 <= i < rules.len()
    &&& rules[i].role == role
    &&& forall|j: int| 0 <= j < i ==> (#[trigger] rules[j]).role != role
}

/// No rule in `rules` is bound to `role`.
pub open spec fn unbound(rules: Seq<DeviceConfigModel>, role: Seq<char>) -> bool {
    forall|j: int| 0 <= j < rules.len() ==> (#[trigger] rules[j]).role != role
}

/// The rule that `role` resolves to: the first one in `rules` that is bound to it.
pub open spec fn rule_of_role(rules: Seq<DeviceConfigModel>, role: Seq<char>) -> Option<
    DeviceConfigModel,
> {
    if exists|i: int| is_first_bound(rules, role, i) {
        Some(rules[choose|i: int| is_first_bound(rules, role, i)])
    } else {
        None
    }
}

/// The registry's contents after the device bound to `role` was detached: the entries
/// with the identity of the role's rule are gone; without such a rule nothing changes.
pub open spec fn after_detach(
    devices: Seq<RawDeviceModel>,
    rules: Seq<DeviceConfigModel>,
    role: Seq<char>,
) -> Seq<RawDeviceModel> {
    match rule_of_role(rules, role) {
        Some(rule) => without_identity(devices, rule),
        None => devices,
    }
}

/// At most one position is that of the first rule bound to a role.
pub proof fn lemma_first_bound_decides(rules: Seq<DeviceConfigModel>, role: Seq<char>, i: int)
    requires
        is_first_bound(rules, role, i),
    ensures
        rule_of_role(rules, role) == Some(rules[i]),
{
    let k = choose|k: int| is_first_bound(rules, role, k);
    if k < i {
        assert(rules[k].role != role);
    } else if i < k {
        assert(rules[i].role != role);
    }
}

/// A role that no rule is bound to resolves to nothing.
pub proof fn lemma_unbound_decides(rules: Seq<DeviceConfigModel>, role: Seq<char>)
    requires
        unbound(rules, role),
    ensures
        rule_of_role(rules, role) is None,
{
    if exists|i: int| is_first_bound(rules, role, i) {
        let k = choose|k: int| is_first_bound(rules, role, k);
        assert(rules[k].role != role);
    }
}

/// Removal is precise.  After the device bound to `role` was detached, no entry with
/// the vendor id, product id and serial number of the role's rule is left, every other
/// entry is still there, and nothing else has come in.  The entries with another
/// identity are the same before and after, in number and in order.  Where no entry had
/// the rule's identity, the registry is as it was.
pub proof fn lemma_detach_is_precise(
    devices: Seq<RawDeviceModel>,
    rules: Seq<DeviceConfigModel>,
    role: Seq<char>,
    i: int,
)
    requires
        is_first_bound(rules, role, i),
    ensures
        after_detach(devices, rules, role) == without_identity(devices, rules[i]),
        forall|n: int|
            0 <= n < after_detach(devices, rules, role).len() ==> !same_identity(
                rules[i],
                #[trigger] after_detach(devices, rules, role)[n],
            ),
        forall|n: int|
            0 <= n < devices.len() && !same_identity(rules[i], #[trigger] devices[n])
                ==> after_detach(devices, rules, role).contains(devices[n]),
        forall|n: int|
            0 <= n < after_detach(devices, rules, role).len() ==> devices.contains(
                #[trigger] after_detach(devices, rules, role)[n],
            ),
        without_identity(after_detach(devices, rules, role), rules[i]) == without_identity(
            devices,
            rules[i],
        ),
        (forall|n: int| 0 <= n < devices.len() ==> !same_identity(rules[i], #[trigger] devices[n]))
            ==> after_detach(devices, rules, role) == devices,
{
    broadcast use vstd::seq_lib::group_filter_ensures;

    lemma_first_bound_decides(rules, role, i);
    let keep = |d: RawDeviceModel| !same_identity(rules[i], d);
    let after = devices.filter(keep);
    assert forall|n: int| 0 <= n < after.len() implies devices.contains(#[trigger] after[n]) by {
        devices.lemma_filter_contains_rev(keep, after[n]);
    }
    lemma_filter_keeps_all(after, keep);
    if forall|n: int| 0 <= n < devices.len() ==> !same_identity(rules[i], #[trigger] devices[n]) {
        lemma_filter_keeps_all(devices, keep);
    }
}

/// A filter that every entry passes leaves the sequence as it is.
proof fn lemma_filter_keeps_all(s: Seq<RawDeviceModel>, keep: spec_fn(RawDeviceModel) -> bool)
    requires
        forall|n: int| 0 <= n < s.len() ==> keep(#[trigger] s[n]),
    ensures
        s.filter(keep) == s,
    decreases s.len(),
{
    reveal(Seq::filter);
    if s.len() > 0 {
        lemma_filter_keeps_all(s.drop_last(), keep);
        assert(s.drop_last().push(s.last()) =~= s);
    }
}

/// A detach for a role that no rule is bound to changes nothing.
pub proof fn lemma_detach_of_unbound_role(
    devices: Seq<RawDeviceModel>,
    rules: Seq<DeviceConfigModel>,
    role: Seq<char>,
)
    requires
        unbound(rules, role),
    ensures
        after_detach(devices, rules, role) == devices,
{
    lemma_unbound_decides(rules, role);
}

/// The position of the first rule that is bound to `role`, if there is one.
pub fn find_rule(rules: &[DeviceConfig], role: &String) -> (found: Option<usize>)
    ensures
        match found {
            Some(i) => is_first_bound(rules.deep_view(), role@, i as int),
            None => unbound(rules.deep_view(), role@),
        },
{
    let mut i: usize = 0;
    while i < rules.len()
        invariant
            i <= rules.len(),
            forall|j: int| 0 <= j < i ==> (#[trigger] rules.deep_view()[j]).role != role@,
        decreases rules.len() - i,
    {
        if rules[i].role == *role {
            return Some(i);
        }
        i += 1;
    }
    None
}

/// Removes from the registry the device that is bound to `role` and returns how many
/// entries went.
///
/// The role is resolved against `rules`.  Every entry whose vendor id, product id and
/// serial number equal those of the role's rule is removed, whatever its port path.
/// Where no rule is bound to the role, the registry is left as it is.
pub fn detach_role(registry: &mut DeviceRegistry, rules: &[DeviceConfig], role: &String) -> (removed:
    usize)
    ensures
        final(registry)@ == after_detach(old(registry)@, rules.deep_view(), role@),
        removed == old(registry)@.len() - final(registry)@.len(),
{
    match find_rule(rules, role) {
        Some(i) => {
            proof {
                lemma_first_bound_decides(rules.deep_view(), role@, i as int);
            }
            registry.remove_identity(&rules[i])
        },
        None => {
            proof {
                lemma_unbound_decides(rules.deep_view(), role@);
            }
            0
        },
    }
}

/// What the event listener does after it waited for a notification.
#[derive(Debug, PartialEq, Eq)]
pub enum ListenerStep {
    /// The stream of notifications has ended: the listener stops and is not started again.
    Stop,
    /// This device was attached: the registry is left alone, the next scan will find
    /// it, and the listener goes on.
    Leave(RawDevice),
    /// The device bound to this role was removed: its entries leave the registry and
    /// the listener goes on.
    Remove(String),
}

/// Decides the listener's next step from what the wait returned: a notification, or
/// `None` where the stream of notifications has ended.
pub fn next_step(received: Option<DeviceEvent>) -> (step: ListenerStep)
    ensures
        match received {
            None => step is Stop,
            Some(DeviceEvent::Attached(device)) => step == ListenerStep::Leave(device),
            Some(DeviceEvent::Detached(role)) => step == ListenerStep::Remove(role),
        },
{
    match received {
        None => ListenerStep::Stop,
        Some(DeviceEvent::Attached(device)) => ListenerStep::Leave(device),
        Some(DeviceEvent::Detached(role)) => ListenerStep::Remove(role),
    }
}

/// What tells one scanned device from another when scans are compared: vendor id,
/// product id and port path.
pub open spec fn fingerprint(raw: RawDeviceModel) -> (u16, u16, Seq<char>) {
    (raw.vid, raw.pid, raw.port_path)
}

/// The fingerprints of all of `devices`.
pub open spec fn fingerprints(devices: Seq<RawDeviceModel>) -> Set<(u16, u16, Seq<char>)> {
    devices.map_values(|d: RawDeviceModel| fingerprint(d)).to_set()
}

/// The devices in `devices` whose fingerprint is not in `seen`, in their order.
pub open spec fn newly_seen(devices: Seq<RawDeviceModel>, seen: Set<(u16, u16, Seq<char>)>) -> Seq<
    RawDeviceModel,
> {
    devices.filter(|d: RawDeviceModel| !seen.contains(fingerprint(d)))
}

/// What the poll scanner remembers between scans: the fingerprints of the devices that
/// the last successful scan found.
#[derive(Debug)]
pub struct PollState {
    seen: Vec<(u16, u16, String)>,
}

impl View for PollState {
    type V = Set<(u16, u16, Seq<char>)>;

    closed spec fn view(&self) -> Set<(u16, u16, Seq<char>)> {
        self.seen.deep_view().to_set()
    }
}

impl PollState {
    /// The state before the first scan: no device has been seen.
    pub fn new() -> (r: Self)
        ensures
            r@ == Set::<(u16, u16, Seq<char>)>::empty(),
    {
        let r = PollState { seen: Vec::new() };
        assert(r@ =~= Set::<(u16, u16, Seq<char>)>::empty());
        r
    }

    /// Tells whether the last successful scan found a device with the fingerprint of `raw`.
    pub fn has_seen(&self, raw: &RawDevice) -> (r: bool)
        ensures
            r == self@.contains(fingerprint(raw@)),
    {
        let mut i: usize = 0;
        while i < self.seen.len()
            invariant
                i <= self.seen.len(),
                forall|j: int| 0 <= j < i ==> #[trigger] self.seen.deep_view()[j] != fingerprint(raw@),
            decreases self.seen.len() - i,
        {
            let known = &self.seen[i];
            if known.0 == raw.vid && known.1 == raw.pid && known.2 == raw.port_path {
                assert(self.seen.deep_view()[i as int] == fingerprint(raw@));
                return true;
            }
            i += 1;
        }
        false
    }

    /// Takes note of a successful scan and returns the devices that the scan before it
    /// had not found, in the scan's order.  From now on the state remembers the
    /// fingerprints of `devices` and no others.
    pub fn observe(&mut self, devices: &[RawDevice]) -> (fresh: Vec<RawDevice>)
        ensures
            fresh.deep_view() == newly_seen(devices.deep_view(), old(self)@),
            final(self)@ == fingerprints(devices.deep_view()),
    {
        let ghost all = devices.deep_view();
        let ghost is_new = |d: RawDeviceModel| !self@.contains(fingerprint(d));
        let mut fresh: Vec<RawDevice> = Vec::new();
        let mut current: Vec<(u16, u16, String)> = Vec::new();
        let mut k: usize = 0;
        assert(all.take(0).filter(is_new) =~= Seq::<RawDeviceModel>::empty()) by {
            reveal(Seq::filter);
        }
        while k < devices.len()
            invariant
                k <= devices.len(),
                all == devices.deep_view(),
                is_new == |d: RawDeviceModel| !self@.contains(fingerprint(d)),
                fresh.deep_view() =~= all.take(k as int).filter(is_new),
                current.deep_view() =~= all.take(k as int).map_values(
                    |d: RawDeviceModel| fingerprint(d),
                ),
            decreases devices.len() - k,
        {
            assert(all.take(k + 1) =~= all.take(k as int).push(all[k as int]));
            proof {
                all.take(k as int).lemma_filter_push(all[k as int], is_new);
            }
            let dev = &devices[k];
            if !self.has_seen(dev) {
                fresh.push(dev.clone());
            }
            let entry = (dev.vid, dev.pid, dev.port_path.clone());
            let ghost before = current.deep_view();
            assert(entry.deep_view() == fingerprint(all[k as int]));
            current.push(entry);
            assert(current.deep_view() =~= before.push(fingerprint(all[k as int])));
            k += 1;
        }
        assert(all.take(devices.len() as int) =~= all);
        self.seen = current;
        fresh
    }
}

/// Brings the outcome of a full scan into the registry and tells whether the registry
/// was replaced.  A scan that succeeded replaces the contents wholesale; after a scan
/// that failed (`None`) the previous contents stay.
pub fn apply_scan(registry: &mut DeviceRegistry, scanned: Option<Vec<RawDevice>>) -> (replaced: bool)
    ensures
        replaced == scanned is Some,
        final(registry)@ == match scanned {
            Some(devices) => devices.deep_view(),
            None => old(registry)@,
        },
{
    match scanned {
        Some(devices) => {
            registry.replace(devices);
            true
        },
        None => false,
    }
}

/// The pause between two scans, in milliseconds.
pub const SCAN_INTERVAL_MS: u64 = 300;

/// A scan that took longer than this many nanoseconds, one second, stalled on the
/// operating system.
pub const SLOW_SCAN_NANOS: u128 = 1_000_000_000;

/// When the poll scanner starts its next scan.
#[derive(Debug, Clone, Copy, PartialEq, Eq, Structural)]
pub enum NextScan {
    /// The scan was slow: the next one starts at once.
    Immediately,
    /// The next scan starts after a pause of this many milliseconds.
    AfterMillis(u64),
}

/// Decides when the next scan starts from how long the last one took, in nanoseconds.
/// A scan of more than one second is followed at once, any other by the usual pause.
pub fn next_scan(elapsed_nanos: u128) -> (next: NextScan)
    ensures
        next == if elapsed_nanos > SLOW_SCAN_NANOS {
            NextScan::Immediately
        } else {
            NextScan::AfterMillis(SCAN_INTERVAL_MS)
        },
{
    if elapsed_nanos > SLOW_SCAN_NANOS {
        NextScan::Immediately
    } else {
        NextScan::AfterMillis(SCAN_INTERVAL_MS)
    }
}

} // verus!
