//! Rule matching: which role, if any, each attached device has.
//!
//! Matching reads two snapshots and nothing else.  Each device gets the role of the
//! first rule, in list order, that matches it; a device that no rule matches is shown
//! without a role.

use crate::models::{
    shown, DeviceConfig, DeviceConfigModel, DeviceView, DeviceViewModel, RawDevice, RawDeviceModel,
};
use crate::text::{hex_id, opt_text};
use vstd::prelude::*;

verus! {

/// A rule matches a device when the vendor id, the product id and the port path are
/// equal and the rule either names no serial number or names the device's own.
pub open spec fn rule_matches(rule: DeviceConfigModel, raw: RawDeviceModel) -> bool {
    &&& rule.vid == raw.vid
    &&& rule.pid == raw.pid
    &&& (rule.serial is None || rule.serial == raw.serial)
    &&& rule.port_path == raw.port_path
}

/// `i` is the position of the first rule in `rules` that matches `raw`.
pub open spec fn is_first_match(rules: Seq<DeviceConfigModel>, raw: RawDeviceModel, i: int) -> bool {
    &&& 0 <= i < rules.len()
    &&& rule_matches(rules[i], raw)
    &&& forall|j: int| 0 <= j < i ==> !rule_matches(#[trigger] rules[j], raw)
}

/// No rule in `rules` matches `raw`.
pub open spec fn unmatched(rules: Seq<DeviceConfigModel>, raw: RawDeviceModel) -> bool {
    forall|j: int| 0 <= j < rules.len() ==> !rule_matches(#[trigger] rules[j], raw)
}

/// The role that `rules` give to `raw`: that of the first matching rule, if there is one.
pub open spec fn role_for(rules: Seq<DeviceConfigModel>, raw: RawDeviceModel) -> Option<Seq<char>> {
    if exists|i: int| is_first_match(rules, raw, i) {
        Some(rules[choose|i: int| is_first_match(rules, raw, i)].role)
    } else {
        None
    }
}

/// The views of `raws` under `rules`: one per device, in the devices' order.
pub open spec fn views_for(raws: Seq<RawDeviceModel>, rules: Seq<DeviceConfigModel>) -> Seq<
    DeviceViewModel,
> {
    Seq::new(raws.len(), |k: int| shown(raws[k], role_for(rules, raws[k])))
}

/// At most one position is that of the first match, so a first match fixes the role.
pub proof fn lemma_first_match_decides(rules: Seq<DeviceConfigModel>, raw: RawDeviceModel, i: int)
    requires
        is_first_match(rules, raw, i),
    ensures
        role_for(rules, raw) == Some(rules[i].role),
{
    let k = choose|k: int| is_first_match(rules, raw, k);
    if k < i {
        assert(!rule_matches(rules[k], raw));
    } else if i < k {
        assert(!rule_matches(rules[i], raw));
    }
}

/// Where no rule matches, no role is given.
pub proof fn lemma_unmatched_decides(rules: Seq<DeviceConfigModel>, raw: RawDeviceModel)
    requires
        unmatched(rules, raw),
    ensures
        role_for(rules, raw) is None,
{
    if exists|i: int| is_first_match(rules, raw, i) {
        let k = choose|k: int| is_first_match(rules, raw, k);
        assert(!rule_matches(rules[k], raw));
    }
}

/// Among the first `n` rules, a rule that matches is preceded by a first one that does.
proof fn lemma_match_has_first(rules: Seq<DeviceConfigModel>, raw: RawDeviceModel, n: int)
    requires
        0 <= n <= rules.len(),
        exists|j: int| 0 <= j < n && rule_matches(#[trigger] rules[j], raw),
    ensures
        exists|i: int| 0 <= i < n && is_first_match(rules, raw, i),
    decreases n,
{
    if exists|j: int| 0 <= j < n - 1 && rule_matches(#[trigger] rules[j], raw) {
        lemma_match_has_first(rules, raw, n - 1);
    } else {
        assert(rule_matches(rules[n - 1], raw));
        assert(is_first_match(rules, raw, n - 1));
    }
}

/// Matching is a function of its two snapshots: whatever two runs on the same devices
/// and the same rules return, they return the same views.
pub proof fn lemma_matching_is_deterministic(
    raw_devices: &[RawDevice],
    rules: &[DeviceConfig],
    first: Vec<DeviceView>,
    second: Vec<DeviceView>,
)
    requires
        call_ensures(match_raw_to_views, (raw_devices, rules), first),
        call_ensures(match_raw_to_views, (raw_devices, rules), second),
    ensures
        first.deep_view() == second.deep_view(),
{
}

/// The role of a view is the role of the first rule, in list order, that matches the
/// view's device; the view has no role exactly where no rule matches the device.
pub proof fn lemma_role_is_first_match(
    raws: Seq<RawDeviceModel>,
    rules: Seq<DeviceConfigModel>,
    k: int,
)
    requires
        0 <= k < raws.len(),
    ensures
        forall|i: int| #[trigger]
            is_first_match(rules, raws[k], i) ==> views_for(raws, rules)[k].role == Some(
                rules[i].role,
            ),
        views_for(raws, rules)[k].role is Some ==> exists|i: int|
            is_first_match(rules, raws[k], i),
        views_for(raws, rules)[k].role is None <==> unmatched(rules, raws[k]),
{
    let raw = raws[k];
    assert forall|i: int| #[trigger] is_first_match(rules, raw, i) implies role_for(rules, raw)
        == Some(rules[i].role) by {
        lemma_first_match_decides(rules, raw, i);
    }
    if unmatched(rules, raw) {
        lemma_unmatched_decides(rules, raw);
    } else {
        lemma_match_has_first(rules, raw, rules.len() as int);
    }
}

/// There are as many views as devices, and the view at each position shows the device
/// at that position: its ids in hexadecimal, its serial number and its two paths.
pub proof fn lemma_views_follow_devices(raws: Seq<RawDeviceModel>, rules: Seq<DeviceConfigModel>)
    ensures
        views_for(raws, rules).len() == raws.len(),
        forall|k: int|
            0 <= k < raws.len() ==> {
                let view = #[trigger] views_for(raws, rules)[k];
                &&& view.vid == hex_id(raws[k].vid)
                &&& view.pid == hex_id(raws[k].pid)
                &&& view.serial == raws[k].serial
                &&& view.port_path == raws[k].port_path
                &&& view.system_path == raws[k].system_path
            },
{
}

/// Tells whether `rule` matches `raw`.
pub fn applies_to(rule: &DeviceConfig, raw: &RawDevice) -> (r: bool)
    ensures
        r == rule_matches(rule@, raw@),
{
    if raw.vid == rule.vid && raw.pid == rule.pid {
        let serial_match = match (&rule.serial, &raw.serial) {
            (Some(r), Some(v)) => *r == *v,
            (None, _) => true,
            _ => false,
        };
        let path_match = rule.port_path == raw.port_path;
        serial_match && path_match
    } else {
        false
    }
}

/// The role of the first rule that matches `raw`, or `None` where none does.
pub fn find_role(raw: &RawDevice, rules: &[DeviceConfig]) -> (role: Option<String>)
    ensures
        opt_text(role) == role_for(rules.deep_view(), raw@),
{
    let mut i: usize = 0;
    while i < rules.len()
        invariant
            i <= rules.len(),
            forall|j: int| 0 <= j < i ==> !rule_matches(#[trigger] rules.deep_view()[j], raw@),
        decreases rules.len() - i,
    {
        if applies_to(&rules[i], raw) {
            proof {
                lemma_first_match_decides(rules.deep_view(), raw@, i as int);
            }
            return Some(rules[i].role.clone());
        }
        i += 1;
    }
    proof {
        lemma_unmatched_decides(rules.deep_view(), raw@);
    }
    None
}

/// Projects the attached devices and the binding rules into role-annotated views.
///
/// The result has one view per raw device, in the same order.  Each view carries the
/// device's facts, with the ids in hexadecimal, and the role of the first rule that
/// matches the device.
pub fn match_raw_to_views(raw_devices: &[RawDevice], rules: &[DeviceConfig]) -> (views: Vec<
    DeviceView,
>)
    ensures
        views.len() == raw_devices.len(),
        views.deep_view() == views_for(raw_devices.deep_view(), rules.deep_view()),
{
    let mut views: Vec<DeviceView> = Vec::new();
    let mut k: usize = 0;
    while k < raw_devices.len()
        invariant
            k <= raw_devices.len(),
            views.len() == k,
            forall|n: int|
                0 <= n < k ==> (#[trigger] views[n])@ == shown(
                    raw_devices[n]@,
                    role_for(rules.deep_view(), raw_devices[n]@),
                ),
        decreases raw_devices.len() - k,
    {
        let raw = &raw_devices[k];
        let matched_role = find_role(raw, rules);
        let mut view = DeviceView::from(raw.clone());
        view.role = matched_role;
        views.push(view);
        k += 1;
    }
    assert(views.deep_view() =~= views_for(raw_devices.deep_view(), rules.deep_view()));
    views
}

} // verus!
