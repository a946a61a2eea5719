//! The device registry: the ordered list of the devices that are attached right now.
//!
//! The registry is the one store that both producers change.  A full scan replaces its
//! contents wholesale; a detach notification removes the entries of one device ahead of
//! the next scan.  Readers take a snapshot, which is a copy and never a partial list.
//! The registry itself is a plain value: whoever shares it between threads guards it.

use crate::models::{DeviceConfig, DeviceConfigModel, RawDevice, RawDeviceModel};
use crate::text::same_opt_text;
use vstd::prelude::*;

verus! {

/// A device has the identity that a rule names when vendor id, product id and serial
/// number are all equal.  The port path takes no part: a device may come back on
/// another port.
pub open spec fn same_identity(rule: DeviceConfigModel, raw: RawDeviceModel) -> bool {
    &&& raw.vid == rule.vid
    &&& raw.pid == rule.pid
    &&& raw.serial == rule.serial
}

/// `devices` without the entries that have the identity that `rule` names; the others
/// stay, in their order.
pub open spec fn without_identity(devices: Seq<RawDeviceModel>, rule: DeviceConfigModel) -> Seq<
    RawDeviceModel,
> {
    devices.filter(|d: RawDeviceModel| !same_identity(rule, d))
}

/// Tells whether `raw` has the identity that `rule` names.
pub fn has_identity(rule: &DeviceConfig, raw: &RawDevice) -> (r: bool)
    ensures
        r == same_identity(rule@, raw@),
{
    raw.vid == rule.vid && raw.pid == rule.pid && same_opt_text(&rule.serial, &raw.serial)
}

/// The entries of `entries` for which the answer at the same position is `false`, in
/// their order.  `gone` has one answer for each entry.
pub open spec fn kept(entries: Seq<RawDevice>, gone: Seq<bool>) -> Seq<RawDevice>
    recommends
        gone.len() == entries.len(),
    decreases entries.len(),
{
    if entries.len() == 0 || gone.len() != entries.len() {
        Seq::empty()
    } else if gone.last() {
        kept(entries.drop_last(), gone.drop_last())
    } else {
        kept(entries.drop_last(), gone.drop_last()).push(entries.last())
    }
}

/// `answers` holds, for each of `entries`, an answer that `gone` may give for it.
pub open spec fn answered<F: Fn(&RawDevice) -> bool>(
    gone: F,
    entries: Seq<RawDevice>,
    answers: Seq<bool>,
) -> bool {
    &&& answers.len() == entries.len()
    &&& forall|i: int|
        0 <= i < entries.len() ==> gone.ensures((&entries[i],), #[trigger] answers[i])
}

/// The models of some devices, in the devices' order.
pub open spec fn models(entries: Seq<RawDevice>) -> Seq<RawDeviceModel> {
    entries.map_values(|d: RawDevice| d@)
}

/// Where the answers say of each entry whether it has the identity that `rule` names,
/// the entries that are kept are those that [`without_identity`] leaves.
pub proof fn lemma_kept_without_identity(
    entries: Seq<RawDevice>,
    gone: Seq<bool>,
    rule: DeviceConfigModel,
)
    requires
        gone.len() == entries.len(),
        forall|i: int| 0 <= i < entries.len() ==> #[trigger] gone[i] == same_identity(rule, entries[i]@),
    ensures
        models(kept(entries, gone)) == without_identity(models(entries), rule),
    decreases entries.len(),
{
    let keep = |d: RawDeviceModel| !same_identity(rule, d);
    if entries.len() == 0 {
        reveal(Seq::filter);
        assert(models(entries) =~= Seq::<RawDeviceModel>::empty());
        assert(models(kept(entries, gone)) =~= Seq::<RawDeviceModel>::empty());
    } else {
        let front = entries.drop_last();
        assert(gone.drop_last().len() == front.len());
        assert forall|i: int| 0 <= i < front.len() implies #[trigger] gone.drop_last()[i]
            == same_identity(rule, front[i]@) by {
            assert(gone.drop_last()[i] == gone[i]);
        }
        lemma_kept_without_identity(front, gone.drop_last(), rule);
        assert(models(entries) =~= models(front).push(entries.last()@));
        models(front).lemma_filter_push(entries.last()@, keep);
        assert(gone.last() == gone[entries.len() - 1]);
        if !gone.last() {
            assert(models(kept(entries, gone)) =~= models(kept(front, gone.drop_last())).push(
                entries.last()@,
            ));
        }
    }
}

/// The ordered collection of the devices that are currently known to be attached.
#[derive(Debug)]
pub struct DeviceRegistry {
    devices: Vec<RawDevice>,
}

impl View for DeviceRegistry {
    type V = Seq<RawDeviceModel>;

    open spec fn view(&self) -> Seq<RawDeviceModel> {
        models(self.entries())
    }
}

impl DeviceRegistry {
    /// The devices in the registry, in the registry's order.
    pub closed spec fn entries(&self) -> Seq<RawDevice> {
        self.devices@
    }

    /// A registry that knows no device.
    pub fn new() -> (r: Self)
        ensures
            r.entries() == Seq::<RawDevice>::empty(),
            r@ == Seq::<RawDeviceModel>::empty(),
    {
        let r = DeviceRegistry { devices: Vec::new() };
        assert(r@ =~= Seq::<RawDeviceModel>::empty());
        r
    }

    /// The number of devices in the registry.
    pub fn len(&self) -> (n: usize)
        ensures
            n == self@.len(),
    {
        self.devices.len()
    }

    /// A copy of the registry's contents, in the registry's order.
    pub fn snapshot(&self) -> (devices: Vec<RawDevice>)
        ensures
            devices@ == self.entries(),
            devices.len() == self@.len(),
            devices.deep_view() == self@,
    {
        let devices = self.devices.clone();
        assert(devices@ =~= self.devices@);
        assert(devices.deep_view() =~= self@);
        devices
    }

    /// Replaces the whole contents with `devices`, as a full scan reported them.
    pub fn replace(&mut self, devices: Vec<RawDevice>)
        ensures
            final(self).entries() == devices@,
            final(self)@ == devices.deep_view(),
    {
        assert(devices.deep_view() =~= models(devices@));
        self.devices = devices;
    }

    /// Removes every entry of which `gone` says so and returns how many entries went.
    /// The other entries stay as they are, in their order.
    ///
    /// `gone` is asked once for each entry, in the registry's order, and what stays
    /// goes by what it answered.
    pub fn remove_where<F: Fn(&RawDevice) -> bool>(&mut self, gone: F) -> (removed: usize)
        requires
            forall|i: int|
                0 <= i < old(self).entries().len() ==> gone.requires(
                    (&#[trigger] old(self).entries()[i],),
                ),
        ensures
            exists|answers: Seq<bool>|
                #[trigger] answered(gone, old(self).entries(), answers) && final(self).entries()
                    == kept(old(self).entries(), answers),
            removed == old(self)@.len() - final(self)@.len(),
    {
        let ghost orig = self.devices@;
        let ghost mut answers: Seq<bool> = Seq::empty();
        let mut i: usize = 0;
        let mut removed: usize = 0;
        assert(orig == old(self).entries());
        assert(orig.len() == self.devices.len());
        assert(orig.take(0) =~= Seq::<RawDevice>::empty());
        while i < self.devices.len()
            invariant
                orig.len() <= usize::MAX,
                i + removed + (self.devices.len() - i) == orig.len(),
                i <= self.devices.len(),
                answers.len() == i + removed,
                forall|j: int| 0 <= j < orig.len() ==> gone.requires((&#[trigger] orig[j],)),
                forall|j: int| 0 <= j < answers.len() ==> gone.ensures((&orig[j],), #[trigger] answers[j]),
                kept(orig.take(i + removed), answers).len() == i,
                self.devices@ =~= kept(orig.take(i + removed), answers) + orig.skip(i + removed),
            decreases self.devices.len() - i,
        {
            let ghost k = i + removed;
            let ghost before = self.devices@;
            let ghost earlier = answers;
            assert(before[i as int] == orig.skip(k)[0]);
            assert(before[i as int] == orig[k]);
            let is_gone = gone(&self.devices[i]);
            proof {
                answers = earlier.push(is_gone);
                assert(orig.take(k + 1).drop_last() =~= orig.take(k));
                assert(answers.drop_last() =~= earlier);
                assert(orig.take(k + 1).last() == orig[k]);
            }
            if is_gone {
                self.devices.remove(i);
                removed += 1;
            } else {
                i += 1;
            }
        }
        assert(orig.take(orig.len() as int) =~= orig);
        assert(answered(gone, orig, answers));
        assert(self.devices@.len() == self@.len());
        assert(orig.len() == old(self)@.len());
        removed
    }

    /// Removes every entry that has the identity that `rule` names and returns how many
    /// entries went.  The other entries stay as they are, in their order.
    pub fn remove_identity(&mut self, rule: &DeviceConfig) -> (removed: usize)
        ensures
            final(self)@ == without_identity(old(self)@, rule@),
            removed == old(self)@.len() - final(self)@.len(),
    {
        let gone = |d: &RawDevice| -> (g: bool)
            ensures
                g == same_identity(rule@, d@),
            { has_identity(rule, d) };
        let removed = self.remove_where(gone);
        proof {
            let answers = choose|answers: Seq<bool>|
                #[trigger] answered(gone, old(self).entries(), answers) && self.entries() == kept(
                    old(self).entries(),
                    answers,
                );
            lemma_kept_without_identity(old(self).entries(), answers, rule@);
        }
        removed
    }
}

} // verus!
