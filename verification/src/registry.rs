//! The device registry: the devices the tool knows, by name.

use vstd::prelude::*;
use vstd::string::*;
use crate::models::{Device, DeviceView};
use crate::text::same_text;

verus! {

/// The registered devices. No two of them share a name: registering a device
/// under a name that is taken replaces the device that had it.
#[derive(Debug)]
pub struct Config {
    devices: Vec<Device>,
}

/// Whether the names of `devices` are pairwise different.
pub open spec fn names_distinct(devices: Seq<Device>) -> bool {
    forall|i: int, j: int|
        0 <= i < j < devices.len() ==> (#[trigger] devices[i]).name@ != (#[trigger] devices[j]).name@
}

/// Whether one of `devices` has the name `name`.
pub open spec fn has_name(devices: Seq<Device>, name: Seq<char>) -> bool {
    exists|i: int| 0 <= i < devices.len() && (#[trigger] devices[i]).name@ == name
}

/// The position of a device with the name `name`.
pub open spec fn position_of(devices: Seq<Device>, name: Seq<char>) -> int {
    choose|i: int| 0 <= i < devices.len() && (#[trigger] devices[i]).name@ == name
}

/// The devices as a map from name to device.
pub open spec fn as_map(devices: Seq<Device>) -> Map<Seq<char>, DeviceView> {
    Map::new(|name: Seq<char>| has_name(devices, name), |name: Seq<char>| devices[position_of(devices, name)]@)
}

impl View for Config {
    type V = Map<Seq<char>, DeviceView>;

    closed spec fn view(&self) -> Map<Seq<char>, DeviceView> {
        as_map(self.devices@)
    }
}

/// In a registry of distinct names, the device at a position is the one that
/// its name leads to.
pub proof fn lemma_device_at(devices: Seq<Device>, i: int)
    requires
        names_distinct(devices),
        0 <= i < devices.len(),
    ensures
        has_name(devices, devices[i].name@),
        position_of(devices, devices[i].name@) == i,
        as_map(devices).contains_key(devices[i].name@),
        as_map(devices)[devices[i].name@] == devices[i]@,
{
    let name = devices[i].name@;
    let k = position_of(devices, name);
    assert(0 <= k < devices.len() && devices[k].name@ == name);
    if k < i {
        assert(devices[k].name@ != devices[i].name@);
    }
    if i < k {
        assert(devices[i].name@ != devices[k].name@);
    }
}

/// Putting `device` at the end of a registry that lacks its name registers it.
proof fn lemma_push_inserts(before: Seq<Device>, device: Device)
    requires
        names_distinct(before),
        !has_name(before, device.name@),
    ensures
        names_distinct(before.push(device)),
        as_map(before.push(device)) == as_map(before).insert(device.name@, device@),
{
    let after = before.push(device);
    assert forall|i: int, j: int| 0 <= i < j < after.len() implies (#[trigger] after[i]).name@ != (
    #[trigger] after[j]).name@ by {
        if j < before.len() {
            assert(before[i].name@ != before[j].name@);
        } else {
            assert(before[i].name@ != device.name@);
        }
    }
    assert forall|name: Seq<char>| has_name(after, name) <==> (has_name(before, name) || name
        == device.name@) by {
        if has_name(after, name) {
            let k = position_of(after, name);
            if k < before.len() {
                assert(before[k].name@ == name);
            }
        }
        if has_name(before, name) {
            let k = position_of(before, name);
            assert(after[k].name@ == name);
        }
        if name == device.name@ {
            assert(after[before.len() as int].name@ == name);
        }
    }
    assert forall|name: Seq<char>| has_name(after, name) implies #[trigger] as_map(after)[name]
        == as_map(before).insert(device.name@, device@)[name] by {
        let k = position_of(after, name);
        lemma_device_at(after, k);
        if k < before.len() {
            lemma_device_at(before, k);
        }
    }
    assert(as_map(after) =~= as_map(before).insert(device.name@, device@));
}

/// Putting `device` in the place of the device that has its name registers it.
proof fn lemma_update_inserts(before: Seq<Device>, i: int, device: Device)
    requires
        names_distinct(before),
        0 <= i < before.len(),
        before[i].name@ == device.name@,
    ensures
        names_distinct(before.update(i, device)),
        as_map(before.update(i, device)) == as_map(before).insert(device.name@, device@),
{
    let after = before.update(i, device);
    assert forall|a: int, b: int| 0 <= a < b < after.len() implies (#[trigger] after[a]).name@ != (
    #[trigger] after[b]).name@ by {
        assert(before[a].name@ != before[b].name@);
    }
    assert forall|name: Seq<char>| has_name(after, name) <==> (has_name(before, name) || name
        == device.name@) by {
        if has_name(after, name) {
            let k = position_of(after, name);
            assert(before[k].name@ == name);
        }
        if has_name(before, name) {
            let k = position_of(before, name);
            assert(after[k].name@ == name);
        }
        if name == device.name@ {
            assert(after[i].name@ == name);
        }
    }
    assert forall|name: Seq<char>| has_name(after, name) implies #[trigger] as_map(after)[name]
        == as_map(before).insert(device.name@, device@)[name] by {
        let k = position_of(after, name);
        lemma_device_at(after, k);
        lemma_device_at(before, k);
    }
    assert(as_map(after) =~= as_map(before).insert(device.name@, device@));
}

impl Config {
    #[verifier::type_invariant]
    spec fn inv(self) -> bool {
        names_distinct(self.devices@)
    }

    /// The empty registry: no name leads to a device, and no device is listed.
    pub fn new() -> (r: Self)
        ensures
            r@ == Map::<Seq<char>, DeviceView>::empty(),
            r.listed() == Seq::<DeviceView>::empty(),
    {
        let r = Config { devices: Vec::new() };
        assert(r@ =~= Map::<Seq<char>, DeviceView>::empty());
        assert(r.listed() =~= Seq::<DeviceView>::empty());
        r
    }

    fn position(&self, name: &str) -> (r: Option<usize>)
        ensures
            match r {
                Some(i) => i < self.devices@.len() && self.devices@[i as int].name@ == name@,
                None => !has_name(self.devices@, name@),
            },
    {
        let mut i: usize = 0;
        while i < self.devices.len()
            invariant
                i <= self.devices.len(),
                forall|j: int| 0 <= j < i ==> (#[trigger] self.devices@[j]).name@ != name@,
            decreases self.devices.len() - i,
        {
            if same_text(self.devices[i].name.as_str(), name) {
                return Some(i);
            }
            i += 1;
        }
        None
    }

    /// Registers `device` under its name, in place of the device that had the
    /// name before, if there was one.
    pub fn add_device(&mut self, device: Device)
        ensures
            final(self)@ == old(self)@.insert(device.name@, device@),
    {
        proof {
            use_type_invariant(&*self);
        }
        let found = self.position(device.name.as_str());
        let mut taken = Config { devices: Vec::new() };
        std::mem::swap(self, &mut taken);
        let mut devices = taken.devices;
        let ghost before = devices@;
        match found {
            Some(i) => {
                proof {
                    lemma_update_inserts(before, i as int, device);
                }
                devices.set(i, device);
            },
            None => {
                proof {
                    lemma_push_inserts(before, device);
                }
                devices.push(device);
            },
        }
        *self = Config { devices };
    }

    /// The device registered under `name`, if there is one.
    pub fn get_device(&self, name: &str) -> (r: Option<&Device>)
        ensures
            match r {
                Some(d) => self@.contains_key(name@) && d@ == self@[name@],
                None => !self@.contains_key(name@),
            },
    {
        proof {
            use_type_invariant(self);
        }
        match self.position(name) {
            Some(i) => {
                proof {
                    lemma_device_at(self.devices@, i as int);
                }
                Some(&self.devices[i])
            },
            None => None,
        }
    }

    /// The registered devices in the order in which their names were first
    /// registered.
    pub closed spec fn listed(&self) -> Seq<DeviceView> {
        self.devices@.map_values(|d: Device| d@)
    }

    /// Every registered device, each once, in the order of [`Config::listed`].
    pub fn devices(&self) -> (r: Vec<Device>)
        ensures
            r@.map_values(|d: Device| d@) == self.listed(),
            names_distinct(r@),
            forall|i: int|
                0 <= i < r@.len() ==> self@.contains_key((#[trigger] r@[i]).name@) && self@[r@[i].name@]
                    == r@[i]@,
            forall|name: Seq<char>| self@.contains_key(name) ==> has_name(r@, name),
    {
        proof {
            use_type_invariant(self);
        }
        let mut out: Vec<Device> = Vec::new();
        let mut i: usize = 0;
        while i < self.devices.len()
            invariant
                i <= self.devices.len(),
                out@.len() == i,
                forall|j: int| 0 <= j < i ==> (#[trigger] out@[j])@ == self.devices@[j]@,
            decreases self.devices.len() - i,
        {
            out.push(self.devices[i].clone());
            i += 1;
        }
        proof {
            assert(out@.map_values(|d: Device| d@) =~= self.listed());
            assert forall|a: int, b: int| 0 <= a < b < out@.len() implies (#[trigger] out@[a]).name@
                != (#[trigger] out@[b]).name@ by {
                assert(self.devices@[a].name@ != self.devices@[b].name@);
            }
            assert forall|i: int| 0 <= i < out@.len() implies self@.contains_key(
                (#[trigger] out@[i]).name@,
            ) && self@[out@[i].name@] == out@[i]@ by {
                lemma_device_at(self.devices@, i);
            }
            assert forall|name: Seq<char>| self@.contains_key(name) implies has_name(out@, name) by {
                let k = position_of(self.devices@, name);
                assert(out@[k].name@ == name);
            }
        }
        out
    }
}

} // verus!
