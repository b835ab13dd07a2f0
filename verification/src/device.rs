//! Network interfaces: the device a capture reads from, and the lookup of a
//! device by name among those that can currently be captured from.

use vstd::prelude::*;

verus! {

/// A network interface.
pub struct Device {
    /// The name of the interface.
    pub name: String,
    /// A textual description of the interface, if there is one.
    pub desc: Option<String>,
}

/// Mathematical content of a device.
pub struct DeviceView {
    pub name: Seq<char>,
    pub desc: Option<Seq<char>>,
}

impl View for Device {
    type V = DeviceView;

    open spec fn view(&self) -> DeviceView {
        DeviceView {
            name: self.name@,
            desc: match self.desc {
                Some(text) => Some(text@),
                None => None,
            },
        }
    }
}

impl Clone for Device {
    fn clone(&self) -> (copy: Device)
        ensures
            copy@ == self@,
    {
        let desc = match &self.desc {
            Some(text) => Some(text.clone()),
            None => None,
        };
        Device { name: self.name.clone(), desc }
    }
}

/// The contents of a device list.
pub open spec fn device_views(devices: Seq<Device>) -> Seq<DeviceView> {
    devices.map_values(|device: Device| device@)
}

/// `index` is the position of the first device of `devices` called `name`.
pub open spec fn is_first_named(devices: Seq<DeviceView>, name: Seq<char>, index: int) -> bool {
    &&& 0 <= index < devices.len()
    &&& devices[index].name == name
    &&& forall|earlier: int| 0 <= earlier < index ==> (#[trigger] devices[earlier]).name != name
}

/// Whether some device of `devices` is called `name`.
pub open spec fn has_named(devices: Seq<DeviceView>, name: Seq<char>) -> bool {
    exists|index: int| 0 <= index < devices.len() && (#[trigger] devices[index]).name == name
}

/// The first device of `devices` called `name`, if there is one.
pub open spec fn find_named(devices: Seq<DeviceView>, name: Seq<char>) -> Option<DeviceView> {
    if exists|index: int| is_first_named(devices, name, index) {
        Some(devices[choose|index: int| is_first_named(devices, name, index)])
    } else {
        None
    }
}

/// Any two first positions of a name coincide, so the position that
/// `find_named` picks is the one at hand.
pub proof fn lemma_find_named_at(devices: Seq<DeviceView>, name: Seq<char>, index: int)
    requires
        is_first_named(devices, name, index),
    ensures
        find_named(devices, name) == Some(devices[index]),
{
    let chosen = choose|other: int| is_first_named(devices, name, other);
    assert(is_first_named(devices, name, chosen));
    if chosen < index {
        assert(devices[chosen].name != name);
    }
    if index < chosen {
        assert(devices[index].name != name);
    }
}

/// A name that no device carries is not found.
pub proof fn lemma_find_named_absent(devices: Seq<DeviceView>, name: Seq<char>)
    requires
        !has_named(devices, name),
    ensures
        find_named(devices, name) is None,
{
    if exists|index: int| is_first_named(devices, name, index) {
        let index = choose|index: int| is_first_named(devices, name, index);
        assert(devices[index].name == name);
    }
}

/// A name that some device carries is found, and the device found carries it.
pub proof fn lemma_find_named_present(devices: Seq<DeviceView>, name: Seq<char>)
    requires
        has_named(devices, name),
    ensures
        find_named(devices, name) is Some,
        find_named(devices, name)->0.name == name,
        devices.contains(find_named(devices, name)->0),
{
    let witness = choose|index: int| 0 <= index < devices.len() && (#[trigger] devices[index]).name == name;
    let first = least_named(devices, name, witness);
    lemma_find_named_at(devices, name, first);
}

/// The least position at or before `upto` whose device is called `name`.
proof fn least_named(devices: Seq<DeviceView>, name: Seq<char>, upto: int) -> (first: int)
    requires
        0 <= upto < devices.len(),
        devices[upto].name == name,
    ensures
        is_first_named(devices, name, first),
        first <= upto,
    decreases upto,
{
    if exists|earlier: int| 0 <= earlier < upto && (#[trigger] devices[earlier]).name == name {
        let earlier = choose|earlier: int| 0 <= earlier < upto && (#[trigger] devices[earlier]).name == name;
        least_named(devices, name, earlier)
    } else {
        upto
    }
}

/// Looks for the first device called `name` and returns a copy of it.
pub fn find_device(devices: &Vec<Device>, name: &String) -> (found: Option<Device>)
    ensures
        match found {
            Some(device) => find_named(device_views(devices@), name@) == Some(device@),
            None => find_named(device_views(devices@), name@) is None,
        },
{
    let ghost views = device_views(devices@);
    let mut index: usize = 0;
    while index < devices.len()
        invariant
            index <= devices.len(),
            views == device_views(devices@),
            forall|earlier: int| 0 <= earlier < index ==> (#[trigger] views[earlier]).name != name@,
        decreases devices.len() - index,
    {
        assert(views[index as int] == devices@[index as int]@);
        if devices[index].name == *name {
            let device = devices[index].clone();
            proof {
                lemma_find_named_at(views, name@, index as int);
            }
            return Some(device);
        }
        index = index + 1;
    }
    proof {
        assert(!has_named(views, name@));
        lemma_find_named_absent(views, name@);
    }
    None
}

} // verus!
