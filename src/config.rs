use vstd::prelude::*;
use vstd::string::*;

use crate::models::MacAddr;
use crate::search::first_match;

verus! {

/// The managed fleet: the controller's base address and the switches whose
/// ports power the machines.
#[derive(Debug)]
pub struct Config {
    pub url: String,
    pub devices: Vec<Device>,
}

/// A managed switch and the machines plugged into its ports.
#[derive(Debug)]
pub struct Device {
    pub mac: MacAddr,
    pub machines: Vec<Machine>,
}

/// A machine, by its external identifier, and the port that powers it.
#[derive(Debug)]
pub struct Machine {
    pub maas_id: String,
    pub port_id: usize,
}

/// A `Machine` with its identifier as a sequence of characters.
pub struct MachineView {
    pub maas_id: Seq<char>,
    pub port_id: usize,
}

impl View for Machine {
    type V = MachineView;

    open spec fn view(&self) -> MachineView {
        MachineView { maas_id: self.maas_id@, port_id: self.port_id }
    }
}

impl Clone for Machine {
    fn clone(&self) -> (r: Machine)
        ensures
            r@ == self@,
    {
        Machine { maas_id: self.maas_id.clone(), port_id: self.port_id }
    }
}

impl PartialEq for Machine {
    fn eq(&self, o: &Machine) -> (r: bool) {
        self.maas_id == o.maas_id && self.port_id == o.port_id
    }
}

impl vstd::std_specs::cmp::PartialEqSpecImpl for Machine {
    open spec fn obeys_eq_spec() -> bool {
        true
    }

    open spec fn eq_spec(&self, o: &Machine) -> bool {
        self@ == o@
    }
}

/// Whether the switch `d` lists a machine with the identifier `id`.
pub open spec fn manages(d: Device, id: Seq<char>) -> bool {
    exists|j: int| 0 <= j < d.machines@.len() && #[trigger] d.machines@[j].maas_id@ == id
}

/// Whether a switch lists a machine with the identifier `id`.
pub open spec fn lists(id: Seq<char>) -> spec_fn(Device) -> bool {
    |d: Device| manages(d, id)
}

/// The first switch of `devices` that lists a machine with the identifier `id`.
pub open spec fn owner(devices: Seq<Device>, id: Seq<char>) -> Option<Device> {
    match first_match(devices, lists(id), 0) {
        Some(k) => Some(devices[k]),
        None => None,
    }
}

/// The address of the switch that powers the machine `id`.
pub open spec fn resolve_address(devices: Seq<Device>, id: Seq<char>) -> Option<MacAddr> {
    match owner(devices, id) {
        Some(d) => Some(d.mac),
        None => None,
    }
}

/// The machine entry that stands for `id`: the first machine of the switch
/// that lists `id`, whichever of its machines that is.
pub open spec fn resolve_machine(devices: Seq<Device>, id: Seq<char>) -> Option<MachineView> {
    match owner(devices, id) {
        Some(d) => if d.machines@.len() > 0 {
            Some(d.machines@[0]@)
        } else {
            None
        },
        None => None,
    }
}

fn device_manages(d: &Device, id: &String) -> (r: bool)
    ensures
        r == manages(*d, id@),
{
    let mut j: usize = 0;
    while j < d.machines.len()
        invariant
            0 <= j <= d.machines@.len(),
            forall|k: int| 0 <= k < j ==> #[trigger] d.machines@[k].maas_id@ != id@,
        decreases d.machines@.len() - j,
    {
        if d.machines[j].maas_id == *id {
            return true;
        }
        j = j + 1;
    }
    false
}

impl Config {
    fn owner_index(&self, id: &String) -> (r: Option<usize>)
        ensures
            r matches Some(k) ==> first_match(self.devices@, lists(id@), 0) == Some(k as int) && k
                < self.devices@.len(),
            r is None ==> first_match(self.devices@, lists(id@), 0) is None,
    {
        let mut i: usize = 0;
        while i < self.devices.len()
            invariant
                0 <= i <= self.devices@.len(),
                first_match(self.devices@, lists(id@), 0) == first_match(
                    self.devices@,
                    lists(id@),
                    i as int,
                ),
            decreases self.devices@.len() - i,
        {
            if device_manages(&self.devices[i], id) {
                return Some(i);
            }
            i = i + 1;
        }
        None
    }

    /// The address of the switch that powers the machine `maas_id`.
    pub fn owning_device_mac(&self, maas_id: &str) -> (r: Option<MacAddr>)
        ensures
            r == resolve_address(self.devices@, maas_id@),
    {
        let id = String::from_str(maas_id);
        match self.owner_index(&id) {
            Some(k) => Some(self.devices[k].mac),
            None => None,
        }
    }

    /// The machine entry that stands for `maas_id` (see `resolve_machine`).
    pub fn machine(&self, maas_id: &str) -> (r: Option<Machine>)
        ensures
            r matches Some(m) ==> resolve_machine(self.devices@, maas_id@) == Some(m@),
            r is None ==> resolve_machine(self.devices@, maas_id@) is None,
    {
        let id = String::from_str(maas_id);
        match self.owner_index(&id) {
            Some(k) => {
                let d = &self.devices[k];
                if d.machines.len() > 0 {
                    Some(d.machines[0].clone())
                } else {
                    None
                }
            },
            None => None,
        }
    }
}

} // verus!
