use vstd::prelude::*;
use vstd::string::*;

use crate::error::{ErrorView, UnifiError};
use crate::models::{port_of, status_text, Device, DeviceId, MacAddr, PowerStatus};
use crate::search::first_match;
use crate::text::mac_text;

verus! {

/// Whether a listed device has the address `mac`.
pub open spec fn has_mac(mac: MacAddr) -> spec_fn(Device) -> bool {
    |d: Device| d.mac@ == mac@
}

/// Whether a listed device has the controller handle `h`.
pub open spec fn has_handle(h: Seq<char>) -> spec_fn(Device) -> bool {
    |d: Device| d.device_id@ == h
}

/// The first listed device with the address `mac`.
pub open spec fn device_at(devices: Seq<Device>, mac: MacAddr) -> Option<Device> {
    match first_match(devices, has_mac(mac), 0) {
        Some(k) => Some(devices[k]),
        None => None,
    }
}

/// The first listed device with the controller handle `h`.
pub open spec fn device_named(devices: Seq<Device>, h: Seq<char>) -> Option<Device> {
    match first_match(devices, has_handle(h), 0) {
        Some(k) => Some(devices[k]),
        None => None,
    }
}

/// The controller handle of the device at `mac`, or `DeviceNotFound` with the
/// address as text.
pub open spec fn handle_at(devices: Seq<Device>, mac: MacAddr) -> Result<Seq<char>, ErrorView> {
    match device_at(devices, mac) {
        Some(d) => Ok(d.device_id@),
        None => Err(ErrorView::DeviceNotFound(mac_text(mac@))),
    }
}

/// The power state of the machine on port `port` of `d`: `MachinePortIdIncorrect`
/// where no port has that index, `DeviceNotFound` with an empty text where the
/// port has no PoE setting.
pub open spec fn device_status(d: Device, port: usize) -> Result<Seq<char>, ErrorView> {
    match port_of(d.port_table@, port) {
        None => Err(ErrorView::MachinePortIdIncorrect(port)),
        Some(p) => match p.poe_mode {
            None => Err(ErrorView::DeviceNotFound(Seq::empty())),
            Some(m) => Ok(status_text(m)),
        },
    }
}

fn index_at(devices: &Vec<Device>, mac: &MacAddr) -> (r: Option<usize>)
    ensures
        r matches Some(k) ==> first_match(devices@, has_mac(*mac), 0) == Some(k as int) && k
            < devices@.len(),
        r is None ==> first_match(devices@, has_mac(*mac), 0) is None,
{
    let mut i: usize = 0;
    while i < devices.len()
        invariant
            0 <= i <= devices@.len(),
            first_match(devices@, has_mac(*mac), 0) == first_match(
                devices@,
                has_mac(*mac),
                i as int,
            ),
        decreases devices@.len() - i,
    {
        if devices[i].mac == *mac {
            return Some(i);
        }
        i = i + 1;
    }
    None
}

fn index_named(devices: &Vec<Device>, device_id: &DeviceId) -> (r: Option<usize>)
    ensures
        r matches Some(k) ==> first_match(devices@, has_handle(device_id@), 0) == Some(k as int)
            && k < devices@.len(),
        r is None ==> first_match(devices@, has_handle(device_id@), 0) is None,
{
    let mut i: usize = 0;
    while i < devices.len()
        invariant
            0 <= i <= devices@.len(),
            first_match(devices@, has_handle(device_id@), 0) == first_match(
                devices@,
                has_handle(device_id@),
                i as int,
            ),
        decreases devices@.len() - i,
    {
        if devices[i].device_id == *device_id {
            return Some(i);
        }
        i = i + 1;
    }
    None
}

/// The controller handle of the listed device with the address `device_mac`.
pub fn device_id(devices: &Vec<Device>, device_mac: &MacAddr) -> (r: Result<DeviceId, UnifiError>)
    ensures
        r matches Ok(h) ==> handle_at(devices@, *device_mac) == Ok::<Seq<char>, ErrorView>(h@),
        r matches Err(x) ==> handle_at(devices@, *device_mac) == Err::<Seq<char>, ErrorView>(x@),
{
    match index_at(devices, device_mac) {
        Some(k) => Ok(devices[k].device_id.clone()),
        None => Err(UnifiError::DeviceNotFound(device_mac.to_string())),
    }
}

/// The listed device with the controller handle `device_id`, or
/// `DeviceNotFound` with the handle.
pub fn device(devices: Vec<Device>, device_id: &DeviceId) -> (r: Result<Device, UnifiError>)
    ensures
        r matches Ok(d) ==> device_named(devices@, device_id@) == Some(d),
        r matches Err(x) ==> device_named(devices@, device_id@) is None && x@
            == ErrorView::DeviceNotFound(device_id@),
{
    let mut devices = devices;
    match index_named(&devices, device_id) {
        Some(k) => Ok(devices.remove(k)),
        None => Err(UnifiError::DeviceNotFound(device_id.to_string())),
    }
}

/// The power state of the machine on port `port_id` of `device`.
pub fn power_state(device: &Device, port_id: usize) -> (r: Result<PowerStatus, UnifiError>)
    ensures
        r matches Ok(s) ==> device_status(*device, port_id) == Ok::<Seq<char>, ErrorView>(s@),
        r matches Err(x) ==> device_status(*device, port_id) == Err::<Seq<char>, ErrorView>(x@),
{
    match device.port(port_id) {
        None => Err(UnifiError::MachinePortIdIncorrect(port_id)),
        Some(p) => match p.power_status() {
            Some(s) => Ok(s),
            None => Err(UnifiError::DeviceNotFound(String::new())),
        },
    }
}

} // verus!
