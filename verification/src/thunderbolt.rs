//! Thunderbolt controller: readiness, and the devices its discovery
//! registers list.
use vstd::prelude::*;

verus! {

pub const DEVICE_DISCOVERY_OFFSET: usize = 0x100;
pub const DEVICE_COUNT_OFFSET: usize = 0x104;
pub const CONTROLLER_STATUS_OFFSET: usize = 0x00;
pub const CONTROLLER_CONTROL_OFFSET: usize = 0x04;
/// Control value that starts the controller.
pub const CONTROLLER_START: u32 = 0x01;

#[derive(Debug, Copy, Clone, PartialEq, Eq)]
pub struct ThunderboltDevice {
    pub vendor_id: u16,
    pub device_id: u16,
}

#[derive(Debug, Copy, Clone, PartialEq, Eq)]
pub enum ThunderboltError {
    NoDataToSend,
    NoBufferToReceive,
    ControllerNotReady,
    DeviceDiscoveryFailed,
    SendDataFailed,
    ReceiveDataFailed,
}

/// Starts the controller given its status: refused unless the ready bit is
/// set; otherwise the value for the control register.
pub fn init_controller(status: u32) -> (r: Result<u32, ThunderboltError>)
    ensures
        status % 2 == 0 ==> r == Err::<u32, ThunderboltError>(ThunderboltError::ControllerNotReady),
        status % 2 == 1 ==> r == Ok::<u32, ThunderboltError>(CONTROLLER_START),
{
    proof { crate::bits::lemma_low_bit(status); }
    if status & 0x01 == 0 {
        return Err(ThunderboltError::ControllerNotReady);
    }
    Ok(CONTROLLER_START)
}

/// Addresses of the vendor and device registers of device `i` of a
/// controller at `base`: eight bytes per device.
pub fn discovery_registers(base: usize, i: u32) -> (r: (usize, usize))
    requires
        base + DEVICE_DISCOVERY_OFFSET + i * 8 + 4 <= usize::MAX,
    ensures
        r.0 == base + DEVICE_DISCOVERY_OFFSET + i * 8,
        r.1 == base + DEVICE_DISCOVERY_OFFSET + i * 8 + 4,
{
    let vendor = base + DEVICE_DISCOVERY_OFFSET + (i as usize) * 8;
    (vendor, vendor + 4)
}

/// The devices discovered, from the vendor and device register values read
/// for each (the low 16 bits of each); an empty list while the count
/// register, read again, shows devices is a failed discovery.
pub fn discover_devices(raw: &[(u32, u32)], count_after: u32) -> (r: Result<Vec<ThunderboltDevice>, ThunderboltError>)
    ensures
        raw@.len() == 0 && count_after > 0 <==> r is Err,
        r is Err ==> r == Err::<Vec<ThunderboltDevice>, ThunderboltError>(ThunderboltError::DeviceDiscoveryFailed),
        r matches Ok(v) ==> v@.len() == raw@.len() && forall|i: int| 0 <= i < raw@.len() ==> v@[i] == (ThunderboltDevice {
            vendor_id: raw@[i].0 as u16,
            device_id: raw@[i].1 as u16,
        }),
{
    let mut devices: Vec<ThunderboltDevice> = Vec::new();
    let mut i: usize = 0;
    while i < raw.len()
        invariant
            i <= raw@.len(),
            devices@.len() == i,
            forall|j: int| 0 <= j < i ==> devices@[j] == (ThunderboltDevice {
                vendor_id: raw@[j].0 as u16,
                device_id: raw@[j].1 as u16,
            }),
        decreases raw@.len() - i,
    {
        let (v, d) = raw[i];
        devices.push(ThunderboltDevice { vendor_id: v as u16, device_id: d as u16 });
        i = i + 1;
    }
    if devices.len() == 0 && count_after > 0 {
        return Err(ThunderboltError::DeviceDiscoveryFailed);
    }
    Ok(devices)
}

} // verus!
