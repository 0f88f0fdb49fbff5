//! Wi-Fi driver core: the standards it drives (Wi-Fi 4 to 7), the dispatch
//! of sends and receives to the standard in use, and the simulated
//! hardware interface underneath, which accepts every packet and receives a
//! fixed sample packet.
use vstd::prelude::*;
use crate::text::str_eq;

verus! {

/// The Wi-Fi standards the driver knows.
#[derive(Debug, Clone, Copy, PartialEq, Eq)]
pub enum WifiStandard {
    /// Wi-Fi 4 (802.11n).
    Ieee80211n,
    /// Wi-Fi 5 (802.11ac).
    Ieee80211ac,
    /// Wi-Fi 6 (802.11ax).
    Ieee80211ax,
    /// Wi-Fi 7 (802.11be).
    Ieee80211be,
}

/// The standard a name selects: "4", "5", "6" or "7".
pub open spec fn standard_named(name: Seq<char>) -> Option<WifiStandard> {
    if name == "4"@ {
        Some(WifiStandard::Ieee80211n)
    } else if name == "5"@ {
        Some(WifiStandard::Ieee80211ac)
    } else if name == "6"@ {
        Some(WifiStandard::Ieee80211ax)
    } else if name == "7"@ {
        Some(WifiStandard::Ieee80211be)
    } else {
        None
    }
}

/// The error for a standard name the driver does not know.
pub open spec fn unsupported_standard(name: Seq<char>) -> Seq<char> {
    "Desteklenmeyen Wi-Fi standardı: "@ + name
}

/// The packet the simulated hardware receives.
pub open spec fn sample_packet() -> Seq<u8> {
    seq![0x01u8, 0x02, 0x03, 0x04]
}

/// The standard named `name`, if the driver knows it.
pub fn parse_standard(name: &str) -> (r: Option<WifiStandard>)
    ensures
        r == standard_named(name@),
{
    if str_eq(name, "4") {
        Some(WifiStandard::Ieee80211n)
    } else if str_eq(name, "5") {
        Some(WifiStandard::Ieee80211ac)
    } else if str_eq(name, "6") {
        Some(WifiStandard::Ieee80211ax)
    } else if str_eq(name, "7") {
        Some(WifiStandard::Ieee80211be)
    } else {
        None
    }
}

fn unsupported_standard_error(name: &str) -> (r: String)
    ensures
        r@ == unsupported_standard(name@),
{
    let mut message = String::from_str("Desteklenmeyen Wi-Fi standardı: ");
    message.append(name);
    message
}

/// Starts the hardware.
pub fn initialize_hardware() -> (r: Result<(), String>)
    ensures
        r is Ok,
{
    Ok(())
}

/// Stops the hardware.
pub fn shutdown_hardware() -> (r: Result<(), String>)
    ensures
        r is Ok,
{
    Ok(())
}

/// Hands a raw packet to the hardware, which accepts it.
pub fn send_raw_packet(packet_data: &[u8]) -> (r: Result<(), String>)
    ensures
        r is Ok,
{
    Ok(())
}

/// Takes a raw packet from the hardware: the sample packet.
pub fn receive_raw_packet() -> (r: Result<Vec<u8>, String>)
    ensures
        r matches Ok(p) && p@ == sample_packet(),
{
    let packet: Vec<u8> = vec![0x01, 0x02, 0x03, 0x04];
    assert(packet@ =~= sample_packet());
    Ok(packet)
}

/// Sends a packet the Wi-Fi 4 way.
pub fn send_packet_n(packet_data: &[u8]) -> (r: Result<(), String>)
    ensures
        r is Ok,
{
    send_raw_packet(packet_data)
}

/// Receives a packet the Wi-Fi 4 way.
pub fn receive_packet_n() -> (r: Result<Vec<u8>, String>)
    ensures
        r matches Ok(p) && p@ == sample_packet(),
{
    receive_raw_packet()
}

/// Sends a packet the Wi-Fi 5 way.
pub fn send_packet_ac(packet_data: &[u8]) -> (r: Result<(), String>)
    ensures
        r is Ok,
{
    send_raw_packet(packet_data)
}

/// Receives a packet the Wi-Fi 5 way.
pub fn receive_packet_ac() -> (r: Result<Vec<u8>, String>)
    ensures
        r matches Ok(p) && p@ == sample_packet(),
{
    receive_raw_packet()
}

/// Sends a packet the Wi-Fi 6 way.
pub fn send_packet_ax(packet_data: &[u8]) -> (r: Result<(), String>)
    ensures
        r is Ok,
{
    send_raw_packet(packet_data)
}

/// Receives a packet the Wi-Fi 6 way.
pub fn receive_packet_ax() -> (r: Result<Vec<u8>, String>)
    ensures
        r matches Ok(p) && p@ == sample_packet(),
{
    receive_raw_packet()
}

/// Sends a packet the Wi-Fi 7 way.
pub fn send_packet_be(packet_data: &[u8]) -> (r: Result<(), String>)
    ensures
        r is Ok,
{
    send_raw_packet(packet_data)
}

/// Receives a packet the Wi-Fi 7 way.
pub fn receive_packet_be() -> (r: Result<Vec<u8>, String>)
    ensures
        r matches Ok(p) && p@ == sample_packet(),
{
    receive_raw_packet()
}

/// Selects the standard named `standard`; an unknown name is refused.
pub fn set_wifi_standard(standard: &str) -> (r: Result<(), String>)
    ensures
        standard_named(standard@) is Some <==> r is Ok,
        r matches Err(m) ==> m@ == unsupported_standard(standard@),
{
    match parse_standard(standard) {
        Some(_) => Ok(()),
        None => Err(unsupported_standard_error(standard)),
    }
}

/// Sends `data` by the standard named `wifi_standard`; an unknown name is
/// refused.
pub fn send_data(data: &[u8], wifi_standard: &str) -> (r: Result<(), String>)
    ensures
        standard_named(wifi_standard@) is Some <==> r is Ok,
        r matches Err(m) ==> m@ == unsupported_standard(wifi_standard@),
{
    match parse_standard(wifi_standard) {
        Some(WifiStandard::Ieee80211n) => send_packet_n(data),
        Some(WifiStandard::Ieee80211ac) => send_packet_ac(data),
        Some(WifiStandard::Ieee80211ax) => send_packet_ax(data),
        Some(WifiStandard::Ieee80211be) => send_packet_be(data),
        None => Err(unsupported_standard_error(wifi_standard)),
    }
}

/// Receives a packet by the standard named `wifi_standard`; an unknown name
/// is refused.
pub fn receive_data(wifi_standard: &str) -> (r: Result<Vec<u8>, String>)
    ensures
        standard_named(wifi_standard@) is Some <==> r is Ok,
        r matches Ok(p) ==> p@ == sample_packet(),
        r matches Err(m) ==> m@ == unsupported_standard(wifi_standard@),
{
    match parse_standard(wifi_standard) {
        Some(WifiStandard::Ieee80211n) => receive_packet_n(),
        Some(WifiStandard::Ieee80211ac) => receive_packet_ac(),
        Some(WifiStandard::Ieee80211ax) => receive_packet_ax(),
        Some(WifiStandard::Ieee80211be) => receive_packet_be(),
        None => Err(unsupported_standard_error(wifi_standard)),
    }
}

} // verus!
