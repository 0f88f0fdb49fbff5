//! USB touchscreen: which device and endpoint the driver takes, how a
//! report is decoded into a touch event, and the input events it yields.
//! Talking to the USB and input subsystems is left to the caller.
use vstd::prelude::*;
use crate::codec::{le16_value, u16_from_le};

verus! {

/// Range of both absolute axes.
pub const AXIS_MIN: i32 = 0;
pub const AXIS_MAX: i32 = 4095;
/// Pause between two reads, in milliseconds.
pub const READ_INTERVAL_MS: u64 = 10;

#[derive(Debug, Copy, Clone, PartialEq, Eq)]
pub enum KernelTouchEventType {
    Down,
    Move,
    Up,
    SecondaryDown,
    SecondaryMove,
    SecondaryUp,
    Other(u8),
}

#[derive(Debug, Copy, Clone, PartialEq, Eq)]
pub struct KernelTouchEvent {
    pub event_type: KernelTouchEventType,
    pub x: u16,
    pub y: u16,
    pub pressure: Option<u16>,
}

/// The kind of event a report's status byte announces.
pub open spec fn event_type_of(status: u8) -> KernelTouchEventType {
    if status == 0x01 {
        KernelTouchEventType::Down
    } else if status == 0x00 {
        KernelTouchEventType::Up
    } else {
        KernelTouchEventType::Other(status)
    }
}

/// Decodes a report: the status byte, then X and Y, each little-endian.
/// Reports shorter than four bytes carry no event.
pub fn parse_touch_report(data: &[u8]) -> (r: Option<KernelTouchEvent>)
    requires
        data@.len() != 4,
    ensures
        data@.len() < 4 ==> r is None,
        data@.len() > 4 ==> r == Some(KernelTouchEvent {
            event_type: event_type_of(data@[0]),
            x: le16_value(data@[1], data@[2]),
            y: le16_value(data@[3], data@[4]),
            pressure: None,
        }),
{
    if data.len() < 4 {
        return None;
    }
    let touch_status = data[0];
    let x = u16_from_le(data[1], data[2]);
    let y = u16_from_le(data[3], data[4]);
    let event_type = if touch_status == 0x01 {
        KernelTouchEventType::Down
    } else if touch_status == 0x00 {
        KernelTouchEventType::Up
    } else {
        KernelTouchEventType::Other(touch_status)
    };
    Some(KernelTouchEvent { event_type, x, y, pressure: None })
}

/// Kind of an input event.
#[derive(Debug, Copy, Clone, PartialEq, Eq)]
pub enum InputEventKind {
    AbsoluteX,
    AbsoluteY,
    Touch,
}

/// An input event to emit: its kind and value.
#[derive(Debug, Copy, Clone, PartialEq, Eq)]
pub struct InputRecord {
    pub kind: InputEventKind,
    pub value: i32,
}

/// The input events a touch event yields: the position and whether the
/// screen is touched, for a press or a move (touched) and a release (not
/// touched); nothing for other events.
pub open spec fn input_events_of(e: KernelTouchEvent) -> Option<Seq<InputRecord>> {
    let touched: i32 = match e.event_type {
        KernelTouchEventType::Down | KernelTouchEventType::Move => 1,
        _ => 0,
    };
    match e.event_type {
        KernelTouchEventType::Down | KernelTouchEventType::Move | KernelTouchEventType::Up => Some(seq![
            InputRecord { kind: InputEventKind::AbsoluteX, value: e.x as i32 },
            InputRecord { kind: InputEventKind::AbsoluteY, value: e.y as i32 },
            InputRecord { kind: InputEventKind::Touch, value: touched },
        ]),
        _ => None,
    }
}

pub fn input_events(e: &KernelTouchEvent) -> (r: Option<[InputRecord; 3]>)
    ensures
        input_events_of(*e) is None <==> r is None,
        r matches Some(a) ==> a@ == input_events_of(*e)->0,
{
    let touched: i32 = match e.event_type {
        KernelTouchEventType::Down | KernelTouchEventType::Move => 1,
        KernelTouchEventType::Up => 0,
        _ => return None,
    };
    let a = [
        InputRecord { kind: InputEventKind::AbsoluteX, value: e.x as i32 },
        InputRecord { kind: InputEventKind::AbsoluteY, value: e.y as i32 },
        InputRecord { kind: InputEventKind::Touch, value: touched },
    ];
    assert(a@ =~= input_events_of(*e)->0);
    Some(a)
}

/// Decodes a report and gives the input events to emit for it.
pub fn process_touch_data(data: &[u8]) -> (r: Option<[InputRecord; 3]>)
    requires
        data@.len() != 4,
    ensures
        data@.len() < 4 ==> r is None,
        data@.len() > 4 ==> {
            let e = KernelTouchEvent {
                event_type: event_type_of(data@[0]),
                x: le16_value(data@[1], data@[2]),
                y: le16_value(data@[3], data@[4]),
                pressure: None,
            };
            &&& input_events_of(e) is None <==> r is None
            &&& r matches Some(a) ==> a@ == input_events_of(e)->0
        },
{
    match parse_touch_report(data) {
        Some(e) => input_events(&e),
        None => None,
    }
}

/// A USB endpoint as the driver sees it.
#[derive(Debug, Copy, Clone, PartialEq, Eq)]
pub struct EndpointInfo {
    pub is_interrupt: bool,
    pub is_input: bool,
    pub address: u8,
    pub max_packet_size: u16,
}

#[derive(Debug, Copy, Clone, PartialEq, Eq)]
pub enum ProbeError {
    InvalidArgument,
    NotFound,
}

/// Takes a device for the driver: refused unless its vendor and product
/// are the expected ones; then its first interrupt IN endpoint, refused
/// when there is none.
pub fn probe(vendor_id: u16, product_id: u16, expected_vendor: u16, expected_product: u16, endpoints: &[EndpointInfo]) -> (r: Result<EndpointInfo, ProbeError>)
    ensures
        (vendor_id != expected_vendor || product_id != expected_product) ==> r == Err::<EndpointInfo, ProbeError>(ProbeError::InvalidArgument),
        vendor_id == expected_vendor && product_id == expected_product ==> {
            &&& (forall|i: int| 0 <= i < endpoints@.len() ==> !(endpoints@[i].is_interrupt && endpoints@[i].is_input))
                ==> r == Err::<EndpointInfo, ProbeError>(ProbeError::NotFound)
            &&& (exists|i: int| 0 <= i < endpoints@.len() && endpoints@[i].is_interrupt && endpoints@[i].is_input)
                ==> (r matches Ok(ep) && exists|i: int| 0 <= i < endpoints@.len() && endpoints@[i] == ep
                && ep.is_interrupt && ep.is_input
                && forall|j: int| 0 <= j < i ==> !(endpoints@[j].is_interrupt && endpoints@[j].is_input))
        },
{
    if vendor_id != expected_vendor || product_id != expected_product {
        return Err(ProbeError::InvalidArgument);
    }
    let mut i: usize = 0;
    while i < endpoints.len()
        invariant
            i <= endpoints@.len(),
            vendor_id == expected_vendor && product_id == expected_product,
            forall|j: int| 0 <= j < i ==> !(endpoints@[j].is_interrupt && endpoints@[j].is_input),
        decreases endpoints@.len() - i,
    {
        let ep = endpoints[i];
        if ep.is_interrupt && ep.is_input {
            assert(endpoints@[i as int] == ep);
            return Ok(ep);
        }
        i = i + 1;
    }
    Err(ProbeError::NotFound)
}

/// What the read loop does with the result of an interrupt transfer: the
/// bytes received are processed; an error stops the loop.
pub fn read_step(result: Result<usize, ()>) -> (r: Option<usize>)
    ensures
        r == (match result {
            Ok(n) => Some(n),
            Err(_) => None,
        }),
{
    match result {
        Ok(n) => Some(n),
        Err(_) => None,
    }
}

} // verus!
