use sahne_karnal::touchscreen::{
    input_events, parse_touch_report, probe, process_touch_data, read_step, EndpointInfo, InputEventKind,
    InputRecord, KernelTouchEvent, KernelTouchEventType, ProbeError,
};

fn ep(is_interrupt: bool, is_input: bool, address: u8) -> EndpointInfo {
    EndpointInfo { is_interrupt, is_input, address, max_packet_size: 8 }
}

#[test]
fn touch_reports_decode() {
    assert_eq!(parse_touch_report(&[1, 2, 3]), None);
    assert_eq!(parse_touch_report(&[]), None);
    assert_eq!(
        parse_touch_report(&[0x01, 0x34, 0x12, 0x78, 0x06]),
        Some(KernelTouchEvent { event_type: KernelTouchEventType::Down, x: 0x1234, y: 0x0678, pressure: None })
    );
    assert_eq!(
        parse_touch_report(&[0x00, 1, 0, 2, 0, 9, 9]),
        Some(KernelTouchEvent { event_type: KernelTouchEventType::Up, x: 1, y: 2, pressure: None })
    );
    assert_eq!(parse_touch_report(&[0x07, 0, 0, 0, 0]).unwrap().event_type, KernelTouchEventType::Other(7));
}

#[test]
fn touch_input_events() {
    let rec = |kind, value| InputRecord { kind, value };
    let down = KernelTouchEvent { event_type: KernelTouchEventType::Down, x: 10, y: 20, pressure: None };
    assert_eq!(
        input_events(&down),
        Some([rec(InputEventKind::AbsoluteX, 10), rec(InputEventKind::AbsoluteY, 20), rec(InputEventKind::Touch, 1)])
    );
    let moved = KernelTouchEvent { event_type: KernelTouchEventType::Move, ..down };
    assert_eq!(input_events(&moved).unwrap()[2], rec(InputEventKind::Touch, 1));
    let up = KernelTouchEvent { event_type: KernelTouchEventType::Up, x: 4095, ..down };
    assert_eq!(
        input_events(&up),
        Some([rec(InputEventKind::AbsoluteX, 4095), rec(InputEventKind::AbsoluteY, 20), rec(InputEventKind::Touch, 0)])
    );
    let other = KernelTouchEvent { event_type: KernelTouchEventType::SecondaryDown, ..down };
    assert_eq!(input_events(&other), None);
    assert_eq!(process_touch_data(&[0x02, 0, 0, 0, 0]), None);
    assert_eq!(process_touch_data(&[0x01, 0xff, 0xff, 0, 1])
        .unwrap()[0], rec(InputEventKind::AbsoluteX, 0xffff));
    assert_eq!(process_touch_data(&[1]), None);
}

#[test]
fn touch_probe() {
    let eps = [ep(false, true, 1), ep(true, false, 2), ep(true, true, 0x81), ep(true, true, 0x82)];
    assert_eq!(probe(0x1234, 0x5678, 0x1234, 0x5678, &eps), Ok(ep(true, true, 0x81)));
    assert_eq!(probe(0x1234, 0x5679, 0x1234, 0x5678, &eps), Err(ProbeError::InvalidArgument));
    assert_eq!(probe(0x1235, 0x5678, 0x1234, 0x5678, &eps), Err(ProbeError::InvalidArgument));
    assert_eq!(probe(1, 2, 1, 2, &eps[..2]), Err(ProbeError::NotFound));
    assert_eq!(probe(1, 2, 1, 2, &[]), Err(ProbeError::NotFound));
}

#[test]
fn touch_read_loop() {
    assert_eq!(read_step(Ok(5)), Some(5));
    assert_eq!(read_step(Err(())), None);
}
