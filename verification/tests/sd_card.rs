use sahne_karnal::sd::{
    InitStage, SdAction, SdCardApi, SdDriver, SdError, SdEvent, ACMD41_SD_SEND_OP_COND, CMD0_GO_IDLE_STATE,
    CMD16_SET_BLOCKLEN, CMD55_APP_CMD, CMD8_SEND_IF_COND, DEFAULT_CAPACITY_BLOCKS, ERROR_CRC, ERROR_TIMEOUT,
};

fn command(command: u8, argument: u32) -> SdAction {
    SdAction::Command { command, argument }
}

#[test]
fn sd_init_happy_path() {
    let mut d = SdDriver::new();
    assert_eq!(d.stage, InitStage::Idle);
    assert_eq!(d.init(), SdAction::Delay(1000));
    assert_eq!(d.resume(SdEvent::DelayElapsed), command(CMD0_GO_IDLE_STATE, 0));
    assert_eq!(d.resume(SdEvent::Response(0)), SdAction::Delay(100));
    assert_eq!(d.resume(SdEvent::DelayElapsed), command(CMD8_SEND_IF_COND, 0x1aa));
    assert_eq!(d.resume(SdEvent::Response(0x1aa)), command(CMD55_APP_CMD, 0));
    assert_eq!(d.resume(SdEvent::Response(0)), command(ACMD41_SD_SEND_OP_COND, 0x4000_0000));
    assert_eq!(d.resume(SdEvent::Response(0)), SdAction::Delay(10));
    assert_eq!(d.resume(SdEvent::DelayElapsed), command(CMD55_APP_CMD, 0));
    assert_eq!(d.stage, InitStage::AppCommand { attempt: 1 });
    assert_eq!(d.resume(SdEvent::Response(0)), command(ACMD41_SD_SEND_OP_COND, 0x4000_0000));
    assert_eq!(d.resume(SdEvent::Response(0x8000_0000)), command(CMD16_SET_BLOCKLEN, 512));
    assert_eq!(d.resume(SdEvent::Response(0)), SdAction::Done(Ok(())));
    assert_eq!(d.stage, InitStage::Finished);
}

#[test]
fn sd_init_failures() {
    let mut d = SdDriver::new();
    d.init();
    d.resume(SdEvent::DelayElapsed);
    assert_eq!(d.resume(SdEvent::CommandFailed(ERROR_CRC)), SdAction::Done(Err(ERROR_CRC)));
    let mut d = SdDriver::new();
    d.init();
    d.resume(SdEvent::DelayElapsed);
    d.resume(SdEvent::Response(0));
    d.resume(SdEvent::DelayElapsed);
    assert_eq!(d.resume(SdEvent::Response(0x1ab)), SdAction::Done(Err(ERROR_TIMEOUT)));
}

#[test]
fn sd_init_gives_up_retrying_after_a_hundred_tries() {
    let mut d = SdDriver::new();
    d.init();
    d.resume(SdEvent::DelayElapsed);
    d.resume(SdEvent::Response(0));
    d.resume(SdEvent::DelayElapsed);
    d.resume(SdEvent::Response(0xaa));
    let mut tries = 0;
    loop {
        assert_eq!(d.resume(SdEvent::Response(0)), command(ACMD41_SD_SEND_OP_COND, 0x4000_0000));
        tries += 1;
        assert_eq!(d.resume(SdEvent::Response(0x7fff_ffff)), SdAction::Delay(10));
        let next = d.resume(SdEvent::DelayElapsed);
        if next == command(CMD16_SET_BLOCKLEN, 512) {
            break;
        }
        assert_eq!(next, command(CMD55_APP_CMD, 0));
    }
    assert_eq!(tries, 100);
    assert_eq!(d.resume(SdEvent::Response(0)), SdAction::Done(Ok(())));
}

#[test]
fn sd_status_and_buffers() {
    assert!(SdDriver::status_reached(0x3, 0x2));
    assert!(!SdDriver::status_reached(0x1, 0x2));
    assert_eq!(SdDriver::check_block_buffer(511), Err(ERROR_TIMEOUT));
    assert_eq!(SdDriver::check_block_buffer(512), Ok(()));
}

#[test]
fn sd_block_round_trip() {
    let mut data = [0u8; 512];
    for (i, b) in data.iter_mut().enumerate() {
        *b = (i % 251) as u8;
    }
    let words = SdDriver::write_block(&data);
    assert_eq!(words[1], u32::from_le_bytes([4, 5, 6, 7]));
    let mut back = [0u8; 516];
    SdDriver::read_block(&words, &mut back);
    assert_eq!(&back[..512], &data[..]);
}

#[test]
fn sd_card_api() {
    let mut card = SdCardApi::new();
    assert_eq!(card.get_card_capacity_blocks(), 0);
    assert!(card.is_card_present());
    assert!(matches!(card.init(Err(ERROR_TIMEOUT)), Err(SdError::InitializationFailed)));
    assert_eq!(card.get_card_capacity_blocks(), 0);
    assert!(card.init(Ok(())).is_ok());
    assert_eq!(card.get_card_capacity_blocks(), DEFAULT_CAPACITY_BLOCKS);

    let mut buffer = [0u8; 512];
    assert!(matches!(card.read_block(4096, &mut buffer, 512, Ok([0; 128])), Err(SdError::InvalidAddress)));
    let mut short = [0u8; 100];
    match card.read_block(0, &mut short, 512, Ok([0; 128])) {
        Err(SdError::Other(m)) => assert_eq!(m, "Yanlış arabellek boyutu"),
        _ => panic!("wrong outcome"),
    }
    let mut odd = [0u8; 1024];
    match card.read_block(0, &mut odd, 1024, Ok([0; 128])) {
        Err(SdError::Other(m)) => assert_eq!(m, "Şu anda sadece 512 byte'lık blok boyutları destekleniyor."),
        _ => panic!("wrong outcome"),
    }
    assert!(matches!(card.read_block(0, &mut buffer, 512, Err(ERROR_CRC)), Err(SdError::ReadError)));
    let mut words = [0u32; 128];
    words[0] = 0x4433_2211;
    assert!(card.read_block(1, &mut buffer, 512, Ok(words)).is_ok());
    assert_eq!(&buffer[..5], &[0x11, 0x22, 0x33, 0x44, 0]);

    match card.write_block(0, &[0u8; 10], 512) {
        Err(SdError::Other(m)) => assert_eq!(m, "Yanlış veri boyutu"),
        _ => panic!("wrong outcome"),
    }
    assert!(matches!(card.write_block(5000, &[0u8; 512], 512), Err(SdError::InvalidAddress)));
    let w = card.write_block(0, &buffer, 512).unwrap();
    assert_eq!(w, words);
    assert!(SdCardApi::write_result(Ok(())).is_ok());
    assert!(matches!(SdCardApi::write_result(Err(1)), Err(SdError::WriteError)));
}

#[test]
fn status_wait_succeeds_fails_or_waits() {
    let mut w = sahne_karnal::sd::StatusWait::new(0x2, 2);
    assert_eq!(w.step(0x1), None);
    assert_eq!(w.polls_left, 1);
    assert_eq!(w.step(0x3), Some(Ok(())));
    let mut w = sahne_karnal::sd::StatusWait::new(0x2, 1);
    assert_eq!(w.step(0x0), Some(Err(ERROR_TIMEOUT)));
    assert_eq!(w.step(0x2), Some(Err(ERROR_TIMEOUT)));
}
