use sahne_karnal::raid::{
    init_raid, raid_get_block_count, raid_location, raid_read_block, raid_write_block, RaidArray,
    SimpleDisk, BLOCK_SIZE, DISK_BLOCKS,
};
use sahne_karnal::sas::{SasDriver, RESET_VALUE};
use sahne_karnal::spi::{spi0, Spi, SpiConfig, SpiMode, SPI_ENABLE_BIT};

#[test]
fn raid_stripes_over_two_disks() {
    let raid = init_raid();
    assert_eq!(raid.block_size, BLOCK_SIZE);
    assert_eq!(raid_location(&raid, 0), (0, 0));
    assert_eq!(raid_location(&raid, 5), (0, 5));
    assert_eq!(raid_location(&raid, DISK_BLOCKS - 1), (0, DISK_BLOCKS - 1));
    assert_eq!(raid_location(&raid, DISK_BLOCKS), (1, 0));
    assert_eq!(raid_location(&raid, 2 * DISK_BLOCKS - 1), (1, DISK_BLOCKS - 1));
    // Past the end, the block number wraps around the array.
    assert_eq!(raid_location(&raid, 2 * DISK_BLOCKS + 3), (0, 3));
}

#[test]
fn raid_distinct_blocks_have_distinct_places() {
    let raid = init_raid();
    let mut seen = std::collections::HashSet::new();
    for b in 0..2 * DISK_BLOCKS {
        assert!(seen.insert(raid_location(&raid, b)));
    }
}

#[test]
fn raid_reads_the_disk_pattern() {
    let raid = Some(init_raid());
    let mut buffer = [0u8; BLOCK_SIZE];
    assert_eq!(raid_read_block(&raid, DISK_BLOCKS + 3, &mut buffer), Ok(()));
    for (i, b) in buffer.iter().enumerate() {
        assert_eq!(*b, ((3 + i) % 256) as u8);
    }
    assert_eq!(raid_read_block(&raid, 300, &mut buffer), Ok(()));
    assert_eq!(buffer[0], 44);
    assert_eq!(buffer[511], ((300 % 256 + 511) % 256) as u8);
}

#[test]
fn raid_refuses_bad_requests() {
    let raid = Some(init_raid());
    let mut short = [9u8; 100];
    assert_eq!(raid_read_block(&raid, 0, &mut short), Err(()));
    assert_eq!(short, [9u8; 100]);
    assert_eq!(raid_write_block(&raid, 0, &short), Err(()));
    let mut buffer = [0u8; BLOCK_SIZE];
    assert_eq!(raid_read_block(&None, 0, &mut buffer), Err(()));
    assert_eq!(raid_write_block(&None, 0, &buffer), Err(()));
    assert_eq!(raid_write_block(&raid, 7, &buffer), Ok(()));
}

#[test]
fn raid_missing_or_small_disks() {
    let one_disk = Some(RaidArray { disks: [Some(SimpleDisk::new("disk1", 4)), None], block_size: BLOCK_SIZE });
    let mut buffer = [0u8; BLOCK_SIZE];
    assert_eq!(raid_read_block(&one_disk, 2, &mut buffer), Ok(()));
    assert_eq!(raid_read_block(&one_disk, 5, &mut buffer), Err(()));
    assert_eq!(raid_write_block(&one_disk, 5, &buffer), Err(()));
    let uneven = Some(RaidArray {
        disks: [Some(SimpleDisk::new("disk1", 4)), Some(SimpleDisk::new("disk2", 2))],
        block_size: BLOCK_SIZE,
    });
    assert_eq!(raid_read_block(&uneven, 5, &mut buffer), Ok(()));
    assert_eq!(raid_read_block(&uneven, 6, &mut buffer), Err(()));
    assert_eq!(raid_write_block(&uneven, 6, &buffer), Err(()));
}

#[test]
fn raid_block_count() {
    assert_eq!(raid_get_block_count(&Some(init_raid())), 2 * DISK_BLOCKS);
    assert_eq!(raid_get_block_count(&None), 0);
    let no_first = Some(RaidArray { disks: [None, Some(SimpleDisk::new("disk2", 8))], block_size: BLOCK_SIZE });
    assert_eq!(raid_get_block_count(&no_first), 0);
}

#[test]
fn sas_registers_and_status() {
    let mut driver = SasDriver::new(0x1000, 0x8000);
    assert_eq!(driver.initialize(), (0x1010, RESET_VALUE));
    assert_eq!(driver.status_register(), 0x8008);
    assert_eq!(driver.data_address(0x20), 0x8020);
    assert!(SasDriver::detect_device(1));
    assert!(SasDriver::detect_device(0xffff_ffff));
    assert!(!SasDriver::detect_device(2));
}

#[test]
fn sas_reads_from_the_window() {
    let driver = SasDriver::new(0x1000, 0x8000);
    let window = [1u8, 2, 3, 4, 5, 6];
    let mut buffer = [0u8; 5];
    assert_eq!(driver.read_data(3, &mut buffer, &window), Ok(()));
    assert_eq!(buffer, [1, 2, 3, 0, 0]);
    let mut small = [7u8; 2];
    assert_eq!(driver.read_data(3, &mut small, &window), Err("Tampon çok küçük"));
    assert_eq!(small, [7, 7]);
    assert_eq!(driver.write_data(&[1, 2, 3]), Ok(()));
}

#[test]
fn spi_registers() {
    let mut spi = spi0(0x4000);
    assert_eq!(spi.config, SpiConfig { clock_speed: 1_000_000, mode: SpiMode::Mode0 });
    let w = spi.init();
    assert_eq!(w.address, 0x4000);
    assert_eq!(w.value, SPI_ENABLE_BIT);
    let regs = spi.transfer_registers();
    assert_eq!((regs.data_out, regs.status, regs.data_in), (0x4004, 0x400c, 0x4008));
    assert!(Spi::busy(0x80));
    assert!(Spi::busy(0xff));
    assert!(!Spi::busy(0x7f));
    let other = Spi::new(0x10, SpiConfig { clock_speed: 5, mode: SpiMode::Mode3 });
    assert_eq!(other.base_address, 0x10);
}
