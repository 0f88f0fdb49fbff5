use sahne_karnal::ufs_mphy::{MphyError, MphyInstance};
use sahne_karnal::ufs_uniprot::{UniprotError, UniprotInstance};

const BASE: u64 = 0x3000_0000;

#[test]
fn uniprot_versions_accepted() {
    let m = MphyInstance::new(BASE, 0x0400).unwrap();
    assert!(matches!(UniprotInstance::new(BASE, m, 0x0099), Err(UniprotError::UnsupportedUFSVersion)));
    let m = MphyInstance::new(BASE, 0x0400).unwrap();
    assert!(matches!(UniprotInstance::new(BASE, m, 0x0401), Err(UniprotError::UnsupportedUFSVersion)));
    let m = MphyInstance::new(BASE, 0x0400).unwrap();
    assert!(UniprotInstance::new(BASE, m, 0x0100).is_ok());
}

#[test]
fn uniprot_command_exchange() {
    let m = MphyInstance::new(BASE, 0x0400).unwrap();
    let mut u = UniprotInstance::new(BASE, m, 0x0210).unwrap();
    let x = u.execute_command(&[0x28, 0, 0, 0, 0, 1, 0, 0, 1, 0], 512).unwrap();
    assert_eq!((x.command.register, x.command.length), (BASE + 4, 10));
    assert_eq!((x.response.register, x.response.length), (BASE + 4, 512));
    assert_eq!(u.register_address(0x20), BASE + 0x20);
}

#[test]
fn uniprot_versions_without_a_procedure() {
    let m = MphyInstance::new(BASE, 0x0400).unwrap();
    let mut u = UniprotInstance::new(BASE, m, 0x0110).unwrap();
    assert!(matches!(u.execute_command(&[0x12], 36), Err(UniprotError::UnsupportedUFSVersion)));
    let m = MphyInstance::new(BASE, 0x0400).unwrap();
    let mut u = UniprotInstance::new(BASE, m, 0x0320).unwrap();
    assert!(matches!(u.execute_command(&[0x12], 36), Err(UniprotError::UnsupportedUFSVersion)));
    let m = MphyInstance::new(BASE, 0x0310).unwrap();
    let mut u = UniprotInstance::new(BASE, m, 0x0310).unwrap();
    let x = u.execute_command(&[0x12], 36).unwrap();
    assert_eq!((x.command.length, x.response.length), (1, 36));
    let m = MphyInstance::new(BASE, 0x0400).unwrap();
    let mut u = UniprotInstance::new(BASE, m, 0x0400).unwrap();
    assert!(u.execute_command(&[0x12], 36).is_ok());
}

#[test]
fn uniprot_from_mphy_error() {
    assert!(matches!(UniprotError::from(MphyError::CrcError), UniprotError::MphyError(MphyError::CrcError)));
}
