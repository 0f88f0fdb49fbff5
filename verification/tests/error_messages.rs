use sahne_karnal::ufs_scsi;
use sahne_karnal::ufs_core::DescriptorError;

#[test]
fn descriptor_error_messages() {
    assert_eq!(
        DescriptorError::InvalidDescriptorType(0x0a).message(),
        "Geçersiz Descriptor Tipi: Beklenen 0x01, alınan 0x0A"
    );
    assert_eq!(
        DescriptorError::InvalidDescriptorLength(13, 4).message(),
        "Geçersiz Descriptor Uzunluğu: Beklenen en az 13 byte, alınan 4 byte"
    );
    assert_eq!(DescriptorError::ParseError.message(), "Descriptor ayrıştırma hatası");
    assert_eq!(
        DescriptorError::UnsupportedUFSVersion(0x0500).message(),
        "Desteklenmeyen UFS Versiyonu: 0x0500"
    );
    assert_eq!(
        DescriptorError::UnsupportedUFSVersion(0xabcd).message(),
        format!("Desteklenmeyen UFS Versiyonu: 0x{:04X}", 0xabcd)
    );
    assert_eq!(
        DescriptorError::InsufficientData(1024, 0).message(),
        "Yetersiz Veri: En az 1024 byte gerekli, 0 byte sağlandı"
    );
}

#[test]
fn ufs_stack_error_messages() {
    assert_eq!(sahne_karnal::ufs_mphy::MphyError::Timeout.message(), "Zaman aşımı");
    assert_eq!(sahne_karnal::ufs_mphy::MphyError::RegisterError.message(), "Register Erişim Hatası");
    assert_eq!(sahne_karnal::ufs_mphy::uniprot::UniprotError::MphyError(sahne_karnal::ufs_mphy::MphyError::CrcError).message(), "M-PHY hatası: CRC hatası");
    assert_eq!(sahne_karnal::ufs_mphy::uniprot::UniprotError::Other("bağ".to_string()).message(), "Diğer UniPro hatası: bağ");
    assert_eq!(sahne_karnal::ufs_mphy::UfsError::OpenError.message(), "Aygıt açma hatası");
    assert_eq!(
        sahne_karnal::ufs_mphy::UfsError::UniprotError(sahne_karnal::ufs_mphy::uniprot::UniprotError::MphyError(sahne_karnal::ufs_mphy::MphyError::UnsupportedUFSVersion)).message(),
        "UniPro hatası: M-PHY hatası: Desteklenmeyen UFS Versiyonu"
    );
    assert_eq!(sahne_karnal::ufs_mphy::UfsError::Other("x".to_string()).message(), "Diğer hata: x");
}

#[test]
fn ufs_scsi_error_messages() {
    assert_eq!(sahne_karnal::ufs_scsi::ScsiError::InvalidCommand.message(), "Geçersiz SCSI komutu");
    assert_eq!(sahne_karnal::ufs_scsi::ScsiError::Other("kısa").message(), "Hata: kısa");
    assert_eq!(sahne_karnal::ufs_scsi::UfsError::ScsiError(sahne_karnal::ufs_scsi::ScsiError::InvalidResponse).message(), "SCSI hatası: Geçersiz yanıt formatı");
    assert_eq!(sahne_karnal::ufs_scsi::UfsError::MphyError(sahne_karnal::ufs_scsi::mphy::MphyError::ReceptionError).message(), "M-PHY hatası: Veri Alma Hatası");
    assert_eq!(sahne_karnal::ufs_scsi::UfsError::InvalidParameter.message(), "Geçersiz parametre");
}

#[test]
fn ufs_module_error_messages() {
    assert_eq!(sahne_karnal::ufs::mphy::MphyError::LinkUpError.message(), "M-PHY bağlantı hatası");
    assert_eq!(sahne_karnal::ufs::mphy::MphyError::Other("a".to_string()).message(), "Diğer M-PHY hatası: a");
    assert_eq!(
        sahne_karnal::ufs::UfsError::MphyError(sahne_karnal::ufs::mphy::MphyError::InitializationError).message(),
        "M-PHY hatası: M-PHY başlatma hatası"
    );
    assert_eq!(
        sahne_karnal::ufs::UfsError::UniprotError(sahne_karnal::ufs::uniprot::UniprotError::MphyError(sahne_karnal::ufs::mphy::MphyError::LinkUpError)).message(),
        "UniPro hatası: M-PHY hatası: M-PHY bağlantı hatası"
    );
    assert_eq!(sahne_karnal::ufs::UfsError::CloseError.message(), "Aygıt kapatma hatası");
}

#[test]
fn ufs_uniprot_error_messages() {
    assert_eq!(sahne_karnal::ufs_uniprot::UniprotError::Timeout.message(), "Zaman aşımı");
    assert_eq!(sahne_karnal::ufs_uniprot::UniprotError::RegisterAccessError.message(), "Register Erişim Hatası");
    assert_eq!(sahne_karnal::ufs_uniprot::UniprotError::MphyError(sahne_karnal::ufs_mphy::MphyError::TransmissionError).message(), "M-PHY hatası: Veri Gönderme Hatası");
}

#[test]
fn usb_error_messages() {
    assert_eq!(sahne_karnal::usb::UsbHata::AygitBulunamadi.message(), "USB aygıtı bulunamadı.");
    assert_eq!(sahne_karnal::usb::UsbHata::Diger("d".to_string()).message(), "Diğer USB hatası: d");
    assert_eq!(sahne_karnal::usb::UsbHata::SurucuHatasi("yok").message(), "USB sürücü hatası: yok");
    assert_eq!(sahne_karnal::usbxhci::UsbHata::VeriYazmaHatasi.message(), "USB aygıtına veri yazma hatası.");
    assert_eq!(
        sahne_karnal::usbxhci::UsbHata::SurucuHatasi(sahne_karnal::usbxhci::XhciError::DeviceNotFound).message(),
        "USB sürücü hatası: DeviceNotFound"
    );
    assert_eq!(sahne_karnal::usbxhci::XhciError::TransferError.name_str(), format!("{:?}", sahne_karnal::usbxhci::XhciError::TransferError));
}

#[test]
fn layer_errors_convert_into_device_errors() {
    let e = ufs_scsi::UfsError::from(ufs_scsi::ScsiError::InvalidResponse);
    assert!(matches!(e, ufs_scsi::UfsError::ScsiError(ufs_scsi::ScsiError::InvalidResponse)));
    let s = ufs_scsi::ScsiError::from("yanıt yok");
    assert!(matches!(s, ufs_scsi::ScsiError::Other("yanıt yok")));
    let m = sahne_karnal::ufs_mphy::UfsError::from(sahne_karnal::ufs_mphy::MphyError::CrcError);
    assert!(matches!(m, sahne_karnal::ufs_mphy::UfsError::MphyError(sahne_karnal::ufs_mphy::MphyError::CrcError)));
    let u = sahne_karnal::ufs::UfsError::from(sahne_karnal::ufs::mphy::MphyError::LinkUpError);
    assert!(matches!(u, sahne_karnal::ufs::UfsError::MphyError(sahne_karnal::ufs::mphy::MphyError::LinkUpError)));
}
