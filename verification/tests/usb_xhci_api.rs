use sahne_karnal::usbxhci::{UsbHata, UsbYonetici, XhciDriver, XhciError, XHCI_BASE_ADDRESS};

#[test]
fn srcdriversusbxhci_aygit_listeleme_testi() {
    let yonetici_sonucu = UsbYonetici::yeni(Ok(()));
    assert!(yonetici_sonucu.is_ok());
    let yonetici = yonetici_sonucu.unwrap();
    let sonuc = yonetici.aygitlari_listele();
    assert!(sonuc.is_ok());
}

#[test]
fn srcdriversusbxhci_aygit_acma_testi() {
    let yonetici_sonucu = UsbYonetici::yeni(Ok(()));
    assert!(yonetici_sonucu.is_ok());
    let yonetici = yonetici_sonucu.unwrap();
    let _sonuc = yonetici.aygiti_ac("USB Aygıt 1");

    let sonuc = yonetici.aygiti_ac("olmayan_aygıt");
    assert!(sonuc.is_err());
    assert!(matches!(sonuc.unwrap_err(), UsbHata::AygitBulunamadi));
}

#[test]
fn srcdriversusbxhci_veri_okuma_yazma_testi() {
    let yonetici_sonucu = UsbYonetici::yeni(Ok(()));
    assert!(yonetici_sonucu.is_ok());
    let yonetici = yonetici_sonucu.unwrap();
    let _aygit_sonucu = yonetici.aygiti_ac("USB Aygıt 1");
}

#[test]
fn xhci_failed_bring_up_is_a_driver_error() {
    let sonuc = UsbYonetici::yeni(Err(XhciError::InitializationError));
    assert!(matches!(sonuc, Err(UsbHata::SurucuHatasi(XhciError::InitializationError))));
}

#[test]
fn xhci_bring_up_needs_both_waits() {
    assert_eq!(XhciDriver::initialize(Ok(()), Ok(())), Ok(()));
    assert_eq!(
        XhciDriver::initialize(Err(XhciError::RegisterAccessError), Ok(())),
        Err(XhciError::InitializationError)
    );
    assert_eq!(
        XhciDriver::initialize(Ok(()), Err(XhciError::TransferError)),
        Err(XhciError::InitializationError)
    );
}

#[test]
fn xhci_listed_devices_match_driver() {
    let yonetici = UsbYonetici::yeni(Ok(())).unwrap();
    let aygitlar = yonetici.aygitlari_listele().unwrap();
    let surucu = XhciDriver::new(XHCI_BASE_ADDRESS);
    let cihazlar = surucu.get_connected_devices();
    assert_eq!(aygitlar.len(), cihazlar.len());
    for (aygit, cihaz) in aygitlar.iter().zip(cihazlar.iter()) {
        assert_eq!(aygit.device_address, cihaz.address);
        assert_eq!(aygit.aygit_adi, format!("USB Aygıt {}", cihaz.address));
    }
}

#[test]
fn every_listed_xhci_device_opens_by_its_name() {
    let yonetici = UsbYonetici::yeni(Ok(())).unwrap();
    let listed = yonetici.aygitlari_listele().unwrap();
    assert_eq!(listed.len(), 2);
    for aygit in listed.iter() {
        let opened = yonetici.aygiti_ac(&aygit.aygit_adi).unwrap();
        assert_eq!(opened.device_address, aygit.device_address);
    }
    assert!(matches!(yonetici.aygiti_ac("USB Aygıt 0"), Err(UsbHata::AygitBulunamadi)));
}
