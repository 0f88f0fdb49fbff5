use sahne_karnal::usb::{device_name_string, UsbHata, UsbYonetici};

/// Status of a controller that started (run bit set).
const RUNNING: u32 = 1;

#[test]
fn srcdriversusb_aygit_listeleme_testi() {
    let yonetici_sonucu = UsbYonetici::yeni(RUNNING);
    assert!(yonetici_sonucu.is_ok());
    let yonetici = yonetici_sonucu.unwrap();
    let sonuc = yonetici.aygitlari_listele();
    assert!(sonuc.is_ok());
    assert_eq!(sonuc.unwrap().len(), 2);
}

#[test]
fn srcdriversusb_aygit_acma_testi() {
    let yonetici_sonucu = UsbYonetici::yeni(RUNNING);
    assert!(yonetici_sonucu.is_ok());
    let yonetici = yonetici_sonucu.unwrap();
    let sonuc = yonetici.aygiti_ac("USB Aygıt 1");
    assert!(sonuc.is_ok());
    assert_eq!(sonuc.unwrap().aygit_adi, "USB Aygıt 1");

    let sonuc = yonetici.aygiti_ac("olmayan_aygıt");
    assert!(sonuc.is_err());
    assert!(matches!(sonuc.unwrap_err(), UsbHata::AygitBulunamadi));
}

#[test]
fn srcdriversusb_veri_okuma_yazma_testi() {
    let yonetici_sonucu = UsbYonetici::yeni(RUNNING);
    assert!(yonetici_sonucu.is_ok());
    let yonetici = yonetici_sonucu.unwrap();
    let aygit_sonucu = yonetici.aygiti_ac("USB Aygıt 1");
    assert!(aygit_sonucu.is_ok());
    let aygit = aygit_sonucu.unwrap();

    let okuma_sonucu = aygit.veri_oku(512);
    assert!(okuma_sonucu.is_ok());
    assert_eq!(okuma_sonucu.unwrap().len(), 512);

    let yazma_sonucu = aygit.veri_yaz(&[1; 1024]);
    assert!(yazma_sonucu.is_ok());
}

#[test]
fn usb_controller_that_does_not_run_is_a_driver_error() {
    let sonuc = UsbYonetici::yeni(0);
    assert!(matches!(sonuc, Err(UsbHata::SurucuHatasi("XHCI kontrolcüsü başlatılamadı."))));
}

#[test]
fn usb_device_names_follow_addresses() {
    let yonetici = UsbYonetici::yeni(RUNNING).unwrap();
    let aygitlar = yonetici.aygitlari_listele().unwrap();
    assert_eq!(aygitlar[0].aygit_adi, "USB Aygıt 1");
    assert_eq!(aygitlar[0].device_address, 1);
    assert_eq!(aygitlar[1].aygit_adi, "USB Aygıt 2");
    assert_eq!(aygitlar[1].device_address, 2);
    assert_eq!(device_name_string(123), "USB Aygıt 123");
    assert_eq!(device_name_string(0), "USB Aygıt 0");
}

#[test]
fn usb_opened_device_reads_zeroes() {
    let yonetici = UsbYonetici::yeni(RUNNING).unwrap();
    let aygit = yonetici.aygiti_ac("USB Aygıt 2").unwrap();
    assert_eq!(aygit.device_address, 2);
    assert_eq!(aygit.veri_oku(4).unwrap(), vec![0u8, 0, 0, 0]);
    assert!(aygit.veri_oku(0).unwrap().is_empty());
}

#[test]
fn every_listed_device_opens_by_its_name() {
    let yonetici = UsbYonetici::yeni(RUNNING).unwrap();
    let listed = yonetici.aygitlari_listele().unwrap();
    for aygit in listed.iter() {
        let opened = yonetici.aygiti_ac(&aygit.aygit_adi).unwrap();
        assert_eq!(opened.device_address, aygit.device_address);
        assert_eq!(opened.aygit_adi, aygit.aygit_adi);
    }
    assert!(matches!(yonetici.aygiti_ac("USB Aygıt 3"), Err(UsbHata::AygitBulunamadi)));
}
