use sahne_karnal::dtb_x86::get_dtb_address;
use sahne_karnal::wifi::{
    initialize_hardware, parse_standard, receive_data, receive_packet_ax, receive_raw_packet, send_data,
    send_packet_be, send_raw_packet, set_wifi_standard, shutdown_hardware, WifiStandard,
};

#[test]
fn wifi_standards_by_name() {
    assert_eq!(parse_standard("4"), Some(WifiStandard::Ieee80211n));
    assert_eq!(parse_standard("5"), Some(WifiStandard::Ieee80211ac));
    assert_eq!(parse_standard("6"), Some(WifiStandard::Ieee80211ax));
    assert_eq!(parse_standard("7"), Some(WifiStandard::Ieee80211be));
    assert_eq!(parse_standard("8"), None);
    assert_eq!(parse_standard("66"), None);
    assert_eq!(parse_standard(""), None);
}

#[test]
fn wifi_set_standard() {
    assert_eq!(set_wifi_standard("6"), Ok(()));
    assert_eq!(set_wifi_standard("3"), Err("Desteklenmeyen Wi-Fi standardı: 3".to_string()));
}

#[test]
fn wifi_send_and_receive() {
    assert_eq!(send_data(&[0x41, 0x42, 0x43, 0x44, 0x45], "6"), Ok(()));
    assert_eq!(send_data(&[], "4"), Ok(()));
    assert_eq!(send_data(&[1], "wifi"), Err("Desteklenmeyen Wi-Fi standardı: wifi".to_string()));
    for s in ["4", "5", "6", "7"] {
        assert_eq!(receive_data(s), Ok(vec![1, 2, 3, 4]));
    }
    assert_eq!(receive_data("0"), Err("Desteklenmeyen Wi-Fi standardı: 0".to_string()));
}

#[test]
fn wifi_hardware_placeholders() {
    assert_eq!(initialize_hardware(), Ok(()));
    assert_eq!(shutdown_hardware(), Ok(()));
    assert_eq!(send_raw_packet(&[1, 2]), Ok(()));
    assert_eq!(send_packet_be(&[1, 2]), Ok(()));
    assert_eq!(receive_raw_packet(), Ok(vec![1, 2, 3, 4]));
    assert_eq!(receive_packet_ax(), Ok(vec![1, 2, 3, 4]));
}

#[test]
fn dtb_x86_placeholder_address() {
    assert_eq!(get_dtb_address(), 0x1000_0000);
}

#[test]
fn dtb_property_text() {
    use_dtb_text();
}

fn use_dtb_text() {
    assert_eq!(sahne_karnal::dtb::get_property_str(None), None);
    assert_eq!(sahne_karnal::dtb::get_property_str(Some(b"arm,vexpress")), Some("arm,vexpress".to_string()));
    assert_eq!(sahne_karnal::dtb::get_property_str(Some(&[0x61, 0xc3, 0xa7])), Some("aç".to_string()));
    assert_eq!(sahne_karnal::dtb::get_property_str(Some(&[0x61, 0xc3])), None);
    assert_eq!(sahne_karnal::dtb::print_compatible(Some("arm,vexpress")), "Cihaz uyumluluğu: arm,vexpress");
    assert_eq!(sahne_karnal::dtb::print_compatible(None), "Uyumluluk bilgisi bulunamadı.");
}
