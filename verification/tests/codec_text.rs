use sahne_karnal::codec::{
    load_words_le, store_words_le, u16_from_le, u16_to_be, u16_to_le, u32_from_le, u32_to_be, u32_to_le,
    u64_to_be,
};
use sahne_karnal::text::{prefixed, push_decimal, push_decimal_u64, push_hex, str_eq};

#[test]
fn codec_decodes_little_endian() {
    assert_eq!(u16_from_le(0x34, 0x12), 0x1234);
    assert_eq!(u32_from_le(0x78, 0x56, 0x34, 0x12), 0x1234_5678);
    assert_eq!(u32_from_le(0xff, 0xff, 0xff, 0xff), u32::MAX);
}

#[test]
fn codec_encodes_both_orders() {
    assert_eq!(u16_to_be(0x1234), [0x12, 0x34]);
    assert_eq!(u16_to_le(0x1234), [0x34, 0x12]);
    assert_eq!(u32_to_be(0x1234_5678), [0x12, 0x34, 0x56, 0x78]);
    assert_eq!(u32_to_le(0x1234_5678), [0x78, 0x56, 0x34, 0x12]);
    assert_eq!(u64_to_be(0x0102_0304_0506_0708), [1, 2, 3, 4, 5, 6, 7, 8]);
}

#[test]
fn codec_words_round_trip() {
    let mut bytes = [0u8; 520];
    for (i, b) in bytes.iter_mut().enumerate() {
        *b = (i * 7 % 256) as u8;
    }
    let words = load_words_le(&bytes);
    assert_eq!(words[0], u32::from_le_bytes([bytes[0], bytes[1], bytes[2], bytes[3]]));
    assert_eq!(words[127], u32::from_le_bytes([bytes[508], bytes[509], bytes[510], bytes[511]]));
    let mut back = [0xaau8; 520];
    store_words_le(&words, &mut back);
    assert_eq!(&back[..512], &bytes[..512]);
    assert_eq!(&back[512..], &[0xaau8; 8]);
}

#[test]
fn text_writes_numbers() {
    let mut s = String::from("x=");
    push_decimal(&mut s, 0);
    s.push(',');
    push_decimal(&mut s, 7);
    s.push(',');
    push_decimal(&mut s, 42);
    s.push(',');
    push_decimal(&mut s, 255);
    assert_eq!(s, "x=0,7,42,255");

    let mut s = String::new();
    push_decimal_u64(&mut s, 18_446_744_073_709_551_615);
    assert_eq!(s, "18446744073709551615");
    let mut s = String::new();
    push_decimal_u64(&mut s, 1000);
    assert_eq!(s, "1000");

    let mut s = String::from("0x");
    push_hex(&mut s, 0xab, 2);
    assert_eq!(s, "0xAB");
    let mut s = String::new();
    push_hex(&mut s, 0x1f, 4);
    assert_eq!(s, "001F");
    let mut s = String::new();
    push_hex(&mut s, 0x12345, 4);
    assert_eq!(s, "2345");
    let mut s = String::from("-");
    push_hex(&mut s, 0x99, 0);
    assert_eq!(s, "-");
}

#[test]
fn text_compares_and_joins() {
    assert!(str_eq("USB Aygıt 1", "USB Aygıt 1"));
    assert!(!str_eq("USB Aygıt 1", "USB Aygıt 2"));
    assert!(!str_eq("a", "ab"));
    assert_eq!(prefixed("M-PHY hatası: ", "Zaman aşımı"), "M-PHY hatası: Zaman aşımı");
    assert_eq!(prefixed("", ""), "");
}
