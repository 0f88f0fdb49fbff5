//! What the kernel does with device-tree properties once they are looked
//! up: a property read as text, and the line that reports the machine's
//! `compatible` string.
use vstd::prelude::*;
use vstd::utf8::{valid_utf8, decode_utf8};

verus! {

/// `String::from_utf8`: the bytes as a string when they are valid UTF-8,
/// whose characters are then their decoding; nothing otherwise.
#[verifier::external_body]
fn utf8_string(bytes: &[u8]) -> (r: Option<String>)
    ensures
        r is Some <==> valid_utf8(bytes@),
        r matches Some(s) ==> s@ == decode_utf8(bytes@),
{
    String::from_utf8(bytes.to_vec()).ok()
}

/// A property's value as text: none when there is no such property or its
/// bytes are not UTF-8; otherwise the characters they encode.
pub fn get_property_str(value: Option<&[u8]>) -> (r: Option<String>)
    ensures
        value is None ==> r is None,
        value matches Some(v) ==> (r is Some <==> valid_utf8(v@)),
        value matches Some(v) ==> (r matches Some(s) ==> s@ == decode_utf8(v@)),
{
    match value {
        Some(v) => utf8_string(v),
        None => None,
    }
}

/// The line printed for the root node's `compatible` property: its value,
/// or a note that there is none.
pub open spec fn compatible_line(compatible: Option<Seq<char>>) -> Seq<char> {
    match compatible {
        Some(c) => "Cihaz uyumluluğu: "@ + c,
        None => "Uyumluluk bilgisi bulunamadı."@,
    }
}

pub fn print_compatible(compatible: Option<&str>) -> (r: String)
    ensures
        r@ == compatible_line(match compatible {
            Some(c) => Some(c@),
            None => None,
        }),
{
    match compatible {
        Some(c) => {
            let mut s = String::from_str("Cihaz uyumluluğu: ");
            s.append(c);
            s
        },
        None => String::from_str("Uyumluluk bilgisi bulunamadı."),
    }
}

} // verus!
