//! UFS device descriptors and a simulated UFS device built from one.
//!
//! A device descriptor starts with a fixed header (total length, type,
//! UFS version, logical units, features and the three name lengths) and is
//! followed by the manufacturer, product and serial-number names: each at
//! most as long as its length field says, ending early at a zero byte, and
//! followed by one zero byte where there is one.
//! Descriptors of UFS 2.0 and later end with two configuration bytes.
use vstd::prelude::*;
use crate::text::{decimal, hex_fixed, push_decimal_u64, push_hex};
use vstd::utf8::{valid_utf8, decode_utf8};
use crate::codec::{le16_value, u16_from_le};

verus! {

pub const DESCRIPTOR_TYPE_DEVICE: u8 = 0x01;
pub const UFS_VERSION_MIN: u16 = 0x0100;
pub const UFS_VERSION_MAX: u16 = 0x0400;
pub const UFS_VERSION_2_0: u16 = 0x0200;
/// Offset of the first name in a descriptor.
pub const NAMES_OFFSET: usize = 13;
/// Room for one name in a [`DeviceDescriptor`].
pub const NAME_CAPACITY: usize = 256;

#[allow(non_snake_case)]
#[derive(Debug, Clone, Copy)]
pub struct DeviceDescriptor {
    pub wTotalLength: u16,
    pub bDescriptorType: u8,
    pub bcdUFSVersion: u16,
    pub bNumberOfLogicalUnits: u8,
    pub bUFSFeatures: u8,
    pub wManufacturerNameLength: u16,
    pub ManufacturerName: [u8; 256],
    pub wProductNameLength: u16,
    pub ProductName: [u8; 256],
    pub wSerialNumberLength: u16,
    pub SerialNumber: [u8; 256],
    pub bConfigurationSetting: u8,
    pub bMaxNumberSupportedConfigurations: u8,
}

#[derive(Debug)]
pub enum DescriptorError {
    InvalidDescriptorType(u8),
    /// (expected, actual)
    InvalidDescriptorLength(usize, usize),
    ParseError,
    UnsupportedUFSVersion(u16),
    /// (required, actual)
    InsufficientData(usize, usize),
}

impl DescriptorError {
    /// What the error says: numbers in decimal, the type byte and the
    /// version in upper-case hexadecimal of two and four digits.
    pub open spec fn text(self) -> Seq<char> {
        match self {
            DescriptorError::InvalidDescriptorType(t) =>
                "Geçersiz Descriptor Tipi: Beklenen 0x01, alınan 0x"@ + hex_fixed(t as nat, 2),
            DescriptorError::InvalidDescriptorLength(expected, actual) =>
                "Geçersiz Descriptor Uzunluğu: Beklenen en az "@ + decimal(expected as nat) + " byte, alınan "@
                    + decimal(actual as nat) + " byte"@,
            DescriptorError::ParseError => "Descriptor ayrıştırma hatası"@,
            DescriptorError::UnsupportedUFSVersion(v) =>
                "Desteklenmeyen UFS Versiyonu: 0x"@ + hex_fixed(v as nat, 4),
            DescriptorError::InsufficientData(required, actual) =>
                "Yetersiz Veri: En az "@ + decimal(required as nat) + " byte gerekli, "@ + decimal(actual as nat)
                    + " byte sağlandı"@,
        }
    }

    /// The error's message.
    pub fn message(&self) -> (r: String)
        ensures
            r@ == self.text(),
    {
        match self {
            DescriptorError::InvalidDescriptorType(t) => {
                let mut s = String::from_str("Geçersiz Descriptor Tipi: Beklenen 0x01, alınan 0x");
                push_hex(&mut s, *t as u64, 2);
                s
            },
            DescriptorError::InvalidDescriptorLength(expected, actual) => {
                let mut s = String::from_str("Geçersiz Descriptor Uzunluğu: Beklenen en az ");
                push_decimal_u64(&mut s, *expected as u64);
                s.append(" byte, alınan ");
                push_decimal_u64(&mut s, *actual as u64);
                s.append(" byte");
                s
            },
            DescriptorError::ParseError => String::from_str("Descriptor ayrıştırma hatası"),
            DescriptorError::UnsupportedUFSVersion(v) => {
                let mut s = String::from_str("Desteklenmeyen UFS Versiyonu: 0x");
                push_hex(&mut s, *v as u64, 4);
                s
            },
            DescriptorError::InsufficientData(required, actual) => {
                let mut s = String::from_str("Yetersiz Veri: En az ");
                push_decimal_u64(&mut s, *required as u64);
                s.append(" byte gerekli, ");
                push_decimal_u64(&mut s, *actual as u64);
                s.append(" byte sağlandı");
                s
            },
        }
    }
}

/// The BCD version field, stored most significant byte first.
pub open spec fn bcd_version(hi: u8, lo: u8) -> u16 {
    (hi * 0x100 + lo) as u16
}

/// The first error of the fixed header, if any: too short to hold the
/// header, shorter than its own total length, not a device descriptor, or
/// a UFS version outside 1.0 to 4.0.
pub open spec fn header_error(data: Seq<u8>) -> Option<DescriptorError> {
    if data.len() < 6 {
        Some(DescriptorError::InsufficientData(6, data.len() as usize))
    } else if data.len() < le16_value(data[0], data[1]) {
        Some(DescriptorError::InvalidDescriptorLength(le16_value(data[0], data[1]) as usize, data.len() as usize))
    } else if data[2] != DESCRIPTOR_TYPE_DEVICE {
        Some(DescriptorError::InvalidDescriptorType(data[2]))
    } else if bcd_version(data[3], data[4]) < UFS_VERSION_MIN || bcd_version(data[3], data[4]) > UFS_VERSION_MAX {
        Some(DescriptorError::UnsupportedUFSVersion(bcd_version(data[3], data[4])))
    } else {
        None
    }
}

/// The header is accepted exactly when the data hold at least six bytes and
/// no fewer than the total length says, the type is the device descriptor's,
/// and the version is one from UFS 1.0 to UFS 4.0, both included; a version
/// outside that range is refused with that version.
pub proof fn law_header_accepts_versions_1_to_4(data: Seq<u8>)
    requires
        data.len() >= 6,
        data.len() >= le16_value(data[0], data[1]),
        data[2] == 1,
    ensures
        (0x0100 <= bcd_version(data[3], data[4]) <= 0x0400) <==> header_error(data) is None,
        !(0x0100 <= bcd_version(data[3], data[4]) <= 0x0400)
            ==> header_error(data) == Some(DescriptorError::UnsupportedUFSVersion(bcd_version(data[3], data[4]))),
{
}

/// The most bytes a name may have: its length field, and no more than a
/// descriptor holds.
pub open spec fn name_limit(length_field: u16) -> int {
    if length_field < NAME_CAPACITY { length_field as int } else { NAME_CAPACITY as int }
}

/// Reads the name that starts at `start`, from its byte `i` on: a name
/// is at most `max` bytes and ends early at a zero byte, and one zero byte
/// right after it is stepped over. Gives the name's length and the bytes it
/// takes (its length, plus one for a zero byte that follows it), or
/// `InsufficientData` where the data ends before either.
pub open spec fn name_end(data: Seq<u8>, start: int, i: int, max: int) -> Result<(int, int), DescriptorError>
    decreases max - i,
{
    if i >= max {
        if start + max < data.len() && data[start + max] == 0 {
            Ok((max, max + 1))
        } else {
            Ok((max, max))
        }
    } else if start + i >= data.len() {
        Err(DescriptorError::InsufficientData((start + max) as usize, data.len() as usize))
    } else if data[start + i] == 0 {
        Ok((i, i + 1))
    } else {
        name_end(data, start, i + 1, max)
    }
}

/// The three names, one after the other: for each, its length and the
/// bytes it takes.
pub open spec fn name_lengths(data: Seq<u8>) -> Result<((int, int), (int, int), (int, int)), DescriptorError> {
    let start = NAMES_OFFSET as int;
    match name_end(data, start, 0, name_limit(le16_value(data[7], data[8]))) {
        Err(e) => Err(e),
        Ok(m) => match name_end(data, start + m.1, 0, name_limit(le16_value(data[9], data[10]))) {
            Err(e) => Err(e),
            Ok(p) => match name_end(data, start + m.1 + p.1, 0, name_limit(le16_value(data[11], data[12]))) {
                Err(e) => Err(e),
                Ok(s) => Ok((m, p, s)),
            },
        },
    }
}

/// Offset of the configuration bytes, past the three names.
pub open spec fn config_offset(lengths: ((int, int), (int, int), (int, int))) -> int {
    NAMES_OFFSET + lengths.0.1 + lengths.1.1 + lengths.2.1
}

/// The error a descriptor is refused with, if any.
pub open spec fn descriptor_error(data: Seq<u8>) -> Option<DescriptorError> {
    match header_error(data) {
        Some(e) => Some(e),
        None => match name_lengths(data) {
            Err(e) => Some(e),
            Ok(l) => if bcd_version(data[3], data[4]) >= UFS_VERSION_2_0 && data.len() < config_offset(l) + 2 {
                Some(DescriptorError::InsufficientData((config_offset(l) + 2) as usize, data.len() as usize))
            } else {
                None
            },
        },
    }
}

/// A name padded with zero bytes to the room a descriptor has for it.
pub open spec fn padded_name(name: Seq<u8>) -> Seq<u8> {
    name + Seq::new((NAME_CAPACITY - name.len()) as nat, |j: int| 0u8)
}

/// The `n` bytes of the name that starts at `start`.
pub open spec fn name_at(data: Seq<u8>, start: int, n: int) -> Seq<u8> {
    data.subrange(start, start + n)
}

/// The three names of an accepted descriptor, without a zero byte that
/// ends them.
pub open spec fn names(data: Seq<u8>) -> (Seq<u8>, Seq<u8>, Seq<u8>) {
    let l = name_lengths(data)->Ok_0;
    let start = NAMES_OFFSET as int;
    (
        name_at(data, start, l.0.0),
        name_at(data, start + l.0.1, l.1.0),
        name_at(data, start + l.0.1 + l.1.1, l.2.0),
    )
}

/// What an accepted descriptor holds: the header fields as stored (the
/// total and name lengths little-endian), the names padded with zeros, and
/// the configuration bytes from UFS 2.0 on (zero before).
pub open spec fn describes(d: DeviceDescriptor, data: Seq<u8>) -> bool {
    let l = name_lengths(data)->Ok_0;
    let version = bcd_version(data[3], data[4]);
    &&& d.wTotalLength == le16_value(data[0], data[1])
    &&& d.bDescriptorType == data[2]
    &&& d.bcdUFSVersion == version
    &&& d.bNumberOfLogicalUnits == data[5]
    &&& d.bUFSFeatures == data[6]
    &&& d.wManufacturerNameLength == le16_value(data[7], data[8])
    &&& d.wProductNameLength == le16_value(data[9], data[10])
    &&& d.wSerialNumberLength == le16_value(data[11], data[12])
    &&& d.ManufacturerName@ == padded_name(names(data).0)
    &&& d.ProductName@ == padded_name(names(data).1)
    &&& d.SerialNumber@ == padded_name(names(data).2)
    &&& d.bConfigurationSetting == (if version >= UFS_VERSION_2_0 { data[config_offset(l)] } else { 0u8 })
    &&& d.bMaxNumberSupportedConfigurations == (if version >= UFS_VERSION_2_0 { data[config_offset(l) + 1] } else { 0u8 })
}

/// An accepted descriptor carries a UFS version from 1.0 to 4.0, which a
/// device built from it reports.
pub proof fn law_descriptor_version_in_range(data: Seq<u8>)
    requires
        descriptor_error(data) is None,
    ensures
        UFS_VERSION_MIN <= bcd_version(data[3], data[4]) <= UFS_VERSION_MAX,
{
}

/// A name that was read lies inside the data and holds no zero byte, is no
/// longer than allowed, and takes one more byte exactly when a zero byte
/// follows it; only a name of the full length may end without one.
proof fn lemma_name_end(data: Seq<u8>, start: int, i: int, max: int)
    requires
        0 <= start,
        0 <= i <= max,
        start + i <= data.len(),
        name_end(data, start, i, max) is Ok,
    ensures
        ({
            let (n, c) = name_end(data, start, i, max)->Ok_0;
            &&& i <= n <= max
            &&& c == n || c == n + 1
            &&& start + c <= data.len()
            &&& c == n + 1 ==> data[start + n] == 0
            &&& n < max ==> c == n + 1
            &&& forall|j: int| start + i <= j < start + n ==> data[j] != 0
        }),
    decreases max - i,
{
    if i < max && start + i < data.len() && data[start + i] != 0 {
        lemma_name_end(data, start, i + 1, max);
    }
}

/// Reads the name at `start`; see [`name_end`].
fn scan_name(data: &[u8], start: usize, max: usize) -> (r: Result<(usize, usize), DescriptorError>)
    requires
        start + max + 1 <= usize::MAX,
    ensures
        match name_end(data@, start as int, 0, max as int) {
            Ok(k) => r matches Ok(v) && v.0 == k.0 && v.1 == k.1,
            Err(e) => r == Err::<(usize, usize), DescriptorError>(e),
        },
{
    let mut i: usize = 0;
    loop
        invariant
            i <= max,
            start + max + 1 <= usize::MAX,
            name_end(data@, start as int, 0, max as int) == name_end(data@, start as int, i as int, max as int),
        decreases max - i,
    {
        if i == max {
            if start + max < data.len() && data[start + max] == 0 {
                return Ok((max, max + 1));
            }
            return Ok((max, max));
        }
        if start + i >= data.len() {
            return Err(DescriptorError::InsufficientData(start + max, data.len()));
        }
        if data[start + i] == 0 {
            return Ok((i, i + 1));
        }
        i = i + 1;
    }
}

/// Copies the `len` bytes of `data` at `start` into a zero-filled name field.
fn copy_name(data: &[u8], start: usize, len: usize) -> (r: [u8; 256])
    requires
        start + len <= data@.len(),
        len <= NAME_CAPACITY,
    ensures
        r@ == padded_name(name_at(data@, start as int, len as int)),
{
    let mut name: [u8; 256] = [0u8; 256];
    let mut j: usize = 0;
    while j < len
        invariant
            j <= len,
            len <= NAME_CAPACITY,
            start + len <= data.len(),
            name@.len() == NAME_CAPACITY,
            forall|k: int| 0 <= k < j ==> name@[k] == data@[start + k],
            forall|k: int| j <= k < NAME_CAPACITY ==> name@[k] == 0,
        decreases len - j,
    {
        name[j] = data[start + j];
        j = j + 1;
    }
    assert(name@ =~= padded_name(name_at(data@, start as int, len as int)));
    name
}

/// Checks the fixed header; on success gives the total length and version.
fn check_header(data: &[u8]) -> (r: Result<(u16, u16), DescriptorError>)
    ensures
        header_error(data@) matches Some(e) ==> r == Err::<(u16, u16), DescriptorError>(e),
        header_error(data@) is None ==> r == Ok::<(u16, u16), DescriptorError>(
            (le16_value(data@[0], data@[1]), bcd_version(data@[3], data@[4])),
        ),
{
    if data.len() < 6 {
        return Err(DescriptorError::InsufficientData(6, data.len()));
    }
    let total_length = u16_from_le(data[0], data[1]);
    if data.len() < total_length as usize {
        return Err(DescriptorError::InvalidDescriptorLength(total_length as usize, data.len()));
    }
    if data[2] != DESCRIPTOR_TYPE_DEVICE {
        return Err(DescriptorError::InvalidDescriptorType(data[2]));
    }
    let ufs_version: u16 = data[3] as u16 * 0x100 + data[4] as u16;
    if ufs_version < UFS_VERSION_MIN || ufs_version > UFS_VERSION_MAX {
        return Err(DescriptorError::UnsupportedUFSVersion(ufs_version));
    }
    Ok((total_length, ufs_version))
}

/// The room a name may take, given its length field.
fn limit(length_field: u16) -> (r: usize)
    ensures
        r == name_limit(length_field),
{
    if (length_field as usize) < NAME_CAPACITY { length_field as usize } else { NAME_CAPACITY }
}

/// Reads the three names; see [`name_lengths`].
fn scan_names(data: &[u8]) -> (r: Result<((usize, usize), (usize, usize), (usize, usize)), DescriptorError>)
    requires
        data@.len() >= NAMES_OFFSET,
    ensures
        match name_lengths(data@) {
            Ok(l) => {
                &&& r matches Ok(v) && v.0.0 == l.0.0 && v.0.1 == l.0.1 && v.1.0 == l.1.0 && v.1.1 == l.1.1
                    && v.2.0 == l.2.0 && v.2.1 == l.2.1
                &&& l.0.0 <= l.0.1 && l.1.0 <= l.1.1 && l.2.0 <= l.2.1
                &&& l.0.0 <= NAME_CAPACITY && l.1.0 <= NAME_CAPACITY && l.2.0 <= NAME_CAPACITY
                &&& l.0.1 <= NAME_CAPACITY + 1 && l.1.1 <= NAME_CAPACITY + 1 && l.2.1 <= NAME_CAPACITY + 1
                &&& config_offset(l) <= data@.len()
            },
            Err(e) => r == Err::<((usize, usize), (usize, usize), (usize, usize)), DescriptorError>(e),
        },
{
    let ghost d = data@;
    let m_start = NAMES_OFFSET;
    let m_max = limit(u16_from_le(data[7], data[8]));
    let (m, mc) = match scan_name(data, m_start, m_max) {
        Ok(k) => k,
        Err(e) => return Err(e),
    };
    proof { lemma_name_end(d, m_start as int, 0, m_max as int); }
    let p_start = m_start + mc;
    let p_max = limit(u16_from_le(data[9], data[10]));
    let (p, pc) = match scan_name(data, p_start, p_max) {
        Ok(k) => k,
        Err(e) => return Err(e),
    };
    proof { lemma_name_end(d, p_start as int, 0, p_max as int); }
    let s_start = p_start + pc;
    let s_max = limit(u16_from_le(data[11], data[12]));
    let (s, sc) = match scan_name(data, s_start, s_max) {
        Ok(k) => k,
        Err(e) => return Err(e),
    };
    proof { lemma_name_end(d, s_start as int, 0, s_max as int); }
    Ok(((m, mc), (p, pc), (s, sc)))
}

/// Parses a device descriptor; see [`descriptor_error`] for when it is
/// refused and [`describes`] for what it holds when it is not.
pub fn parse_device_descriptor(data: &[u8]) -> (r: Result<DeviceDescriptor, DescriptorError>)
    requires
        header_error(data@) is None ==> data@.len() >= NAMES_OFFSET,
    ensures
        descriptor_error(data@) matches Some(e) ==> r == Err::<DeviceDescriptor, DescriptorError>(e),
        descriptor_error(data@) is None ==> (r matches Ok(d) && describes(d, data@)),
{
    let (total_length, ufs_version) = match check_header(data) {
        Ok(h) => h,
        Err(e) => return Err(e),
    };
    let ((m, mc), (p, pc), (s, sc)) = match scan_names(data) {
        Ok(l) => l,
        Err(e) => return Err(e),
    };
    let m_start = NAMES_OFFSET;
    let p_start = m_start + mc;
    let s_start = p_start + pc;
    let offset = s_start + sc;
    let mut descriptor = DeviceDescriptor {
        wTotalLength: total_length,
        bDescriptorType: data[2],
        bcdUFSVersion: ufs_version,
        bNumberOfLogicalUnits: data[5],
        bUFSFeatures: data[6],
        wManufacturerNameLength: u16_from_le(data[7], data[8]),
        ManufacturerName: copy_name(data, m_start, m),
        wProductNameLength: u16_from_le(data[9], data[10]),
        ProductName: copy_name(data, p_start, p),
        wSerialNumberLength: u16_from_le(data[11], data[12]),
        SerialNumber: copy_name(data, s_start, s),
        bConfigurationSetting: 0,
        bMaxNumberSupportedConfigurations: 0,
    };
    if ufs_version >= UFS_VERSION_2_0 {
        if data.len() < offset + 2 {
            return Err(DescriptorError::InsufficientData(offset + 2, data.len()));
        }
        descriptor.bConfigurationSetting = data[offset];
        descriptor.bMaxNumberSupportedConfigurations = data[offset + 1];
    }
    Ok(descriptor)
}

#[derive(Debug)]
pub enum UfsError {
    OpenError,
    ReadError,
    WriteError,
    CloseError,
    InvalidAddress,
    DescriptorError(DescriptorError),
    Other(String),
}

impl From<DescriptorError> for UfsError {
    fn from(error: DescriptorError) -> (r: Self) {
        UfsError::DescriptorError(error)
    }
}

impl vstd::std_specs::convert::FromSpecImpl<DescriptorError> for UfsError {
    open spec fn obeys_from_spec() -> bool {
        true
    }

    open spec fn from_spec(error: DescriptorError) -> Self {
        UfsError::DescriptorError(error)
    }
}

/// What `String::from_utf8_lossy` makes of some bytes.
pub uninterp spec fn utf8_lossy(bytes: Seq<u8>) -> Seq<char>;

/// Decodes bytes as UTF-8 with `String::from_utf8_lossy`, which puts the
/// replacement character in place of each invalid sequence. The contract
/// names the result, and states the documented fact that valid UTF-8 comes
/// out decoded as it is.
#[verifier::external_body]
fn lossy_string(bytes: &[u8]) -> (r: String)
    ensures
        r@ == utf8_lossy(bytes@),
        valid_utf8(bytes@) ==> r@ == decode_utf8(bytes@),
{
    String::from_utf8_lossy(bytes).into_owned()
}

/// The bytes of a name field up to its first zero byte, and no more than
/// `length_field` of them (nor than the field holds).
fn name_bytes(name: &[u8; 256], length_field: u16) -> (r: Vec<u8>)
    ensures
        r@.len() <= name_limit(length_field),
        r@ == name@.subrange(0, r@.len() as int),
        forall|j: int| 0 <= j < r@.len() ==> name@[j] != 0,
        r@.len() < name_limit(length_field) ==> name@[r@.len() as int] == 0,
{
    let bound = limit(length_field);
    let mut out: Vec<u8> = Vec::new();
    let mut j: usize = 0;
    while j < bound && name[j] != 0
        invariant
            j <= bound,
            bound == name_limit(length_field),
            name@.len() == NAME_CAPACITY,
            out@ == name@.subrange(0, j as int),
            forall|k: int| 0 <= k < j ==> name@[k] != 0,
        decreases bound - j,
    {
        out.push(name[j]);
        j = j + 1;
    }
    out
}

/// A name read back from its padded field is the name itself.
proof fn lemma_name_round_trip(field: Seq<u8>, name: Seq<u8>, r: Seq<u8>, bound: int)
    requires
        field == padded_name(name),
        name.len() <= bound <= NAME_CAPACITY,
        forall|j: int| 0 <= j < name.len() ==> name[j] != 0,
        r.len() <= bound,
        r == field.subrange(0, r.len() as int),
        forall|j: int| 0 <= j < r.len() ==> field[j] != 0,
        r.len() < bound ==> field[r.len() as int] == 0,
    ensures
        r == name,
{
    if r.len() < name.len() {
        assert(field[r.len() as int] == name[r.len() as int]);
    } else if r.len() > name.len() {
        assert(field[name.len() as int] == 0);
    }
    assert(r =~= name);
}

/// A simulated UFS device: reads return a byte pattern, writes are
/// accepted and dropped.
pub struct UfsDevice {
    pub device_path: String,
    pub is_open: bool,
    pub device_size: u64,
    pub manufacturer: String,
    pub product_name: String,
    pub serial_number: String,
    pub ufs_version: u16,
}

/// The byte a read finds at `position`: its low eight bits.
pub open spec fn pattern_byte(position: int) -> u8 {
    (position % 256) as u8
}

/// How many bytes a request of `len` bytes at `address` covers.
pub open spec fn transfer_len(size: u64, address: u64, len: nat) -> nat {
    if len < size - address { len } else { (size - address) as nat }
}

impl UfsDevice {
    /// A closed device built from descriptor `data`, with the names decoded
    /// from it; refused with the descriptor's error where it is refused.
    pub fn from_descriptor_data(path: &str, size: u64, data: &[u8]) -> (r: Result<Self, UfsError>)
        requires
            header_error(data@) is None ==> data@.len() >= NAMES_OFFSET,
        ensures
            descriptor_error(data@) matches Some(e) ==> r == Err::<UfsDevice, UfsError>(UfsError::DescriptorError(e)),
            descriptor_error(data@) is None ==> (r matches Ok(dev) && {
                &&& dev.device_path@ == path@
                &&& !dev.is_open
                &&& dev.device_size == size
                &&& dev.manufacturer@ == utf8_lossy(names(data@).0)
                &&& dev.product_name@ == utf8_lossy(names(data@).1)
                &&& dev.serial_number@ == utf8_lossy(names(data@).2)
                &&& valid_utf8(names(data@).0) ==> dev.manufacturer@ == decode_utf8(names(data@).0)
                &&& valid_utf8(names(data@).1) ==> dev.product_name@ == decode_utf8(names(data@).1)
                &&& valid_utf8(names(data@).2) ==> dev.serial_number@ == decode_utf8(names(data@).2)
                &&& dev.ufs_version == bcd_version(data@[3], data@[4])
                &&& UFS_VERSION_MIN <= dev.ufs_version <= UFS_VERSION_MAX
            }),
    {
        let descriptor = match parse_device_descriptor(data) {
            Ok(d) => d,
            Err(e) => return Err(UfsError::DescriptorError(e)),
        };
        let ghost l = name_lengths(data@)->Ok_0;
        proof {
            lemma_name_end(data@, NAMES_OFFSET as int, 0, name_limit(descriptor.wManufacturerNameLength));
            lemma_name_end(data@, NAMES_OFFSET + l.0.1, 0, name_limit(descriptor.wProductNameLength));
            lemma_name_end(data@, NAMES_OFFSET + l.0.1 + l.1.1, 0, name_limit(descriptor.wSerialNumberLength));
        }
        let m = name_bytes(&descriptor.ManufacturerName, descriptor.wManufacturerNameLength);
        let p = name_bytes(&descriptor.ProductName, descriptor.wProductNameLength);
        let s = name_bytes(&descriptor.SerialNumber, descriptor.wSerialNumberLength);
        proof {
            lemma_name_round_trip(descriptor.ManufacturerName@, names(data@).0, m@, name_limit(descriptor.wManufacturerNameLength));
            lemma_name_round_trip(descriptor.ProductName@, names(data@).1, p@, name_limit(descriptor.wProductNameLength));
            lemma_name_round_trip(descriptor.SerialNumber@, names(data@).2, s@, name_limit(descriptor.wSerialNumberLength));
        }
        Ok(UfsDevice {
            device_path: path.to_owned(),
            is_open: false,
            device_size: size,
            manufacturer: lossy_string(m.as_slice()),
            product_name: lossy_string(p.as_slice()),
            serial_number: lossy_string(s.as_slice()),
            ufs_version: descriptor.bcdUFSVersion,
        })
    }

    /// A closed device at `path` of `size` bytes, with no names and version 0.
    pub fn new(path: &str, size: u64) -> (r: Self)
        ensures
            r.device_path@ == path@,
            !r.is_open,
            r.device_size == size,
            r.manufacturer@.len() == 0,
            r.product_name@.len() == 0,
            r.serial_number@.len() == 0,
            r.ufs_version == 0,
    {
        UfsDevice {
            device_path: path.to_owned(),
            is_open: false,
            device_size: size,
            manufacturer: String::new(),
            product_name: String::new(),
            serial_number: String::new(),
            ufs_version: 0,
        }
    }

    /// Opens the device; opening an open device succeeds too.
    pub fn open(&mut self) -> (r: Result<(), UfsError>)
        ensures
            r is Ok,
            *final(self) == (UfsDevice { is_open: true, ..*old(self) }),
    {
        if self.is_open {
            return Ok(());
        }
        self.is_open = true;
        Ok(())
    }

    /// Reads at `address`: fills the buffer, as far as the device reaches,
    /// with the low byte of each position, and returns how many bytes it
    /// filled. Refused on a closed device or an address past its end.
    pub fn read(&self, address: u64, buffer: &mut [u8]) -> (r: Result<usize, UfsError>)
        ensures
            final(buffer)@.len() == old(buffer)@.len(),
            !self.is_open ==> r == Err::<usize, UfsError>(UfsError::ReadError) && final(buffer)@ == old(buffer)@,
            self.is_open && address >= self.device_size ==> r == Err::<usize, UfsError>(UfsError::InvalidAddress)
                && final(buffer)@ == old(buffer)@,
            self.is_open && address < self.device_size ==> {
                let n = transfer_len(self.device_size, address, old(buffer)@.len());
                &&& r == Ok::<usize, UfsError>(n as usize)
                &&& forall|j: int| 0 <= j < n ==> final(buffer)@[j] == pattern_byte(address + j)
                &&& forall|j: int| n <= j < old(buffer)@.len() ==> final(buffer)@[j] == old(buffer)@[j]
            },
    {
        if !self.is_open {
            return Err(UfsError::ReadError);
        }
        if address >= self.device_size {
            return Err(UfsError::InvalidAddress);
        }
        let available = self.device_size - address;
        let n: usize = if (buffer.len() as u64) < available { buffer.len() } else { available as usize };
        let ghost before = buffer@;
        let mut i: usize = 0;
        while i < n
            invariant
                i <= n,
                n <= buffer@.len(),
                n == transfer_len(self.device_size, address, before.len()),
                address + n <= self.device_size,
                buffer@.len() == before.len(),
                forall|j: int| 0 <= j < i ==> buffer@[j] == pattern_byte(address + j),
                forall|j: int| i <= j < before.len() ==> buffer@[j] == before[j],
            decreases n - i,
        {
            let position: u64 = address + i as u64;
            buffer[i] = (position % 256) as u8;
            i = i + 1;
        }
        Ok(n)
    }

    /// Writes at `address`: returns how many of the bytes fit on the device.
    /// Refused on a closed device or an address past its end.
    pub fn write(&self, address: u64, buffer: &[u8]) -> (r: Result<usize, UfsError>)
        ensures
            !self.is_open ==> r == Err::<usize, UfsError>(UfsError::WriteError),
            self.is_open && address >= self.device_size ==> r == Err::<usize, UfsError>(UfsError::InvalidAddress),
            self.is_open && address < self.device_size ==> r == Ok::<usize, UfsError>(
                transfer_len(self.device_size, address, buffer@.len()) as usize,
            ),
    {
        if !self.is_open {
            return Err(UfsError::WriteError);
        }
        if address >= self.device_size {
            return Err(UfsError::InvalidAddress);
        }
        let available = self.device_size - address;
        if (buffer.len() as u64) < available {
            Ok(buffer.len())
        } else {
            Ok(available as usize)
        }
    }

    /// Closes the device; closing a closed device succeeds too.
    pub fn close(&mut self) -> (r: Result<(), UfsError>)
        ensures
            r is Ok,
            *final(self) == (UfsDevice { is_open: false, ..*old(self) }),
    {
        if !self.is_open {
            return Ok(());
        }
        self.is_open = false;
        Ok(())
    }

    pub fn get_size(&self) -> (r: u64)
        ensures
            r == self.device_size,
    {
        self.device_size
    }

    pub fn get_device_path(&self) -> (r: &str)
        ensures
            r@ == self.device_path@,
    {
        self.device_path.as_str()
    }

    pub fn get_manufacturer(&self) -> (r: &str)
        ensures
            r@ == self.manufacturer@,
    {
        self.manufacturer.as_str()
    }

    pub fn get_product_name(&self) -> (r: &str)
        ensures
            r@ == self.product_name@,
    {
        self.product_name.as_str()
    }

    pub fn get_serial_number(&self) -> (r: &str)
        ensures
            r@ == self.serial_number@,
    {
        self.serial_number.as_str()
    }

    pub fn get_ufs_version(&self) -> (r: u16)
        ensures
            r == self.ufs_version,
    {
        self.ufs_version
    }
}

} // verus!
