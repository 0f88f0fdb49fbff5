//! USB host support over an XHCI controller: the controller's bring-up
//! decisions, port speed and connector, enumeration of a new device, and a
//! high-level API that names attached devices "USB Aygıt <address>" and
//! opens them by name.
use vstd::prelude::*;
use std::rc::Rc;
use crate::text::{decimal, prefixed, push_decimal, str_eq};

verus! {

pub const USB_VENDOR_ID_EXAMPLE: u16 = 0x1234;
pub const USB_PRODUCT_ID_EXAMPLE: u16 = 0x5678;
/// Where the controller's registers are mapped.
pub const XHCI_MMIO_BASE: usize = 0xFEDC0000;
/// Endpoints the high-level API reads from and writes to.
pub const READ_ENDPOINT: u8 = 0x81;
pub const WRITE_ENDPOINT: u8 = 0x02;
/// Wait between the two writes of a controller reset, in microseconds.
pub const RESET_DELAY_US: u32 = 100;

#[derive(Debug, Copy, Clone, PartialEq, Eq)]
pub enum UsbSpeed {
    LowSpeed,
    FullSpeed,
    HighSpeed,
    SuperSpeed,
    SuperSpeedPlus,
    Unknown,
}

#[derive(Debug, Copy, Clone, PartialEq, Eq)]
pub enum UsbConnectorType {
    TypeA,
    TypeB,
    TypeC,
    MicroB,
    MicroA,
    MiniB,
    MiniA,
    Unknown,
}

#[derive(Debug, Copy, Clone, PartialEq, Eq)]
pub enum UsbTransferType {
    Control,
    Isochronous,
    Bulk,
    Interrupt,
}

#[derive(Debug, Copy, Clone, PartialEq, Eq)]
pub struct UsbDevice {
    pub address: u8,
    pub speed: UsbSpeed,
    pub vendor_id: u16,
    pub product_id: u16,
    pub connector_type: UsbConnectorType,
}

/// A memory-mapped block of 32-bit registers.
#[derive(Debug, Copy, Clone, PartialEq, Eq)]
pub struct MmioAddress {
    pub base: usize,
}

/// One 32-bit register.
#[derive(Debug, Copy, Clone, PartialEq, Eq)]
pub struct MmioRegister {
    pub address: usize,
}

impl MmioAddress {
    pub fn new(base: usize) -> (r: Self)
        ensures
            r.base == base,
    {
        MmioAddress { base }
    }

    /// Register `offset` of the block, counted in 32-bit registers.
    pub fn offset(self, offset: u32) -> (r: MmioRegister)
        requires
            self.base + 4 * offset <= usize::MAX,
        ensures
            r.address == self.base + 4 * offset,
    {
        MmioRegister { address: self.base + 4 * offset as usize }
    }
}

/// Nanoseconds a wait of `microseconds` lasts.
pub fn udelay(microseconds: u32) -> (r: u32)
    requires
        microseconds * 1000 <= u32::MAX,
    ensures
        r == microseconds * 1000,
{
    microseconds * 1000
}

/// The speed a port status reports in bits 11:10.
pub open spec fn speed_of(status: u32) -> UsbSpeed {
    let bits = (status / 0x400) % 4;
    if bits == 0 {
        UsbSpeed::LowSpeed
    } else if bits == 1 {
        UsbSpeed::FullSpeed
    } else if bits == 2 {
        UsbSpeed::HighSpeed
    } else {
        UsbSpeed::SuperSpeed
    }
}

/// The speed a port reports is in bits 11:10 of its status alone: whatever
/// the bits above and below, 0, 1, 2 and 3 there give low, full, high and
/// super speed.
pub proof fn law_speed_from_bits_11_10(high: u32, speed_bits: u32, low: u32)
    requires
        speed_bits < 4,
        low < 0x400,
        high < 0x10_0000,
    ensures
        speed_of((high * 0x1000 + speed_bits * 0x400 + low) as u32) == (if speed_bits == 0 {
            UsbSpeed::LowSpeed
        } else if speed_bits == 1 {
            UsbSpeed::FullSpeed
        } else if speed_bits == 2 {
            UsbSpeed::HighSpeed
        } else {
            UsbSpeed::SuperSpeed
        }),
{
    let x = high * 0x1000 + speed_bits * 0x400 + low;
    assert(x / 0x400 == high * 4 + speed_bits) by (nonlinear_arith)
        requires
            x == high * 0x1000 + speed_bits * 0x400 + low,
            low < 0x400,
            speed_bits < 4,
    ;
    assert((high * 4 + speed_bits) % 4 == speed_bits) by (nonlinear_arith)
        requires
            speed_bits < 4,
    ;
}

/// The connector of a port: type A on even ports, type C on odd ones.
pub open spec fn connector_of(port_number: u8) -> UsbConnectorType {
    if port_number % 2 == 0 { UsbConnectorType::TypeA } else { UsbConnectorType::TypeC }
}

/// The devices the controller reports once it is up.
pub open spec fn initial_devices() -> Seq<UsbDevice> {
    seq![
        UsbDevice {
            address: 1,
            speed: UsbSpeed::FullSpeed,
            vendor_id: USB_VENDOR_ID_EXAMPLE,
            product_id: USB_PRODUCT_ID_EXAMPLE,
            connector_type: UsbConnectorType::TypeA,
        },
        UsbDevice {
            address: 2,
            speed: UsbSpeed::HighSpeed,
            vendor_id: 0,
            product_id: 0,
            connector_type: UsbConnectorType::TypeC,
        },
    ]
}

#[derive(Debug)]
pub struct XhciController {
    pub mmio_base: MmioAddress,
    pub connected_devices: Vec<UsbDevice>,
}

impl XhciController {
    pub fn new(mmio_base: MmioAddress) -> (r: Self)
        ensures
            r.mmio_base == mmio_base,
            r.connected_devices@.len() == 0,
    {
        XhciController { mmio_base, connected_devices: Vec::new() }
    }

    /// The register writes of bring-up, in order: the reset register set
    /// and (after [`RESET_DELAY_US`]) cleared, then the control register
    /// set to start the controller.
    pub fn init_writes(&self) -> (r: [(MmioRegister, u32); 3])
        requires
            self.mmio_base.base + 8 <= usize::MAX,
        ensures
            r@ == seq![
                (MmioRegister { address: self.mmio_base.base }, 1u32),
                (MmioRegister { address: self.mmio_base.base }, 0u32),
                (MmioRegister { address: (self.mmio_base.base + 8) as usize }, 1u32),
            ],
    {
        let reset = self.mmio_base.offset(0x00);
        let control = self.mmio_base.offset(0x02);
        let r = [(reset, 1u32), (reset, 0u32), (control, 1u32)];
        assert(r@ =~= seq![
            (MmioRegister { address: self.mmio_base.base }, 1u32),
            (MmioRegister { address: self.mmio_base.base }, 0u32),
            (MmioRegister { address: (self.mmio_base.base + 8) as usize }, 1u32),
        ]);
        r
    }

    /// The status register, read after the controller is started.
    pub fn status_register(&self) -> (r: MmioRegister)
        requires
            self.mmio_base.base + 4 <= usize::MAX,
        ensures
            r.address == self.mmio_base.base + 4,
    {
        self.mmio_base.offset(0x01)
    }

    /// Completes bring-up given the status read after the start: refused
    /// unless the running bit (bit 0) is set; then the two devices it
    /// reports are recorded.
    pub fn initialize(&mut self, status: u32) -> (r: Result<(), &'static str>)
        ensures
            final(self).mmio_base == old(self).mmio_base,
            status % 2 == 0 ==> r == Err::<(), &'static str>("XHCI kontrolcüsü başlatılamadı.")
                && final(self).connected_devices@ == old(self).connected_devices@,
            status % 2 == 1 ==> r is Ok && final(self).connected_devices@ == old(self).connected_devices@ + initial_devices(),
    {
        proof { crate::bits::lemma_low_bit(status); }
        if status & 0x1 == 0 {
            return Err("XHCI kontrolcüsü başlatılamadı.");
        }
        self.connected_devices.push(UsbDevice {
            address: 1,
            speed: UsbSpeed::FullSpeed,
            vendor_id: USB_VENDOR_ID_EXAMPLE,
            product_id: USB_PRODUCT_ID_EXAMPLE,
            connector_type: UsbConnectorType::TypeA,
        });
        self.connected_devices.push(UsbDevice {
            address: 2,
            speed: UsbSpeed::HighSpeed,
            vendor_id: 0x0000,
            product_id: 0x0000,
            connector_type: UsbConnectorType::TypeC,
        });
        assert(final(self).connected_devices@ =~= old(self).connected_devices@ + initial_devices());
        Ok(())
    }

    /// The status register of port `port_number`.
    pub fn port_status_register(&self, port_number: u8) -> (r: MmioRegister)
        requires
            self.mmio_base.base + 4 * (0x400 + 0x10 * port_number) <= usize::MAX,
        ensures
            r.address == self.mmio_base.base + 4 * (0x400 + 0x10 * port_number),
    {
        self.mmio_base.offset(0x400 + (port_number as u32) * 0x10)
    }

    pub fn get_device_speed(status: u32) -> (r: UsbSpeed)
        ensures
            r == speed_of(status),
    {
        let bits = (status >> 10) & 0x3;
        assert((status >> 10) & 0x3 == (status / 0x400) % 4) by (bit_vector);
        if bits == 0 {
            UsbSpeed::LowSpeed
        } else if bits == 1 {
            UsbSpeed::FullSpeed
        } else if bits == 2 {
            UsbSpeed::HighSpeed
        } else {
            UsbSpeed::SuperSpeed
        }
    }

    pub fn get_connector_type(port_number: u8) -> (r: UsbConnectorType)
        ensures
            r == connector_of(port_number),
    {
        if port_number % 2 == 0 { UsbConnectorType::TypeA } else { UsbConnectorType::TypeC }
    }

    /// A device just attached to `port_number`, whose port status is
    /// `status`: no address, identity unknown, speed and connector of the port.
    pub fn handle_device_connection(port_number: u8, status: u32) -> (r: UsbDevice)
        ensures
            r == (UsbDevice {
                address: 0,
                speed: speed_of(status),
                vendor_id: 0,
                product_id: 0,
                connector_type: connector_of(port_number),
            }),
    {
        UsbDevice {
            address: 0,
            speed: Self::get_device_speed(status),
            vendor_id: 0,
            product_id: 0,
            connector_type: Self::get_connector_type(port_number),
        }
    }

    /// The device descriptor's first bytes, as the controller reports them.
    pub fn get_device_descriptor(&self) -> (r: Vec<u8>)
        ensures
            r@ == seq![0x12u8, 0x01, 0x10, 0x02, 0x34, 0x12, 0x78, 0x56],
    {
        let r: Vec<u8> = vec![0x12, 0x01, 0x10, 0x02, 0x34, 0x12, 0x78, 0x56];
        assert(r@ =~= seq![0x12u8, 0x01, 0x10, 0x02, 0x34, 0x12, 0x78, 0x56]);
        r
    }

    /// The configuration descriptor, as the controller reports it.
    pub fn get_config_descriptor(&self) -> (r: Vec<u8>)
        ensures
            r@ == seq![0x09u8, 0x02, 0x20, 0x00, 0x01, 0x01, 0x00, 0xA0, 0x32],
    {
        let r: Vec<u8> = vec![0x09, 0x02, 0x20, 0x00, 0x01, 0x01, 0x00, 0xA0, 0x32];
        assert(r@ =~= seq![0x09u8, 0x02, 0x20, 0x00, 0x01, 0x01, 0x00, 0xA0, 0x32]);
        r
    }

    /// Reads `size` bytes: they come back as zeros.
    pub fn read_data(&self, device_address: u8, endpoint: u8, size: usize) -> (r: Result<Vec<u8>, &'static str>)
        ensures
            r matches Ok(v) && v@ == Seq::new(size as nat, |i: int| 0u8),
    {
        let mut v: Vec<u8> = Vec::new();
        let mut i: usize = 0;
        while i < size
            invariant
                i <= size,
                v@ == Seq::new(i as nat, |k: int| 0u8),
            decreases size - i,
        {
            v.push(0);
            i = i + 1;
            assert(v@ =~= Seq::new(i as nat, |k: int| 0u8));
        }
        Ok(v)
    }

    /// Writing always succeeds.
    pub fn write_data(&self, device_address: u8, endpoint: u8, data: &[u8]) -> (r: Result<(), &'static str>)
        ensures
            r is Ok,
    {
        Ok(())
    }

    /// Sleep-and-charge support is always available.
    pub fn enable_sleep_and_charge(&mut self, port_number: u8) -> (r: Result<(), &'static str>)
        ensures
            r is Ok,
            final(self).mmio_base == old(self).mmio_base,
            final(self).connected_devices@ == old(self).connected_devices@,
    {
        Ok(())
    }
}

#[derive(Debug)]
pub enum UsbHata {
    AygitBulunamadi,
    ErisimHatasi,
    VeriOkumaHatasi,
    VeriYazmaHatasi,
    Diger(String),
    SurucuHatasi(&'static str),
}

impl UsbHata {
    /// What the error says.
    pub open spec fn text(self) -> Seq<char> {
        match self {
            UsbHata::AygitBulunamadi => "USB aygıtı bulunamadı."@,
            UsbHata::ErisimHatasi => "USB aygıtına erişim hatası."@,
            UsbHata::VeriOkumaHatasi => "USB aygıtından veri okuma hatası."@,
            UsbHata::VeriYazmaHatasi => "USB aygıtına veri yazma hatası."@,
            UsbHata::Diger(s) => "Diğer USB hatası: "@ + s@,
            UsbHata::SurucuHatasi(m) => "USB sürücü hatası: "@ + m@,
        }
    }

    /// The error's message.
    pub fn message(&self) -> (r: String)
        ensures
            r@ == self.text(),
    {
        match self {
            UsbHata::AygitBulunamadi => String::from_str("USB aygıtı bulunamadı."),
            UsbHata::ErisimHatasi => String::from_str("USB aygıtına erişim hatası."),
            UsbHata::VeriOkumaHatasi => String::from_str("USB aygıtından veri okuma hatası."),
            UsbHata::VeriYazmaHatasi => String::from_str("USB aygıtına veri yazma hatası."),
            UsbHata::Diger(s) => prefixed("Diğer USB hatası: ", s.as_str()),
            UsbHata::SurucuHatasi(m) => prefixed("USB sürücü hatası: ", m),
        }
    }
}

/// The name the API gives the device at `address`.
pub open spec fn device_name(address: u8) -> Seq<char> {
    "USB Aygıt "@ + decimal(address as nat)
}

/// The addresses of `devices`, in order.
pub open spec fn device_addresses(devices: Seq<UsbDevice>) -> Seq<u8> {
    devices.map_values(|d: UsbDevice| d.address)
}

/// The first of `addresses` whose device is called `name`.
pub open spec fn first_named(addresses: Seq<u8>, name: Seq<char>) -> Option<u8>
    decreases addresses.len(),
{
    if addresses.len() == 0 {
        None
    } else if device_name(addresses[0]) == name {
        Some(addresses[0])
    } else {
        first_named(addresses.drop_first(), name)
    }
}

/// Looking up from position `i`: the device there if it has the name, else
/// the lookup from the next position.
pub proof fn lemma_first_named_step(addresses: Seq<u8>, i: int, name: Seq<char>)
    requires
        0 <= i < addresses.len(),
    ensures
        first_named(addresses.subrange(i, addresses.len() as int), name) == if device_name(addresses[i]) == name {
            Some(addresses[i])
        } else {
            first_named(addresses.subrange(i + 1, addresses.len() as int), name)
        },
{
    let rest = addresses.subrange(i, addresses.len() as int);
    assert(rest[0] == addresses[i]);
    assert(rest.drop_first() =~= addresses.subrange(i + 1, addresses.len() as int));
}

/// Every attached device can be opened under the name it is listed under:
/// the lookup by that name finds a device of that name.
pub proof fn law_listed_device_opens(addresses: Seq<u8>, i: int)
    requires
        0 <= i < addresses.len(),
    ensures
        first_named(addresses, device_name(addresses[i])) matches Some(a) && device_name(a) == device_name(addresses[i]),
    decreases i,
{
    if i > 0 && device_name(addresses[0]) != device_name(addresses[i]) {
        assert(addresses.drop_first()[i - 1] == addresses[i]);
        law_listed_device_opens(addresses.drop_first(), i - 1);
    }
}

pub fn device_name_string(address: u8) -> (r: String)
    ensures
        r@ == device_name(address),
{
    let mut s = String::from_str("USB Aygıt ");
    push_decimal(&mut s, address);
    s
}

/// An opened device.
#[derive(Debug)]
pub struct UsbAygit {
    pub aygit_adi: String,
    pub device_address: u8,
    pub xhci_controller: Rc<XhciController>,
}

impl UsbAygit {
    pub fn yeni(aygit_adi: String, device_address: u8, xhci_controller: Rc<XhciController>) -> (r: Self)
        ensures
            r.aygit_adi@ == aygit_adi@,
            r.device_address == device_address,
            *r.xhci_controller == *xhci_controller,
    {
        UsbAygit { aygit_adi, device_address, xhci_controller }
    }

    /// Reads `boyut` bytes from the device's IN endpoint.
    pub fn veri_oku(&self, boyut: usize) -> (r: Result<Vec<u8>, UsbHata>)
        ensures
            r matches Ok(v) && v@ == Seq::new(boyut as nat, |i: int| 0u8),
    {
        match self.xhci_controller.read_data(self.device_address, READ_ENDPOINT, boyut) {
            Ok(veri) => Ok(veri),
            Err(_) => Err(UsbHata::VeriOkumaHatasi),
        }
    }

    /// Writes to the device's OUT endpoint.
    pub fn veri_yaz(&self, veri: &[u8]) -> (r: Result<(), UsbHata>)
        ensures
            r is Ok,
    {
        match self.xhci_controller.write_data(self.device_address, WRITE_ENDPOINT, veri) {
            Ok(_) => Ok(()),
            Err(_) => Err(UsbHata::VeriYazmaHatasi),
        }
    }
}

/// The high-level USB API over one controller.
#[derive(Debug)]
pub struct UsbYonetici {
    pub xhci_controller: Rc<XhciController>,
}

impl UsbYonetici {
    /// Brings up the controller at [`XHCI_MMIO_BASE`], given the status read
    /// after its start; a controller that does not run is a driver error.
    pub fn yeni(controller_status: u32) -> (r: Result<Self, UsbHata>)
        ensures
            controller_status % 2 == 0 ==> (r matches Err(UsbHata::SurucuHatasi(m)) && m == "XHCI kontrolcüsü başlatılamadı."),
            controller_status % 2 == 1 ==> (r matches Ok(y) && y.xhci_controller.connected_devices@ == initial_devices()
                && y.xhci_controller.mmio_base.base == XHCI_MMIO_BASE),
    {
        let mut xhci_controller = XhciController::new(MmioAddress::new(XHCI_MMIO_BASE));
        match xhci_controller.initialize(controller_status) {
            Ok(()) => {
                assert(xhci_controller.connected_devices@ =~= initial_devices());
                Ok(UsbYonetici { xhci_controller: Rc::new(xhci_controller) })
            },
            Err(hata) => Err(UsbHata::SurucuHatasi(hata)),
        }
    }

    /// One opened device per attached device, named after its address, in
    /// the controller's order.
    pub fn aygitlari_listele(&self) -> (r: Result<Vec<UsbAygit>, UsbHata>)
        ensures
            r matches Ok(v) && v@.len() == self.xhci_controller.connected_devices@.len()
                && forall|i: int| 0 <= i < v@.len() ==> {
                    &&& v@[i].aygit_adi@ == device_name(self.xhci_controller.connected_devices@[i].address)
                    &&& v@[i].device_address == self.xhci_controller.connected_devices@[i].address
                    &&& *v@[i].xhci_controller == *self.xhci_controller
                },
    {
        let mut aygitlar: Vec<UsbAygit> = Vec::new();
        let mut i: usize = 0;
        while i < self.xhci_controller.connected_devices.len()
            invariant
                i <= self.xhci_controller.connected_devices@.len(),
                aygitlar@.len() == i,
                forall|j: int| 0 <= j < i ==> {
                    &&& aygitlar@[j].aygit_adi@ == device_name(self.xhci_controller.connected_devices@[j].address)
                    &&& aygitlar@[j].device_address == self.xhci_controller.connected_devices@[j].address
                    &&& *aygitlar@[j].xhci_controller == *self.xhci_controller
                },
            decreases self.xhci_controller.connected_devices@.len() - i,
        {
            let address = self.xhci_controller.connected_devices[i].address;
            aygitlar.push(UsbAygit::yeni(device_name_string(address), address, Rc::clone(&self.xhci_controller)));
            i = i + 1;
        }
        Ok(aygitlar)
    }

    /// Opens the device called `aygit_adi`: the first attached device whose
    /// name it is; none such is `AygitBulunamadi`.
    pub fn aygiti_ac(&self, aygit_adi: &str) -> (r: Result<UsbAygit, UsbHata>)
        ensures
            match first_named(device_addresses(self.xhci_controller.connected_devices@), aygit_adi@) {
                Some(address) => r matches Ok(a) && a.device_address == address && a.aygit_adi@ == aygit_adi@
                    && *a.xhci_controller == *self.xhci_controller,
                None => r matches Err(UsbHata::AygitBulunamadi),
            },
    {
        let ghost addresses = device_addresses(self.xhci_controller.connected_devices@);
        let ghost len = addresses.len() as int;
        proof {
            assert(addresses.subrange(0, len) =~= addresses);
        }
        let mut i: usize = 0;
        while i < self.xhci_controller.connected_devices.len()
            invariant
                i <= self.xhci_controller.connected_devices@.len(),
                addresses == device_addresses(self.xhci_controller.connected_devices@),
                len == addresses.len(),
                first_named(addresses, aygit_adi@) == first_named(addresses.subrange(i as int, len), aygit_adi@),
            decreases self.xhci_controller.connected_devices@.len() - i,
        {
            let address = self.xhci_controller.connected_devices[i].address;
            let expected_name = device_name_string(address);
            proof {
                lemma_first_named_step(addresses, i as int, aygit_adi@);
            }
            if str_eq(aygit_adi, expected_name.as_str()) {
                return Ok(UsbAygit::yeni(aygit_adi.to_owned(), address, Rc::clone(&self.xhci_controller)));
            }
            i = i + 1;
        }
        Err(UsbHata::AygitBulunamadi)
    }
}

} // verus!
