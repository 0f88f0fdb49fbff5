//! USB API over an XHCI driver: the driver's register fields, the waits of
//! its bring-up, and the high-level API that names the attached devices
//! "USB Aygıt <address>" and opens them by name.
use vstd::prelude::*;
use crate::text::prefixed;
use std::rc::Rc;
use crate::text::str_eq;
use crate::usb::{device_name, device_name_string, first_named, lemma_first_named_step};

verus! {

/// Where the driver's registers are mapped.
pub const XHCI_BASE_ADDRESS: usize = 0xFEDC9000;
pub const USB_COMMAND_OFFSET: usize = 0x00;
pub const USB_STATUS_OFFSET: usize = 0x04;
/// Status polls while waiting for a reset to complete.
pub const RESET_WAIT_POLLS: u32 = 10000;
/// Wait between two polls, in microseconds.
pub const RESET_POLL_DELAY_US: u32 = 10;
pub const READ_ENDPOINT: u8 = 0x81;
pub const WRITE_ENDPOINT: u8 = 0x02;

#[derive(Debug, Clone, Copy, PartialEq, Eq)]
pub enum XhciError {
    InitializationError,
    RegisterAccessError,
    UnsupportedSpeed,
    TransferError,
    DeviceNotFound,
}

impl XhciError {
    /// The error's name, as its debug form writes it.
    pub open spec fn name(self) -> Seq<char> {
        match self {
            XhciError::InitializationError => "InitializationError"@,
            XhciError::RegisterAccessError => "RegisterAccessError"@,
            XhciError::UnsupportedSpeed => "UnsupportedSpeed"@,
            XhciError::TransferError => "TransferError"@,
            XhciError::DeviceNotFound => "DeviceNotFound"@,
        }
    }

    /// The error's name.
    pub fn name_str(&self) -> (r: &'static str)
        ensures
            r@ == self.name(),
    {
        match self {
            XhciError::InitializationError => "InitializationError",
            XhciError::RegisterAccessError => "RegisterAccessError",
            XhciError::UnsupportedSpeed => "UnsupportedSpeed",
            XhciError::TransferError => "TransferError",
            XhciError::DeviceNotFound => "DeviceNotFound",
        }
    }
}

/// Value of the USB command register: run/stop is bit 0, reset bit 1.
#[derive(Debug, Clone, Copy, PartialEq, Eq)]
pub struct UsbCommandRegister {
    pub bits: u32,
}

/// Value of the USB status register: the reset-in-progress bit is bit 0.
#[derive(Debug, Clone, Copy, PartialEq, Eq)]
pub struct UsbStatusRegister {
    pub bits: u32,
}

impl UsbCommandRegister {
    pub fn read_run_stop(&self) -> (r: u32)
        ensures
            r == self.bits % 2,
    {
        let b = self.bits;
        proof { crate::bits::lemma_low_bit(b); }
        b & 1
    }

    /// Sets run/stop to the low bit of `value`, keeping the other bits.
    pub fn set_run_stop(&mut self, value: u32)
        ensures
            final(self).bits % 2 == value % 2,
            final(self).bits / 2 == old(self).bits / 2,
    {
        let b = self.bits;
        let n = (b & !1u32) | (value & 1);
        assert(n % 2 == value % 2 && n / 2 == b / 2) by (bit_vector)
            requires
                n == (b & !1u32) | (value & 1),
        ;
        self.bits = n;
    }

    pub fn read_hcrst(&self) -> (r: u32)
        ensures
            r == (self.bits / 2) % 2,
    {
        let b = self.bits;
        assert((b >> 1) & 1 == (b / 2) % 2) by (bit_vector);
        (b >> 1) & 1
    }

    /// Sets the reset bit to the low bit of `value`, keeping the other bits.
    pub fn set_hcrst(&mut self, value: u32)
        ensures
            (final(self).bits / 2) % 2 == value % 2,
            final(self).bits % 2 == old(self).bits % 2,
            final(self).bits / 4 == old(self).bits / 4,
    {
        let b = self.bits;
        let n = (b & !2u32) | ((value & 1) << 1);
        assert((n / 2) % 2 == value % 2 && n % 2 == b % 2 && n / 4 == b / 4) by (bit_vector)
            requires
                n == (b & !2u32) | ((value & 1) << 1),
        ;
        self.bits = n;
    }
}

impl UsbStatusRegister {
    pub fn read_hcrst(&self) -> (r: u32)
        ensures
            r == self.bits % 2,
    {
        let b = self.bits;
        proof { crate::bits::lemma_low_bit(b); }
        b & 1
    }
}

/// Where the operational registers are.
#[derive(Debug, Clone, Copy, PartialEq, Eq)]
pub struct OperationalRegisters {
    pub base_address: usize,
}

impl OperationalRegisters {
    pub fn new(base_address: usize) -> (r: Self)
        ensures
            r.base_address == base_address,
    {
        OperationalRegisters { base_address }
    }

    pub fn usb_command(&self) -> (r: usize)
        requires
            self.base_address + USB_STATUS_OFFSET <= usize::MAX,
        ensures
            r == self.base_address + USB_COMMAND_OFFSET,
    {
        self.base_address + USB_COMMAND_OFFSET
    }

    pub fn usb_status(&self) -> (r: usize)
        requires
            self.base_address + USB_STATUS_OFFSET <= usize::MAX,
        ensures
            r == self.base_address + USB_STATUS_OFFSET,
    {
        self.base_address + USB_STATUS_OFFSET
    }
}

/// A wait for a controller reset to complete: polls of the status
/// register, at most [`RESET_WAIT_POLLS`] of them.
#[derive(Debug, Clone, Copy, PartialEq, Eq)]
pub struct ResetWait {
    pub polls_left: u32,
}

impl ResetWait {
    pub fn new() -> (r: Self)
        ensures
            r.polls_left == RESET_WAIT_POLLS,
    {
        ResetWait { polls_left: RESET_WAIT_POLLS }
    }

    /// Takes the status read: the wait is over once the reset bit reads 0;
    /// otherwise, after [`RESET_POLL_DELAY_US`], the next poll, until the
    /// polls run out and the wait fails. `None` asks for another poll.
    pub fn step(&mut self, status: UsbStatusRegister) -> (r: Option<Result<(), XhciError>>)
        requires
            old(self).polls_left > 0,
        ensures
            status.bits % 2 == 0 ==> r == Some(Ok::<(), XhciError>(())),
            status.bits % 2 == 1 && old(self).polls_left == 1 ==> r == Some(Err::<(), XhciError>(XhciError::InitializationError)),
            status.bits % 2 == 1 && old(self).polls_left > 1 ==> r is None,
            final(self).polls_left == old(self).polls_left - 1,
    {
        self.polls_left = self.polls_left - 1;
        if status.read_hcrst() == 0 {
            return Some(Ok(()));
        }
        if self.polls_left == 0 {
            return Some(Err(XhciError::InitializationError));
        }
        None
    }
}

/// Spin iterations of a wait of `microseconds`.
pub fn delay_microseconds(microseconds: u32) -> (r: u32)
    requires
        microseconds * 1000 <= u32::MAX,
    ensures
        r == microseconds * 1000,
{
    microseconds * 1000
}

#[derive(Debug, Clone, Copy, PartialEq, Eq)]
pub struct UsbDevice {
    pub address: u8,
}

/// The devices the driver knows from the start.
pub open spec fn initial_devices() -> Seq<UsbDevice> {
    seq![UsbDevice { address: 1 }, UsbDevice { address: 2 }]
}

#[derive(Debug)]
pub struct XhciDriver {
    pub mmio_base_address: usize,
    pub connected_devices: Vec<UsbDevice>,
}

impl XhciDriver {
    pub fn new(base_address: usize) -> (r: Self)
        ensures
            r.mmio_base_address == base_address,
            r.connected_devices@ == initial_devices(),
    {
        let devices: Vec<UsbDevice> = vec![UsbDevice { address: 1 }, UsbDevice { address: 2 }];
        assert(devices@ =~= initial_devices());
        XhciDriver { mmio_base_address: base_address, connected_devices: devices }
    }

    pub fn get_operational_registers(&self) -> (r: OperationalRegisters)
        ensures
            r.base_address == self.mmio_base_address,
    {
        OperationalRegisters::new(self.mmio_base_address)
    }

    /// The command register value that starts a reset.
    pub fn reset_controller(command: UsbCommandRegister) -> (r: UsbCommandRegister)
        ensures
            (r.bits / 2) % 2 == 1,
            r.bits % 2 == command.bits % 2,
            r.bits / 4 == command.bits / 4,
    {
        let mut c = command;
        c.set_hcrst(1);
        c
    }

    /// The command register value that starts the controller.
    pub fn start_controller(command: UsbCommandRegister) -> (r: UsbCommandRegister)
        ensures
            r.bits % 2 == 1,
            r.bits / 2 == command.bits / 2,
    {
        let mut c = command;
        c.set_run_stop(1);
        c
    }

    /// Bring-up succeeds when the waits before and after the reset both
    /// complete; a failed wait is an initialisation error.
    pub fn initialize(first_wait: Result<(), XhciError>, second_wait: Result<(), XhciError>) -> (r: Result<(), XhciError>)
        ensures
            (first_wait is Ok && second_wait is Ok) <==> r is Ok,
            r is Err ==> r == Err::<(), XhciError>(XhciError::InitializationError),
    {
        if first_wait.is_err() {
            return Err(XhciError::InitializationError);
        }
        if second_wait.is_err() {
            return Err(XhciError::InitializationError);
        }
        Ok(())
    }

    pub fn send_data(&mut self, device_address: u8, endpoint_address: u8, data: &[u8]) -> (r: Result<(), XhciError>)
        ensures
            r is Ok,
            final(self).mmio_base_address == old(self).mmio_base_address,
            final(self).connected_devices@ == old(self).connected_devices@,
    {
        Ok(())
    }

    /// Receives `buffer_size` bytes: they come back as zeros.
    pub fn receive_data(&self, device_address: u8, endpoint_address: u8, buffer_size: usize) -> (r: Result<Vec<u8>, XhciError>)
        ensures
            r matches Ok(v) && v@ == Seq::new(buffer_size as nat, |i: int| 0u8),
    {
        let mut v: Vec<u8> = Vec::new();
        let mut i: usize = 0;
        while i < buffer_size
            invariant
                i <= buffer_size,
                v@ == Seq::new(i as nat, |k: int| 0u8),
            decreases buffer_size - i,
        {
            v.push(0);
            i = i + 1;
            assert(v@ =~= Seq::new(i as nat, |k: int| 0u8));
        }
        Ok(v)
    }

    pub fn get_connected_devices(&self) -> (r: Vec<UsbDevice>)
        ensures
            r@ == self.connected_devices@,
    {
        let mut r: Vec<UsbDevice> = Vec::new();
        let mut i: usize = 0;
        while i < self.connected_devices.len()
            invariant
                i <= self.connected_devices@.len(),
                r@ == self.connected_devices@.subrange(0, i as int),
            decreases self.connected_devices@.len() - i,
        {
            r.push(self.connected_devices[i]);
            i = i + 1;
        }
        r
    }
}

#[derive(Debug)]
pub enum UsbHata {
    AygitBulunamadi,
    ErisimHatasi,
    VeriOkumaHatasi,
    VeriYazmaHatasi,
    Diger(String),
    SurucuHatasi(XhciError),
}

impl UsbHata {
    /// What the error says.
    pub open spec fn text(self) -> Seq<char> {
        match self {
            UsbHata::AygitBulunamadi => "USB aygıtı bulunamadı."@,
            UsbHata::ErisimHatasi => "USB aygıtına erişim hatası."@,
            UsbHata::VeriOkumaHatasi => "USB aygıtından veri okuma hatası."@,
            UsbHata::VeriYazmaHatasi => "USB aygıtına veri yazma hatası."@,
            UsbHata::Diger(s) => "Diğer USB hatası: "@ + s@,
            UsbHata::SurucuHatasi(e) => "USB sürücü hatası: "@ + e.name(),
        }
    }

    /// The error's message.
    pub fn message(&self) -> (r: String)
        ensures
            r@ == self.text(),
    {
        match self {
            UsbHata::AygitBulunamadi => String::from_str("USB aygıtı bulunamadı."),
            UsbHata::ErisimHatasi => String::from_str("USB aygıtına erişim hatası."),
            UsbHata::VeriOkumaHatasi => String::from_str("USB aygıtından veri okuma hatası."),
            UsbHata::VeriYazmaHatasi => String::from_str("USB aygıtına veri yazma hatası."),
            UsbHata::Diger(s) => prefixed("Diğer USB hatası: ", s.as_str()),
            UsbHata::SurucuHatasi(e) => prefixed("USB sürücü hatası: ", e.name_str()),
        }
    }
}

#[derive(Debug)]
pub struct UsbAygit {
    pub aygit_adi: String,
    pub device_address: u8,
    pub xhci_driver: Rc<XhciDriver>,
}

impl UsbAygit {
    pub fn yeni(aygit_adi: String, device_address: u8, xhci_driver: Rc<XhciDriver>) -> (r: Self)
        ensures
            r.aygit_adi@ == aygit_adi@,
            r.device_address == device_address,
            *r.xhci_driver == *xhci_driver,
    {
        UsbAygit { aygit_adi, device_address, xhci_driver }
    }

    pub fn veri_oku(&self, boyut: usize) -> (r: Result<Vec<u8>, UsbHata>)
        ensures
            r matches Ok(v) && v@ == Seq::new(boyut as nat, |i: int| 0u8),
    {
        match self.xhci_driver.receive_data(self.device_address, READ_ENDPOINT, boyut) {
            Ok(veri) => Ok(veri),
            Err(hata) => Err(UsbHata::SurucuHatasi(hata)),
        }
    }

    /// Sending always succeeds.
    pub fn veri_yaz(&self, veri: &[u8]) -> (r: Result<(), UsbHata>)
        ensures
            r is Ok,
    {
        Ok(())
    }
}

/// The addresses of `devices`, in order.
pub open spec fn device_addresses(devices: Seq<UsbDevice>) -> Seq<u8> {
    devices.map_values(|d: UsbDevice| d.address)
}

#[derive(Debug)]
pub struct UsbYonetici {
    pub xhci_driver: Rc<XhciDriver>,
}

impl UsbYonetici {
    /// The API over the driver at [`XHCI_BASE_ADDRESS`], given the result of
    /// its bring-up; a failed bring-up is a driver error.
    pub fn yeni(init: Result<(), XhciError>) -> (r: Result<Self, UsbHata>)
        ensures
            init matches Err(e) ==> (r matches Err(UsbHata::SurucuHatasi(x)) && x == e),
            init is Ok ==> (r matches Ok(y) && y.xhci_driver.connected_devices@ == initial_devices()
                && y.xhci_driver.mmio_base_address == XHCI_BASE_ADDRESS),
    {
        let driver = XhciDriver::new(XHCI_BASE_ADDRESS);
        match init {
            Ok(()) => Ok(UsbYonetici { xhci_driver: Rc::new(driver) }),
            Err(hata) => Err(UsbHata::SurucuHatasi(hata)),
        }
    }

    /// One opened device per attached device, named after its address.
    pub fn aygitlari_listele(&self) -> (r: Result<Vec<UsbAygit>, UsbHata>)
        ensures
            r matches Ok(v) && v@.len() == self.xhci_driver.connected_devices@.len()
                && forall|i: int| 0 <= i < v@.len() ==> {
                    &&& v@[i].aygit_adi@ == device_name(self.xhci_driver.connected_devices@[i].address)
                    &&& v@[i].device_address == self.xhci_driver.connected_devices@[i].address
                },
    {
        let devices = self.xhci_driver.get_connected_devices();
        let mut aygitlar: Vec<UsbAygit> = Vec::new();
        let mut i: usize = 0;
        while i < devices.len()
            invariant
                i <= devices@.len(),
                devices@ == self.xhci_driver.connected_devices@,
                aygitlar@.len() == i,
                forall|j: int| 0 <= j < i ==> {
                    &&& aygitlar@[j].aygit_adi@ == device_name(devices@[j].address)
                    &&& aygitlar@[j].device_address == devices@[j].address
                },
            decreases devices@.len() - i,
        {
            let address = devices[i].address;
            aygitlar.push(UsbAygit::yeni(device_name_string(address), address, Rc::clone(&self.xhci_driver)));
            i = i + 1;
        }
        Ok(aygitlar)
    }

    /// Opens the device called `aygit_adi`: the first attached device whose
    /// name it is; none such is `AygitBulunamadi`.
    pub fn aygiti_ac(&self, aygit_adi: &str) -> (r: Result<UsbAygit, UsbHata>)
        ensures
            match first_named(device_addresses(self.xhci_driver.connected_devices@), aygit_adi@) {
                Some(address) => r matches Ok(a) && a.device_address == address && a.aygit_adi@ == aygit_adi@,
                None => r matches Err(UsbHata::AygitBulunamadi),
            },
    {
        let devices = self.xhci_driver.get_connected_devices();
        let ghost addresses = device_addresses(devices@);
        let ghost len = addresses.len() as int;
        proof {
            assert(addresses.subrange(0, len) =~= addresses);
        }
        let mut i: usize = 0;
        while i < devices.len()
            invariant
                i <= devices@.len(),
                devices@ == self.xhci_driver.connected_devices@,
                addresses == device_addresses(devices@),
                len == addresses.len(),
                first_named(addresses, aygit_adi@) == first_named(addresses.subrange(i as int, len), aygit_adi@),
            decreases devices@.len() - i,
        {
            let address = devices[i].address;
            let expected_name = device_name_string(address);
            proof {
                lemma_first_named_step(addresses, i as int, aygit_adi@);
            }
            if str_eq(aygit_adi, expected_name.as_str()) {
                return Ok(UsbAygit::yeni(aygit_adi.to_owned(), address, Rc::clone(&self.xhci_driver)));
            }
            i = i + 1;
        }
        Err(UsbHata::AygitBulunamadi)
    }
}

} // verus!
