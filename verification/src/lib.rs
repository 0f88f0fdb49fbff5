pub mod bits;
pub mod codec;
pub mod dtb;
pub mod dtb_x86;
pub mod ehci;
pub mod elbrus;
pub mod exception;
pub mod initrd;
pub mod interrupt;
pub mod plugandplay;
pub mod raid;
pub mod sas;
pub mod sd;
pub mod secureboot;
pub mod spi;
pub mod ssd;
pub mod systemdboot;
pub mod text;
pub mod thunderbolt;
pub mod timer;
pub mod touchscreen;
pub mod ufs_core;
pub mod uboot;
pub mod ufs;
pub mod ufs_mphy;
pub mod ufs_scsi;
pub mod ufs_uniprot;
pub mod usb;
pub mod usb_msc;
pub mod usb_io;
pub mod usbxhci;
pub mod wifi;
