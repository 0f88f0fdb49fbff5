# sahne_karnal

Drivers and low-level services of the Sahne kernel family, written in Verus.

`src/` is the verified library. Each module holds the decisions a driver
makes — which register gets which value, how a status word is read, how a
command block or descriptor is laid out, when a request is refused — as
functions with exact `requires`/`ensures` contracts over mathematical models
(`Seq`, `Map`, `int`), and the laws that span several functions as public
proof functions (`law_*`):

- storage: `sd`, `ssd`, `raid`, `sas`, `spi`, the UFS stacks (`ufs`,
  `ufs_core`, `ufs_mphy`, `ufs_scsi`, `ufs_uniprot`), byte orders in `codec`;
- USB: `usb`, `usbxhci`, `ehci`, `usb_msc`, `usb_io`, `touchscreen`;
- platform: `exception`, `interrupt`, `timer`, `elbrus`, `dtb`, `dtb_x86`,
  `initrd`, `plugandplay`, `thunderbolt`, `uboot`, `systemdboot`, `wifi`;
- boot security: `secureboot`, over the `rsa` and `sha2` crates.

`app/` is ordinary Rust around the library: volatile register and port
access, the polling loops that feed register reads to the library's state
machines, trap entry, console output, and the firmware calls of UEFI and
device-tree parsing. What to write, when a wait is over and what a
result means come from the library.

`tests/` runs the library on concrete values.
