//! systemd-boot start-up: the hardware check, then memory management, and
//! the error each failure is reported as.
use vstd::prelude::*;

verus! {

/// The hardware check: always passes.
pub fn donanimi_kontrol_et() -> (r: Result<(), &'static str>)
    ensures
        r is Ok,
{
    Ok(())
}

/// Setting up memory management: always succeeds.
pub fn bellek_yonetimini_yapilandir() -> (r: Result<(), &'static str>)
    ensures
        r is Ok,
{
    Ok(())
}

/// Start-up: the hardware check, then memory management; either failure
/// ends it with its own message.
pub fn systemdboot_init() -> (r: Result<(), &'static str>)
    ensures
        r is Ok,
{
    if donanimi_kontrol_et().is_err() {
        return Err("Donanım kontrolü başarısız.");
    }
    if bellek_yonetimini_yapilandir().is_err() {
        return Err("Bellek yönetimi yapılandırması başarısız.");
    }
    Ok(())
}

} // verus!
