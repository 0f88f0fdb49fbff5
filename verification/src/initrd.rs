//! Initial ramdisk hand-over: the ramdisk is checked and registered with
//! the kernel's initrd manager through its resource interface, whose calls
//! the caller makes and reports back.
use vstd::prelude::*;

verus! {

/// Resource the initrd manager is reached through.
pub const INITRD_MANAGER_RESOURCE_ID: &'static str = "sahne://resource/initrd_manager";
/// Control request that registers a ramdisk (its argument: the address).
pub const INITRD_REGISTER_REQUEST: u64 = 1;

/// An error of the kernel's resource interface.
#[derive(Debug, Clone, Copy, PartialEq, Eq)]
pub enum SahneError {
    UnknownSystemCall,
    Other(i64),
}

#[derive(Debug, Clone, Copy, PartialEq, Eq)]
pub enum InitrdError {
    SahneApiError(SahneError),
    InvalidAddressOrSize,
    ResourceManagerAcquisitionFailed(SahneError),
}

impl From<SahneError> for InitrdError {
    fn from(error: SahneError) -> (r: Self) {
        InitrdError::SahneApiError(error)
    }
}

impl vstd::std_specs::convert::FromSpecImpl<SahneError> for InitrdError {
    open spec fn obeys_from_spec() -> bool {
        true
    }

    open spec fn from_spec(error: SahneError) -> Self {
        InitrdError::SahneApiError(error)
    }
}

/// Whether a ramdisk at `address` of `size` bytes can be registered: both
/// must be non-zero.
pub fn check(address: usize, size: usize) -> (r: Result<(), InitrdError>)
    ensures
        (address == 0 || size == 0) ==> r == Err::<(), InitrdError>(InitrdError::InvalidAddressOrSize),
        (address != 0 && size != 0) ==> r is Ok,
{
    if address == 0 || size == 0 {
        return Err(InitrdError::InvalidAddressOrSize);
    }
    Ok(())
}

/// The outcome of registering the ramdisk at `address` of `size` bytes,
/// given what acquiring the manager gave and, once acquired, what the
/// register request returned: a bad address or size first; a manager that
/// could not be acquired; a request error; a negative result is an
/// unknown system call; otherwise success.
pub fn init(address: usize, size: usize, acquired: Result<u64, SahneError>, control: Result<i64, SahneError>) -> (r: Result<(), InitrdError>)
    ensures
        (address == 0 || size == 0) ==> r == Err::<(), InitrdError>(InitrdError::InvalidAddressOrSize),
        (address != 0 && size != 0) ==> r == (match acquired {
            Err(e) => Err(InitrdError::ResourceManagerAcquisitionFailed(e)),
            Ok(_) => match control {
                Err(e) => Err(InitrdError::SahneApiError(e)),
                Ok(raw) => if raw >= 0 { Ok(()) } else { Err(InitrdError::SahneApiError(SahneError::UnknownSystemCall)) },
            },
        }),
{
    match check(address, size) {
        Ok(()) => {},
        Err(e) => return Err(e),
    }
    match acquired {
        Err(e) => Err(InitrdError::ResourceManagerAcquisitionFailed(e)),
        Ok(_handle) => match control {
            Ok(raw_result) => {
                if raw_result >= 0 {
                    Ok(())
                } else {
                    Err(InitrdError::SahneApiError(SahneError::UnknownSystemCall))
                }
            },
            Err(e) => Err(InitrdError::from(e)),
        },
    }
}

} // verus!
