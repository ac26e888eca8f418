use vstd::prelude::*;

verus! {

/// rusb's error type, carried unchanged inside `AppleDeviceError::RusbError`.
#[verifier::external_type_specification]
#[verifier::external_body]
pub struct ExUsbError(rusb::Error);

/// Why an operation on the device failed.
#[derive(Debug)]
pub enum AppleDeviceError {
    /// The USB layer reported a failure.
    RusbError(rusb::Error),
    /// No attached device matched during discovery.
    DeviceNotFound,
    /// The session is not in the boot stage that the operation needs.
    WrongMode,
    /// A payload could not be read from storage.
    File,
    /// A post-condition check failed: a bad final status, a bad
    /// verification string or a malformed asset.
    Unknown,
}

impl From<rusb::Error> for AppleDeviceError {
    fn from(e: rusb::Error) -> (r: AppleDeviceError)
        ensures
            r == AppleDeviceError::RusbError(e),
    {
        AppleDeviceError::RusbError(e)
    }
}

impl vstd::std_specs::convert::FromSpecImpl<rusb::Error> for AppleDeviceError {
    open spec fn obeys_from_spec() -> bool {
        true
    }

    open spec fn from_spec(e: rusb::Error) -> AppleDeviceError {
        AppleDeviceError::RusbError(e)
    }
}

} // verus!
