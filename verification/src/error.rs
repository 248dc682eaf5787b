use vstd::prelude::*;

verus! {

/// What can go wrong while setting up the devices.
#[derive(Clone, Copy, PartialEq, Eq, Structural, Debug)]
pub enum MouseKeyError {
    NoDeviceError,
    FailedToReadInput,
}

pub open spec fn no_device_message() -> Seq<char> {
    "Failed to find a compatible input device. Make sure you are running the application with root priviledges."@
}

pub open spec fn failed_to_read_message() -> Seq<char> {
    "Failed to read a mouse input"@
}

impl MouseKeyError {
    /// The message shown to the user for this error.
    pub fn message(&self) -> (msg: String)
        ensures
            msg@ == (match self {
                MouseKeyError::NoDeviceError => no_device_message(),
                MouseKeyError::FailedToReadInput => failed_to_read_message(),
            }),
    {
        match self {
            MouseKeyError::NoDeviceError => String::from_str(
                "Failed to find a compatible input device. Make sure you are running the application with root priviledges.",
            ),
            MouseKeyError::FailedToReadInput => String::from_str("Failed to read a mouse input"),
        }
    }
}

} // verus!
