use vstd::prelude::*;

verus! {

/// What can go wrong while resolving, caching, fetching or staging an update.
#[derive(Clone, Debug, PartialEq, Eq)]
pub enum FirmwareError {
    /// The board model is not one of the supported models.
    UnsupportedHardware(String),
    /// The board model could not be read.
    Identity(String),
    /// The cached pointer record exists but cannot be read back.
    CacheCorrupt(String),
    /// The manifest names no payload of this file name.
    NotFound(String),
    /// The manifest's bytes do not hold a manifest.
    MalformedManifest(String),
    /// The system was not booted through UEFI.
    BootMode,
    /// Creating, removing, renaming or extracting under a path failed.
    Filesystem(String),
    /// The distribution service failed.
    Network(String),
    /// Reading or writing the one-shot boot flag failed.
    BootFlag(String),
}

impl FirmwareError {
    /// The text shown to a user for this error.
    pub open spec fn message_spec(&self) -> Seq<char> {
        match self {
            FirmwareError::UnsupportedHardware(m) => "unsupported model "@ + m@,
            FirmwareError::NotFound(name) => name@ + " not found"@,
            FirmwareError::BootMode => "must be run using UEFI boot"@,
            FirmwareError::Identity(d) => d@,
            FirmwareError::CacheCorrupt(d) => d@,
            FirmwareError::MalformedManifest(d) => d@,
            FirmwareError::Filesystem(d) => d@,
            FirmwareError::Network(d) => d@,
            FirmwareError::BootFlag(d) => d@,
        }
    }

    pub fn message(&self) -> (r: String)
        ensures
            r@ == self.message_spec(),
    {
        match self {
            FirmwareError::UnsupportedHardware(m) => String::from_str("unsupported model ").concat(m.as_str()),
            FirmwareError::NotFound(name) => name.clone().concat(" not found"),
            FirmwareError::BootMode => String::from_str("must be run using UEFI boot"),
            FirmwareError::Identity(d) => d.clone(),
            FirmwareError::CacheCorrupt(d) => d.clone(),
            FirmwareError::MalformedManifest(d) => d.clone(),
            FirmwareError::Filesystem(d) => d.clone(),
            FirmwareError::Network(d) => d.clone(),
            FirmwareError::BootFlag(d) => d.clone(),
        }
    }
}

/// Renders any displayable error as its `Display` text.
pub fn err_str<E: std::fmt::Display>(err: E) -> (r: String)
    ensures
        vstd::string::to_string_from_display_ensures::<E>(&err, r),
{
    err.to_string()
}

} // verus!
