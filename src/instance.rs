use vstd::prelude::*;
use vstd::string::StringSliceAdditionalSpecFns;

verus! {

/// Relies on ash::vk::make_api_version: it packs a Vulkan version number as
/// variant in bits 29 and up, major in bits 22 and up, minor in bits 12 and up,
/// and patch below.
pub assume_specification[ ash::vk::make_api_version ](
    variant: u32,
    major: u32,
    minor: u32,
    patch: u32,
) -> (r: u32)
    ensures
        r == (variant << 29u32) | (major << 22u32) | (minor << 12u32) | patch,
;

/// Vulkan 1.3.0 as a packed version number.
pub const API_VERSION_1_3: u32 = 0x0040_3000;

/// The name this engine reports to the driver.
pub open spec fn engine_name() -> Seq<char> {
    "AshEngine"@
}

/// What the application tells the driver about itself when it connects.
#[derive(Debug)]
pub struct InstanceConfig {
    pub application_name: String,
    pub application_version: u32,
    pub engine_name: String,
    pub engine_version: u32,
    pub api_version: u32,
}

/// Why the connection description could not be made.
#[derive(Clone, Copy, Debug, PartialEq, Eq, Structural)]
pub enum InstanceError {
    /// The application name holds a NUL byte, so it cannot be handed to the
    /// driver as a C string.
    NulInName,
}

pub open spec fn has_nul(bytes: Seq<u8>) -> bool {
    exists|i: int| 0 <= i < bytes.len() && bytes[i] == 0
}

/// Whether a name holds a NUL byte.
pub fn contains_nul(name: &str) -> (r: bool)
    ensures
        r == has_nul(name.spec_bytes()),
{
    let bytes = name.as_bytes();
    let mut i: usize = 0;
    while i < bytes.len()
        invariant
            0 <= i <= bytes@.len(),
            bytes@ == name.spec_bytes(),
            forall|j: int| 0 <= j < i ==> bytes@[j] != 0,
        decreases bytes@.len() - i,
    {
        if bytes[i] == 0 {
            return true;
        }
        i += 1;
    }
    false
}

impl InstanceConfig {
    /// Describes the connection for an application called `app_name`: version
    /// zero of the application and of the engine, and Vulkan 1.3.
    pub fn new(app_name: &str) -> (r: Result<InstanceConfig, InstanceError>)
        ensures
            has_nul(app_name.spec_bytes()) <==> r is Err,
            r matches Err(e) ==> e == InstanceError::NulInName,
            r matches Ok(c) ==> {
                &&& c.application_name@ == app_name@
                &&& c.application_version == 0
                &&& c.engine_name@ == engine_name()
                &&& c.engine_version == 0
                &&& c.api_version == API_VERSION_1_3
            },
    {
        if contains_nul(app_name) {
            return Err(InstanceError::NulInName);
        }
        let api_version = ash::vk::make_api_version(0, 1, 3, 0);
        assert(((0u32 << 29u32) | (1u32 << 22u32) | (3u32 << 12u32) | 0u32) == 0x0040_3000u32)
            by (bit_vector);
        Ok(
            InstanceConfig {
                application_name: app_name.to_owned(),
                application_version: 0,
                engine_name: "AshEngine".to_owned(),
                engine_version: 0,
                api_version,
            },
        )
    }
}

} // verus!
