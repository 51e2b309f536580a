//! Vulkan API version numbers and the versions that the bring-up works with.

use vstd::prelude::*;

verus! {

/// The operating system family that the program runs on.
#[derive(Clone, Copy, Debug, PartialEq, Eq, Structural)]
pub enum Platform {
    /// Desktop systems and everything else that is not listed.
    Desktop,
    /// Android, whose drivers are asked for an older API version.
    Android,
}

/// A Vulkan version number packed into 32 bits: the variant in the top three
/// bits, then seven bits of major, ten of minor and twelve of patch version.
pub open spec fn packed_version(variant: u32, major: u32, minor: u32, patch: u32) -> u32 {
    (variant << 29u32) | (major << 22u32) | (minor << 12u32) | patch
}

/// Trusted: `ash::vk::make_api_version` packs its four arguments as
/// `VK_MAKE_API_VERSION` does, shifting each into its place and joining them
/// with bitwise or. Bits that a too-large argument shifts past the top are
/// lost.
pub assume_specification[ ash::vk::make_api_version ](
    variant: u32,
    major: u32,
    minor: u32,
    patch: u32,
) -> (version: u32)
    ensures
        version == packed_version(variant, major, minor, patch),
;

/// The API version that instances are created for on `platform`: 1.2, and
/// 1.1 on Android.
pub open spec fn target_version(platform: Platform) -> u32 {
    match platform {
        Platform::Desktop => packed_version(0, 1, 2, 0),
        Platform::Android => packed_version(0, 1, 1, 0),
    }
}

/// The oldest API version, 1.0, which is assumed where an instance does not
/// report its version.
pub open spec fn oldest_version() -> u32 {
    packed_version(0, 1, 0, 0)
}

/// The version that an instance is taken to support, given what the version
/// query reported.
pub open spec fn resolved_version(reported: Option<u32>) -> u32 {
    match reported {
        Some(version) => version,
        None => oldest_version(),
    }
}

/// The packed numbers of the versions 1.0, 1.1 and 1.2.
pub proof fn lemma_version_numbers()
    ensures
        oldest_version() == 0x40_0000,
        target_version(Platform::Android) == 0x40_1000,
        target_version(Platform::Desktop) == 0x40_2000,
{
    assert(packed_version(0, 1, 0, 0) == 0x40_0000) by (bit_vector);
    assert(packed_version(0, 1, 1, 0) == 0x40_1000) by (bit_vector);
    assert(packed_version(0, 1, 2, 0) == 0x40_2000) by (bit_vector);
}

/// The API version to create the instance for.
pub fn target_api_version(platform: Platform) -> (version: u32)
    ensures
        version == target_version(platform),
        platform == Platform::Desktop ==> version == 0x40_2000,
        platform == Platform::Android ==> version == 0x40_1000,
{
    proof {
        lemma_version_numbers();
    }
    match platform {
        Platform::Desktop => ash::vk::make_api_version(0, 1, 2, 0),
        Platform::Android => ash::vk::make_api_version(0, 1, 1, 0),
    }
}

/// The API version of the instance: what the query reported or, where it
/// reported nothing, version 1.0.
pub fn resolve_instance_version(reported: Option<u32>) -> (version: u32)
    ensures
        version == resolved_version(reported),
        reported.is_none() ==> version == 0x40_0000,
{
    proof {
        lemma_version_numbers();
    }
    match reported {
        Some(version) => version,
        None => ash::vk::make_api_version(0, 1, 0, 0),
    }
}

} // verus!
