use vstd::prelude::*;

verus! {

/// Vulkan packs an API version into one 32-bit word: three bits of
/// variant, seven of major, ten of minor and twelve of patch.
pub open spec fn make_api_version_spec(variant: u32, major: u32, minor: u32, patch: u32) -> u32 {
    (variant << 29) | (major << 22) | (minor << 12) | patch
}

pub open spec fn api_version_variant_spec(version: u32) -> u32 {
    version >> 29
}

pub open spec fn api_version_major_spec(version: u32) -> u32 {
    (version >> 22) & 0x7f
}

pub open spec fn api_version_minor_spec(version: u32) -> u32 {
    (version >> 12) & 0x3ff
}

pub open spec fn api_version_patch_spec(version: u32) -> u32 {
    version & 0xfff
}

/// Pack a variant, major, minor and patch number into one version word.
pub fn make_api_version(variant: u32, major: u32, minor: u32, patch: u32) -> (version: u32)
    ensures
        version == make_api_version_spec(variant, major, minor, patch),
{
    (variant << 29u32) | (major << 22u32) | (minor << 12u32) | patch
}

/// The major number held in a packed version word.
pub fn api_version_major(version: u32) -> (major: u32)
    ensures
        major == api_version_major_spec(version),
{
    (version >> 22u32) & 0x7fu32
}

/// The minor number held in a packed version word.
pub fn api_version_minor(version: u32) -> (minor: u32)
    ensures
        minor == api_version_minor_spec(version),
{
    (version >> 12u32) & 0x3ffu32
}

/// The patch number held in a packed version word.
pub fn api_version_patch(version: u32) -> (patch: u32)
    ensures
        patch == api_version_patch_spec(version),
{
    version & 0xfffu32
}

/// The version word both the application and the engine report.
pub fn application_version() -> (version: u32)
    ensures
        version == make_api_version_spec(0, 1, 0, 0),
{
    make_api_version(0, 1, 0, 0)
}

/// The Vulkan API version the instance is created against.
pub fn api_version() -> (version: u32)
    ensures
        version == make_api_version_spec(0, 1, 0, 0),
{
    make_api_version(0, 1, 0, 0)
}

/// Packing a version and reading its fields back gives the numbers
/// that went in, as long as each fits its bit field.
pub proof fn lemma_api_version_round_trip(variant: u32, major: u32, minor: u32, patch: u32)
    requires
        variant < 8,
        major < 128,
        minor < 1024,
        patch < 4096,
    ensures
        api_version_variant_spec(make_api_version_spec(variant, major, minor, patch)) == variant,
        api_version_major_spec(make_api_version_spec(variant, major, minor, patch)) == major,
        api_version_minor_spec(make_api_version_spec(variant, major, minor, patch)) == minor,
        api_version_patch_spec(make_api_version_spec(variant, major, minor, patch)) == patch,
{
    assert(((variant << 29) | (major << 22) | (minor << 12) | patch) >> 29 == variant)
        by (bit_vector)
        requires variant < 8, major < 128, minor < 1024, patch < 4096;
    assert((((variant << 29) | (major << 22) | (minor << 12) | patch) >> 22) & 0x7f == major)
        by (bit_vector)
        requires variant < 8, major < 128, minor < 1024, patch < 4096;
    assert((((variant << 29) | (major << 22) | (minor << 12) | patch) >> 12) & 0x3ff == minor)
        by (bit_vector)
        requires variant < 8, major < 128, minor < 1024, patch < 4096;
    assert(((variant << 29) | (major << 22) | (minor << 12) | patch) & 0xfff == patch)
        by (bit_vector)
        requires variant < 8, major < 128, minor < 1024, patch < 4096;
}

} // verus!
