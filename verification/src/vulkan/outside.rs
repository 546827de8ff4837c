//! What is taken from the `ash` crate: numbers that it defines and packs. Nothing here is proved;
//! each contract states what the crate's source shows.

use vstd::prelude::*;

verus! {

/// A version as one number: the major part from bit 22 up, the minor part from bit 12 up, the patch
/// in the lowest bits.
pub open spec fn packed_version(major: u32, minor: u32, patch: u32) -> u32 {
    (major << 22u32) | (minor << 12u32) | patch
}

/// `ash::vk::make_version` packs the parts of a version into one number.
#[allow(deprecated)]
pub assume_specification[ ash::vk::make_version ](major: u32, minor: u32, patch: u32) -> (version:
    u32)
    ensures
        version == packed_version(major, minor, patch),
;

/// `ash::vk::Pipeline::null` is the handle that stands for no pipeline. Its raw number is zero.
#[verifier::external_body]
pub(crate) fn null_pipeline() -> (raw: u64)
    ensures
        raw == 0,
{
    ash::vk::Handle::as_raw(ash::vk::Pipeline::null())
}

/// `ash::vk::Sampler::null` is the handle that stands for no sampler. Its raw number is zero.
#[verifier::external_body]
pub(crate) fn null_sampler() -> (raw: u64)
    ensures
        raw == 0,
{
    ash::vk::Handle::as_raw(ash::vk::Sampler::null())
}

/// `ash::extensions::ext::DebugUtils::name` is the name of the extension that reports errors to the
/// program.
#[verifier::external_body]
pub(crate) fn debug_utils_name() -> (name: String)
    ensures
        name@ == "VK_EXT_debug_utils"@,
{
    ash::extensions::ext::DebugUtils::name().to_string_lossy().into_owned()
}

/// The error code of a swapchain that no longer fits its surface.
pub open spec fn out_of_date() -> i32 {
    -1_000_001_004i32
}

/// `ash::vk::Result::ERROR_OUT_OF_DATE_KHR` is what a call returns for a swapchain that no longer
/// fits its surface. Its raw number is fixed.
#[verifier::external_body]
pub(crate) fn out_of_date_code() -> (raw: i32)
    ensures
        raw == out_of_date(),
{
    ash::vk::Result::ERROR_OUT_OF_DATE_KHR.as_raw()
}

} // verus!
