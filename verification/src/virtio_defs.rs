//! Constants and flag tests of the virtio specification, as the
//! `virtio-spec` crate defines them.

use vstd::prelude::*;
use virtio_spec::blk;
use virtio_spec::le128;
use virtio_spec::pci::IsrStatus;

verus! {

/// The feature bit `VIRTIO_F_VERSION_1` (bit 32).
pub open spec fn spec_version_1() -> u128 {
    0x1_0000_0000u128
}

/// All bits of `required` are set in `features`.
pub open spec fn spec_features_contain(features: u128, required: u128) -> bool {
    features & required == required
}

/// The ISR status bit that signals a change of the device configuration
/// (bit 1).
pub open spec fn spec_isr_config_bit() -> u8 {
    2u8
}

/// Code of a read request: `virtio_spec::blk::T::In` as its `u32`
/// representation, which the crate declares as 0.
#[verifier::external_body]
pub(crate) fn request_type_in() -> (r: u32)
    ensures
        r == 0,
{
    u32::from(blk::T::In)
}

/// Code of a write request: `virtio_spec::blk::T::Out` as its `u32`
/// representation, which the crate declares as 1.
#[verifier::external_body]
pub(crate) fn request_type_out() -> (r: u32)
    ensures
        r == 1,
{
    u32::from(blk::T::Out)
}

/// Status byte of a successful request: `virtio_spec::blk::S::Ok` as its `u8`
/// representation, which the crate declares as 0.
#[verifier::external_body]
pub(crate) fn status_ok() -> (r: u8)
    ensures
        r == 0,
{
    u8::from(blk::S::Ok)
}

/// `virtio_spec::blk::F::VERSION_1` as native-endian bits; the crate defines
/// it as `1 << 32`.
#[verifier::external_body]
pub(crate) fn feature_version_1() -> (r: u128)
    ensures
        r == spec_version_1(),
{
    blk::F::VERSION_1.bits().to_ne()
}

/// `virtio_spec::blk::F::contains` on the flag sets with the given native
/// bits; the crate computes it as `self & other == other`.
#[verifier::external_body]
pub(crate) fn features_contain(features: u128, required: u128) -> (r: bool)
    ensures
        r == spec_features_contain(features, required),
{
    blk::F::from_bits_retain(le128::from_ne(features)).contains(
        blk::F::from_bits_retain(le128::from_ne(required)),
    )
}

/// `virtio_spec::pci::IsrStatus::contains` with the flag
/// `DEVICE_CONFIGURATION_INTERRUPT` (`1 << 1`), on the status byte `status`.
#[verifier::external_body]
pub(crate) fn isr_signals_config_change(status: u8) -> (r: bool)
    ensures
        r == (status & spec_isr_config_bit() == spec_isr_config_bit()),
{
    IsrStatus::from_bits_retain(status).contains(IsrStatus::DEVICE_CONFIGURATION_INTERRUPT)
}

} // verus!
