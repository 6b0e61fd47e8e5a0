use vstd::prelude::*;

verus! {

/// Error of the virtio block device driver.
///
/// Every failure of a request, of the bring-up of the device or of a self test
/// is reported as `BlkDevError` with the id of the device that failed.
#[derive(Debug, Clone, Copy, PartialEq, Eq, Structural)]
pub enum VirtioBlkError {
    BlkDevError(u16),
}

/// Error of building a driver from the capabilities of a PCI device: none of
/// the device-specific configuration capabilities could be mapped.
#[derive(Debug, Clone, Copy, PartialEq, Eq, Structural)]
pub enum DevCfgError {
    NoDevCfg(u16),
}

} // verus!
