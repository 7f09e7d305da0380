//! The vendors of graphics hardware and the identifiers that drivers report
//! for them.

use vstd::prelude::*;

verus! {

/// A vendor of graphics hardware.
#[derive(Debug, Clone, Copy, PartialEq, Eq, Structural)]
pub enum VendorID {
    AMD,
    NVIDIA,
    APPLE,
    INTEL,
    ARM,
    QUALCOMM,
    BROADCOM,
    IMGTEC,
    MESA,
}

impl VendorID {
    /// The identifier that drivers report for a vendor.
    pub open spec fn code(self) -> u32 {
        match self {
            VendorID::AMD => 0x1002,
            VendorID::NVIDIA => 0x10DE,
            VendorID::APPLE => 0x106B,
            VendorID::INTEL => 0x8086,
            VendorID::ARM => 0x13B5,
            VendorID::QUALCOMM => 0x5143,
            VendorID::BROADCOM => 0x14E4,
            VendorID::IMGTEC => 0x1010,
            VendorID::MESA => 0x10005,
        }
    }

    /// `v` is the identifier of some vendor.
    pub open spec fn known(v: u32) -> bool {
        exists|vendor: VendorID| vendor.code() == v
    }

    /// The identifier that drivers report for a vendor.
    pub fn id(vendor_id: VendorID) -> (v: u32)
        ensures
            v == vendor_id.code(),
    {
        match vendor_id {
            VendorID::AMD => 0x1002,
            VendorID::NVIDIA => 0x10DE,
            VendorID::APPLE => 0x106B,
            VendorID::INTEL => 0x8086,
            VendorID::ARM => 0x13B5,
            VendorID::QUALCOMM => 0x5143,
            VendorID::BROADCOM => 0x14E4,
            VendorID::IMGTEC => 0x1010,
            VendorID::MESA => 0x10005,
        }
    }

    /// The vendor that an identifier stands for; an error where it stands
    /// for none.
    pub fn try_from(v: u32) -> (vendor: Result<VendorID, ()>)
        ensures
            match vendor {
                Ok(found) => found.code() == v,
                Err(_) => !Self::known(v),
            },
    {
        if v == 0x1002 {
            Ok(VendorID::AMD)
        } else if v == 0x10DE {
            Ok(VendorID::NVIDIA)
        } else if v == 0x106B {
            Ok(VendorID::APPLE)
        } else if v == 0x8086 {
            Ok(VendorID::INTEL)
        } else if v == 0x13B5 {
            Ok(VendorID::ARM)
        } else if v == 0x5143 {
            Ok(VendorID::QUALCOMM)
        } else if v == 0x14E4 {
            Ok(VendorID::BROADCOM)
        } else if v == 0x1010 {
            Ok(VendorID::IMGTEC)
        } else if v == 0x10005 {
            Ok(VendorID::MESA)
        } else {
            assert forall|vendor: VendorID| vendor.code() != v by {}
            Err(())
        }
    }
}

/// No two vendors share an identifier, so reading a vendor's identifier
/// back finds that vendor and no other.
pub proof fn lemma_vendor_codes_distinct(a: VendorID, b: VendorID)
    requires
        a.code() == b.code(),
    ensures
        a == b,
{
}

} // verus!
