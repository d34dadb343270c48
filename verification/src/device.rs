use vstd::prelude::*;

verus! {

/// The USB vendor identifier under which the controller enumerates.
pub const VENDOR_ID: u16 = 0x054c;

/// The product identifier of the first hardware revision.
pub const PRODUCT_ID_V1: u16 = 0x05c4;

/// The product identifier of the second hardware revision.
pub const PRODUCT_ID_V2: u16 = 0x09cc;

/// Tells whether a vendor and product identifier name a supported
/// controller.
pub fn is_dual_shock_4(vendor_id: u16, product_id: u16) -> (supported: bool)
    ensures
        supported <==> vendor_id == 0x054c && (product_id == 0x05c4 || product_id == 0x09cc),
{
    vendor_id == VENDOR_ID && (product_id == PRODUCT_ID_V1 || product_id == PRODUCT_ID_V2)
}

} // verus!
