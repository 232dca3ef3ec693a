//! GDI `ChangeDisplaySettingsExW` flag values for registry staging and the
//! global display layout flush.
use vstd::prelude::*;

verus! {

/// Write the settings to the registry.
pub const CDS_UPDATEREGISTRY: u32 = 0x0000_0001;

/// Make the device the primary one.
pub const CDS_SET_PRIMARY: u32 = 0x0000_0010;

/// Stage the settings without resetting the hardware.
pub const CDS_NORESET: u32 = 0x1000_0000;

/// Flags used to write changes to the registry without triggering an
/// immediate hardware reset. Changes are batched and applied together during
/// the final global flush.
pub const STAGE_FLAGS: (u32,) = (0x1000_0001,);

/// Flags required to register and promote a monitor as the primary display
/// inside the registry without immediately resetting the hardware.
pub const STAGE_PRIMARY_FLAGS: (u32,) = (0x1000_0011,);

/// Flags for the final global flush step: no flags at all, with a null device
/// name and mode, renders the staged layout.
pub const GLOBAL_FLUSH_FLAGS: (u32,) = (0,);

/// The staging flag words are made of the documented flags.
pub proof fn lemma_stage_flags()
    ensures
        STAGE_FLAGS.0 == (CDS_UPDATEREGISTRY | CDS_NORESET),
        STAGE_PRIMARY_FLAGS.0 == (CDS_UPDATEREGISTRY | CDS_NORESET | CDS_SET_PRIMARY),
        STAGE_FLAGS.0 != GLOBAL_FLUSH_FLAGS.0,
{
    assert((0x0000_0001u32 | 0x1000_0000u32) == 0x1000_0001u32) by (bit_vector);
    assert((0x0000_0001u32 | 0x1000_0000u32 | 0x0000_0010u32) == 0x1000_0011u32) by (bit_vector);
}

} // verus!
