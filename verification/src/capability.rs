//! Capability words.
//!
//! The controller's capability block reports, in fixed words at fixed
//! offsets, where the doorbell array lives and how many device slots it has.
//! Reading those words from live hardware is volatile access and belongs to
//! the embedding program; this module holds the words as plain values and
//! decodes them, which is the hardware-trust boundary: the values themselves
//! are not validated here.

use vstd::prelude::*;

use crate::bits::{lemma_read_field_bounded, low_mask_spec, read_field, read_field_spec};

verus! {

/// The capability words that size and place the Doorbell Array.
#[derive(Clone, Copy)]
pub struct Capability {
    /// The raw HCSPARAMS1 word; bits 0..=7 carry the number of device slots.
    pub hcsparams1: u32,
    /// The raw DBOFF word: the byte offset of the Doorbell Array from the
    /// MMIO base.
    pub dboff: u32,
}

impl Capability {
    /// The number of device slots the controller reports: bits 0..=7 of
    /// HCSPARAMS1.
    pub open spec fn device_slots_spec(&self) -> u32 {
        read_field_spec(self.hcsparams1, 0, 7)
    }

    /// The byte offset of the Doorbell Array from the MMIO base.
    pub open spec fn doorbell_offset_spec(&self) -> u32 {
        self.dboff
    }

    /// Returns the number of device slots.
    pub fn number_of_device_slots(&self) -> (r: u8)
        ensures
            r as u32 == self.device_slots_spec(),
    {
        let v = read_field(self.hcsparams1, 0, 7);
        proof {
            lemma_read_field_bounded(self.hcsparams1, 0, 7);
            assert(low_mask_spec(8) == 0xff) by (bit_vector);
        }
        v as u8
    }

    /// Returns the byte offset of the Doorbell Array from the MMIO base.
    pub fn doorbell_offset(&self) -> (r: u32)
        ensures
            r == self.doorbell_offset_spec(),
    {
        self.dboff
    }

    /// The reported slot count always fits in eight bits.
    pub proof fn lemma_device_slots_bounded(&self)
        ensures
            self.device_slots_spec() <= 0xff,
    {
        lemma_read_field_bounded(self.hcsparams1, 0, 7);
        assert(low_mask_spec(8) == 0xff) by (bit_vector);
    }
}

} // verus!
