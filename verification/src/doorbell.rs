//! Doorbell Register.
//!
//! One element of the Doorbell Array: a 32-bit word holding the Doorbell
//! Target in bits 0..=7 and the Doorbell Stream ID in bits 16..=31. The
//! remaining bits are reserved. Field accessors are pure bit manipulation;
//! reading or writing live hardware happens a whole word at a time, through
//! the array view.

use vstd::prelude::*;

use crate::bits::{
    lemma_field_round_trip, lemma_read_field_bounded, lemma_read_zero,
    lemma_write_preserves_disjoint, low_mask_spec, read_field, read_field_spec, write_field,
    write_field_spec,
};

verus! {

/// The element of the Doorbell Array.
#[derive(Clone, Copy)]
pub struct Register(u32);

impl View for Register {
    type V = u32;

    /// The raw 32-bit hardware word behind the register.
    closed spec fn view(&self) -> u32 {
        self.0
    }
}

impl Register {
    /// The Doorbell Target field: bits 0..=7.
    pub open spec fn doorbell_target_spec(&self) -> u32 {
        read_field_spec(self@, 0, 7)
    }

    /// The Doorbell Stream ID field: bits 16..=31.
    pub open spec fn doorbell_stream_id_spec(&self) -> u32 {
        read_field_spec(self@, 16, 31)
    }

    /// Builds a register from the raw word read from hardware.
    pub fn from_bits(bits: u32) -> (r: Self)
        ensures
            r@ == bits,
    {
        Register(bits)
    }

    /// The raw word, as written back to hardware.
    pub fn bits(&self) -> (r: u32)
        ensures
            r == self@,
    {
        self.0
    }

    /// Returns the value of the Doorbell Target field.
    pub fn doorbell_target(&self) -> (r: u8)
        ensures
            r as u32 == self.doorbell_target_spec(),
    {
        let v = read_field(self.0, 0, 7);
        proof {
            lemma_read_field_bounded(self.0, 0, 7);
            assert(low_mask_spec(8) == 0xff) by (bit_vector);
        }
        v as u8
    }

    /// Sets the Doorbell Target field, leaving every other bit of the word
    /// unchanged.
    pub fn set_doorbell_target(&mut self, value: u8)
        ensures
            final(self)@ == write_field_spec(old(self)@, 0, 7, value as u32),
    {
        self.0 = write_field(self.0, 0, 7, value as u32);
    }

    /// Returns the value of the Doorbell Stream ID field.
    pub fn doorbell_stream_id(&self) -> (r: u16)
        ensures
            r as u32 == self.doorbell_stream_id_spec(),
    {
        let v = read_field(self.0, 16, 31);
        proof {
            lemma_read_field_bounded(self.0, 16, 31);
            assert(low_mask_spec(16) == 0xffff) by (bit_vector);
        }
        v as u16
    }

    /// Sets the Doorbell Stream ID field, leaving every other bit of the word
    /// unchanged.
    pub fn set_doorbell_stream_id(&mut self, value: u16)
        ensures
            final(self)@ == write_field_spec(old(self)@, 16, 31, value as u32),
    {
        self.0 = write_field(self.0, 16, 31, value as u32);
    }
}

impl Default for Register {
    /// The all-zero reset value.
    fn default() -> (r: Self)
        ensures
            r@ == 0,
    {
        Register(0)
    }
}

/// A register holding the all-zero reset word has every field equal to zero.
pub proof fn lemma_zero_register_fields_zero(r: Register)
    requires
        r@ == 0,
    ensures
        r.doorbell_target_spec() == 0,
        r.doorbell_stream_id_spec() == 0,
{
    lemma_read_zero(0, 7);
    lemma_read_zero(16, 31);
}

/// Setting the Doorbell Target yields a register that reads the value back
/// exactly, and whose Doorbell Stream ID is unchanged.
pub proof fn lemma_set_doorbell_target(r: Register, s: Register, value: u8)
    requires
        s@ == write_field_spec(r@, 0, 7, value as u32),
    ensures
        s.doorbell_target_spec() == value as u32,
        s.doorbell_stream_id_spec() == r.doorbell_stream_id_spec(),
{
    lemma_field_round_trip(r@, 0, 7, value as u32);
    assert((value as u32) & low_mask_spec(8) == value as u32) by (bit_vector);
    lemma_write_preserves_disjoint(r@, 0, 7, 16, 31, value as u32);
}

/// Setting the Doorbell Stream ID yields a register that reads the value back
/// exactly, and whose Doorbell Target is unchanged.
pub proof fn lemma_set_doorbell_stream_id(r: Register, s: Register, value: u16)
    requires
        s@ == write_field_spec(r@, 16, 31, value as u32),
    ensures
        s.doorbell_stream_id_spec() == value as u32,
        s.doorbell_target_spec() == r.doorbell_target_spec(),
{
    lemma_field_round_trip(r@, 16, 31, value as u32);
    assert((value as u32) & low_mask_spec(16) == value as u32) by (bit_vector);
    lemma_write_preserves_disjoint(r@, 16, 31, 0, 7, value as u32);
}

} // verus!
