//! Configuration fields: a field is a run of bits in one register, and each
//! option it can hold is a small number. Merging an option into a register
//! byte touches the field's bits and no others.

use vstd::prelude::*;
use crate::register::register::Register;

verus! {

/// The mask of the bits `start..=end` of a byte.
pub open spec fn field_mask(start: u8, end: u8) -> u8 {
    ((0xFFu8 >> ((7 - (end - start)) as u8)) << start)
}

/// The number of bits in the range `start..=end`.
pub open spec fn field_width(start: u8, end: u8) -> u8 {
    (end - start + 1) as u8
}

/// A named range of bits within one register, holding one configuration
/// option.
///
/// Whoever implements the trait proves that the field lies within a byte and
/// that every option fits in the field. A merge therefore cannot spill into a
/// neighbouring field, and nothing needs to be checked when it runs.
pub trait BitField: Into<u8> + Copy {
    /// The lowest bit of the field.
    spec fn start_bit(&self) -> u8;

    /// The highest bit of the field.
    spec fn end_bit(&self) -> u8;

    /// The register that holds the field.
    spec fn owner(&self) -> Register;

    /// The option's number: what the field holds, counted from its lowest
    /// bit.
    spec fn bits(&self) -> u8;

    /// The field lies within one byte and the option's number fits in it.
    proof fn lemma_fits(&self)
        ensures
            self.start_bit() <= self.end_bit() <= 7,
            self.bits() >> field_width(self.start_bit(), self.end_bit()) == 0,
    ;

    /// The lowest bit of the field.
    fn start(&self) -> (s: u8)
        ensures
            s == self.start_bit(),
    ;

    /// The highest bit of the field.
    fn end(&self) -> (e: u8)
        ensures
            e == self.end_bit(),
    ;

    /// The register that holds the field.
    fn register(&self) -> (r: Register)
        ensures
            r == self.owner(),
    ;

    /// The option's number. For a field of this crate it is also what the
    /// conversion into `u8` gives.
    fn value(&self) -> (v: u8)
        ensures
            v == self.bits(),
    ;

    /// The number of bits in the field.
    fn len(&self) -> (n: u8)
        ensures
            n == self.end_bit() - self.start_bit() + 1,
    {
        proof {
            self.lemma_fits();
        }
        self.end() - self.start() + 1
    }

    /// The byte that has the field's bits set and no others.
    fn mask(&self) -> (m: u8)
        ensures
            m == field_mask(self.start_bit(), self.end_bit()),
    {
        proof {
            self.lemma_fits();
        }
        let span: u8 = self.end() - self.start();
        (0xFFu8 >> (7 - span)) << self.start()
    }

    /// Puts the option into a register byte: the field's bits are cleared and
    /// the option's number is set in their place; every other bit stays.
    fn merge_into(&self, current: u8) -> (merged: u8)
        ensures
            merged == merged_byte(self.start_bit(), self.end_bit(), self.bits(), current),
            merged & !field_mask(self.start_bit(), self.end_bit()) == current & !field_mask(
                self.start_bit(),
                self.end_bit(),
            ),
            merged & field_mask(self.start_bit(), self.end_bit()) == self.bits()
                << self.start_bit(),
    {
        proof {
            self.lemma_fits();
            lemma_merged_byte(self.start_bit(), self.end_bit(), self.bits(), current);
        }
        (current & !self.mask()) | (self.value() << self.start())
    }
}

/// A register byte after the bits `start..=end` were replaced by `bits`.
pub open spec fn merged_byte(start: u8, end: u8, bits: u8, current: u8) -> u8 {
    (current & !field_mask(start, end)) | (bits << start)
}

/// A number that is less than two to the power of a field's width has no bit
/// at or above that width.
pub proof fn lemma_width_fits(bits: u8, start: u8, end: u8)
    requires
        start <= end <= 7,
        end - start == 0 ==> bits <= 1,
        end - start == 1 ==> bits <= 3,
        end - start == 2 ==> bits <= 7,
        end - start == 3 ==> bits <= 15,
        end - start == 4 ==> bits <= 31,
        end - start == 5 ==> bits <= 63,
        end - start == 6 ==> bits <= 127,
    ensures
        bits >> field_width(start, end) == 0,
{
    let width = field_width(start, end);
    assert(bits >> width == 0) by (bit_vector)
        requires
            1 <= width <= 8,
            width == 1 ==> bits <= 1,
            width == 2 ==> bits <= 3,
            width == 3 ==> bits <= 7,
            width == 4 ==> bits <= 15,
            width == 5 ==> bits <= 31,
            width == 6 ==> bits <= 63,
            width == 7 ==> bits <= 127,
    ;
}

/// The mask of a field that lies within one byte has exactly the bits
/// `start..=end` set.
pub proof fn lemma_mask_bits(start: u8, end: u8, i: u8)
    requires
        start <= end <= 7,
        i <= 7,
    ensures
        (field_mask(start, end) >> i) & 1 == (if start <= i <= end { 1u8 } else { 0u8 }),
{
    assert((((0xFFu8 >> ((7 - (end - start)) as u8)) << start) >> i) & 1 == (if start <= i && i
        <= end {
        1u8
    } else {
        0u8
    })) by (bit_vector)
        requires
            start <= end <= 7,
            i <= 7,
    ;
}

/// The mask of a field is a run of as many ones as the field is wide, shifted
/// up to the field's lowest bit.
pub proof fn lemma_mask_formula(start: u8, end: u8)
    requires
        start <= end <= 7,
    ensures
        field_mask(start, end) == (((1u32 << field_width(start, end)) - 1) as u32) << start,
{
    let width = field_width(start, end);
    assert(((0xFFu8 >> ((7 - (end - start)) as u8)) << start) == ((((1u32 << width) - 1) as u32)
        << start)) by (bit_vector)
        requires
            start <= end <= 7,
            width == end - start + 1,
    ;
}

/// Replacing the bits `start..=end` of a byte by a number that fits in them
/// changes no bit outside the range, and leaves the number, shifted into
/// place, inside it.
pub proof fn lemma_merged_byte(start: u8, end: u8, bits: u8, current: u8)
    requires
        start <= end <= 7,
        bits >> field_width(start, end) == 0,
    ensures
        merged_byte(start, end, bits, current) & !field_mask(start, end) == current & !field_mask(
            start,
            end,
        ),
        merged_byte(start, end, bits, current) & field_mask(start, end) == bits << start,
        (merged_byte(start, end, bits, current) >> start) & (field_mask(start, end) >> start)
            == bits,
{
    let width = field_width(start, end);
    let m: u8 = ((0xFFu8 >> ((7 - (end - start)) as u8)) << start);
    assert(((current & !m) | (bits << start)) & !m == current & !m) by (bit_vector)
        requires
            start <= end <= 7,
            width == end - start + 1,
            bits >> width == 0,
            m == ((0xFFu8 >> ((7 - (end - start)) as u8)) << start),
    ;
    assert(((current & !m) | (bits << start)) & m == bits << start) by (bit_vector)
        requires
            start <= end <= 7,
            width == end - start + 1,
            bits >> width == 0,
            m == ((0xFFu8 >> ((7 - (end - start)) as u8)) << start),
    ;
    assert((((current & !m) | (bits << start)) >> start) & (m >> start) == bits) by (bit_vector)
        requires
            start <= end <= 7,
            width == end - start + 1,
            bits >> width == 0,
            m == ((0xFFu8 >> ((7 - (end - start)) as u8)) << start),
    ;
}

/// Merging a field into a register byte changes no bit outside the field's
/// mask, and leaves the option's number, shifted into place, inside it: read
/// back through the mask, the field holds the option.
pub proof fn lemma_merge_preserves_outside<B: BitField>(field: B, current: u8)
    ensures
        merged_byte(field.start_bit(), field.end_bit(), field.bits(), current) & !field_mask(
            field.start_bit(),
            field.end_bit(),
        ) == current & !field_mask(field.start_bit(), field.end_bit()),
        merged_byte(field.start_bit(), field.end_bit(), field.bits(), current) & field_mask(
            field.start_bit(),
            field.end_bit(),
        ) == field.bits() << field.start_bit(),
        (merged_byte(field.start_bit(), field.end_bit(), field.bits(), current)
            >> field.start_bit()) & (field_mask(field.start_bit(), field.end_bit())
            >> field.start_bit()) == field.bits(),
{
    field.lemma_fits();
    lemma_merged_byte(field.start_bit(), field.end_bit(), field.bits(), current);
}

} // verus!
