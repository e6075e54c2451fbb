//! Debug Port and Access Port registers as typed views of a raw 32-bit value.
//!
//! Every field is a run of `width` bits starting at bit `start`. The helpers here
//! read and replace such a run; each register type states its own layout by
//! calling them with its constants.
use vstd::prelude::*;

pub mod ap;
pub mod dp;

verus! {

/// The `width` lowest bits set.
pub open spec fn low_mask(width: u32) -> u32 {
    0xffff_ffffu32 >> ((32 - width) as u32)
}

/// Whether `start` and `width` describe a run of bits inside a 32-bit word.
pub open spec fn field_fits(start: u32, width: u32) -> bool {
    1 <= width <= 32 && start <= 32 - width
}

/// The `width` bits of `raw` starting at bit `start`.
pub open spec fn field(raw: u32, start: u32, width: u32) -> u32 {
    (raw >> start) & low_mask(width)
}

/// Whether `a` and `b` agree on every bit outside the run of `width` bits at `start`.
pub open spec fn same_outside(a: u32, b: u32, start: u32, width: u32) -> bool {
    a & !(low_mask(width) << start) == b & !(low_mask(width) << start)
}

/// A register holding a raw 32-bit value.
pub trait Register: Sized {
    /// The raw value of the register.
    spec fn raw(&self) -> u32;
}

/// The masks of the field widths that the registers use.
proof fn lemma_low_masks()
    by (bit_vector)
    ensures
        0xffff_ffffu32 >> 31u32 == 1,
        0xffff_ffffu32 >> 30u32 == 3,
        0xffff_ffffu32 >> 29u32 == 7,
        0xffff_ffffu32 >> 28u32 == 0xf,
        0xffff_ffffu32 >> 25u32 == 0x7f,
        0xffff_ffffu32 >> 24u32 == 0xff,
        0xffff_ffffu32 >> 21u32 == 0x7ff,
        0xffff_ffffu32 >> 16u32 == 0xffff,
        0xffff_ffffu32 >> 0u32 == 0xffff_ffff,
{
}

proof fn lemma_field_bound(raw: u32, start: u32, width: u32, value: u32)
    by (bit_vector)
    requires
        1 <= width <= 32,
        start <= 32 - width,
    ensures
        (raw >> start) & (0xffff_ffffu32 >> ((32 - width) as u32)) <= 0xffff_ffffu32 >> ((32
            - width) as u32),
        value <= 0xffff_ffffu32 >> ((32 - width) as u32) ==> value & (0xffff_ffffu32 >> ((32
            - width) as u32)) == value,
{
}

proof fn lemma_replace_field(raw: u32, start: u32, width: u32, value: u32)
    by (bit_vector)
    requires
        1 <= width <= 32,
        start <= 32 - width,
    ensures
        ((((raw & !((0xffff_ffffu32 >> ((32 - width) as u32)) << start)) | ((value & (
        0xffff_ffffu32 >> ((32 - width) as u32))) << start)) >> start) & (0xffff_ffffu32 >> ((32
            - width) as u32))) == value & (0xffff_ffffu32 >> ((32 - width) as u32)),
        ((raw & !((0xffff_ffffu32 >> ((32 - width) as u32)) << start)) | ((value & (0xffff_ffffu32
            >> ((32 - width) as u32))) << start)) & !((0xffff_ffffu32 >> ((32 - width) as u32))
            << start) == raw & !((0xffff_ffffu32 >> ((32 - width) as u32)) << start),
{
}

/// Reads the `width` bits of `raw` that start at bit `start`.
pub fn get_field(raw: u32, start: u32, width: u32) -> (r: u32)
    requires
        field_fits(start, width),
    ensures
        r == field(raw, start, width),
        r <= low_mask(width),
        width == 1 ==> r <= 1,
        width == 2 ==> r <= 3,
        width == 3 ==> r <= 7,
        width == 4 ==> r <= 0xf,
        width == 7 ==> r <= 0x7f,
        width == 8 ==> r <= 0xff,
{
    proof {
        lemma_field_bound(raw, start, width, 0);
        lemma_low_masks();
    }
    (raw >> start) & (0xffff_ffffu32 >> (32 - width))
}

/// `raw` with its `width` bits at `start` replaced by the low `width` bits of `value`;
/// every other bit is kept.
pub fn set_field(raw: u32, start: u32, width: u32, value: u32) -> (r: u32)
    requires
        field_fits(start, width),
    ensures
        field(r, start, width) == value & low_mask(width),
        same_outside(r, raw, start, width),
        value <= low_mask(width) ==> field(r, start, width) == value,
        width == 1 ==> field(r, start, width) == value & 1,
        width == 1 && value <= 1 ==> field(r, start, width) == value,
        width == 8 && value <= 0xff ==> field(r, start, width) == value,
        width == 2 ==> field(r, start, width) == value & 3,
        width == 3 ==> field(r, start, width) == value & 7,
        width == 4 ==> field(r, start, width) == value & 0xf,
        width == 7 ==> field(r, start, width) == value & 0x7f,
        width == 8 ==> field(r, start, width) == value & 0xff,
        width == 32 ==> field(r, start, width) == value,
{
    proof {
        lemma_replace_field(raw, start, width, value);
        lemma_field_bound(raw, start, width, value);
        lemma_low_masks();
    }
    let mask = 0xffff_ffffu32 >> (32 - width);
    (raw & !(mask << start)) | ((value & mask) << start)
}

} // verus!
