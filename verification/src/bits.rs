//! Bitfield arithmetic shared by every register type.
//!
//! A field is a group of contiguous bits inside a register byte, described by
//! its offset (the index of its lowest bit) and its mask (the field width in
//! ones, not yet shifted).  Reading a field shifts the byte down and masks;
//! writing a field clears the field's bits and ors the new code in, leaving
//! every other bit of the byte unchanged.

use vstd::prelude::*;

verus! {

/// The code held by the field at `off` with width mask `mask`.
pub open spec fn field_get(v: u8, off: u8, mask: u8) -> u8
    recommends
        off < 8,
{
    (v >> off) & mask
}

/// `v` with the field at `off`/`mask` replaced by the code `c`.
pub open spec fn field_set(v: u8, off: u8, mask: u8, c: u8) -> u8
    recommends
        off < 8,
        c & mask == c,
{
    (v & !(mask << off)) | ((c & mask) << off)
}

/// Read the field at `off`/`mask` out of the byte `v`.
pub(crate) fn read_field(v: u8, off: u8, mask: u8) -> (r: u8)
    requires
        off < 8,
    ensures
        r == field_get(v, off, mask),
{
    (v >> off) & mask
}

/// Replace the field at `off`/`mask` of the byte `v` by the code `c`.
pub(crate) fn write_field(v: u8, off: u8, mask: u8, c: u8) -> (r: u8)
    requires
        off < 8,
    ensures
        r == field_set(v, off, mask, c),
{
    (v & !(mask << off)) | ((c & mask) << off)
}

/// Whether the single-bit field at `off` is set in the byte `v`.
pub open spec fn flag_get(v: u8, off: u8) -> bool
    recommends
        off < 8,
{
    field_get(v, off, 1) == 1
}

/// The byte `v` with the single-bit field at `off` set to `on`.
pub open spec fn flag_set(v: u8, off: u8, on: bool) -> u8
    recommends
        off < 8,
{
    field_set(v, off, 1, if on {
        1
    } else {
        0
    })
}

/// Read the single-bit field at `off` out of the byte `v`.
pub(crate) fn read_flag(v: u8, off: u8) -> (r: bool)
    requires
        off < 8,
    ensures
        r == flag_get(v, off),
{
    read_field(v, off, 1) == 1
}

/// Replace the single-bit field at `off` of the byte `v` by `on`.
pub(crate) fn write_flag(v: u8, off: u8, on: bool) -> (r: u8)
    requires
        off < 8,
    ensures
        r == flag_set(v, off, on),
{
    write_field(v, off, 1, if on {
        1
    } else {
        0
    })
}

/// Setting a single-bit field and reading it back yields the value just
/// set, and every bit outside the field keeps its value.
pub proof fn lemma_flag_set_get(v: u8, off: u8, on: bool)
    requires
        off < 8,
    ensures
        flag_get(flag_set(v, off, on), off) == on,
        flag_set(v, off, on) & !(1u8 << off) == v & !(1u8 << off),
{
    let c: u8 = if on {
        1
    } else {
        0
    };
    assert(off < 8 ==> ((1u8 << off) >> off) == 1) by (bit_vector);
    assert((1u8 & 1) == 1 && (0u8 & 1) == 0) by (bit_vector);
    lemma_field_set_get(v, off, 1, c);
}

/// Setting one single-bit field leaves any other single-bit field unchanged.
pub proof fn lemma_flag_set_other(v: u8, off: u8, on: bool, off2: u8)
    requires
        off < 8,
        off2 < 8,
        off != off2,
    ensures
        flag_get(flag_set(v, off, on), off2) == flag_get(v, off2),
{
    let c: u8 = if on {
        1
    } else {
        0
    };
    assert((off < 8 && off2 < 8 && off != off2) ==> ((1u8 << off) & (1u8 << off2)) == 0)
        by (bit_vector);
    lemma_field_set_other(v, off, 1, c, off2, 1);
}

/// A field code never exceeds the field's mask.
pub proof fn lemma_field_get_bound(v: u8, off: u8, mask: u8)
    ensures
        field_get(v, off, mask) <= mask,
{
    assert(((v >> off) & mask) <= mask) by (bit_vector);
}

/// Writing a field and reading it back yields the code just written, and
/// every bit outside the field keeps its value.
pub proof fn lemma_field_set_get(v: u8, off: u8, mask: u8, c: u8)
    requires
        off < 8,
        c & mask == c,
        (mask << off) >> off == mask,
    ensures
        field_get(field_set(v, off, mask, c), off, mask) == c,
        field_set(v, off, mask, c) & !(mask << off) == v & !(mask << off),
{
    assert((off < 8 && (c & mask) == c && ((mask << off) >> off) == mask) ==> ((((v & !(mask
        << off)) | ((c & mask) << off)) >> off) & mask) == c) by (bit_vector);
    assert((((v & !(mask << off)) | ((c & mask) << off)) & !(mask << off)) == (v & !(mask
        << off))) by (bit_vector);
}

/// Writing one field leaves the code of any disjoint field unchanged.
pub proof fn lemma_field_set_other(v: u8, off: u8, mask: u8, c: u8, off2: u8, mask2: u8)
    requires
        (mask << off) & (mask2 << off2) == 0,
    ensures
        field_get(field_set(v, off, mask, c), off2, mask2) == field_get(v, off2, mask2),
{
    assert((((mask << off) & (mask2 << off2)) == 0) ==> ((((v & !(mask << off)) | ((c & mask)
        << off)) >> off2) & mask2) == ((v >> off2) & mask2)) by (bit_vector);
}

} // verus!
