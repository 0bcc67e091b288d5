//! The layout of a class's metadata record and of its field table, as the
//! target keeps them: where the declared number of fields stands, where the
//! pointer to the field table stands, and how far apart the field records
//! lie. Addresses are counted in an address space as wide as a pointer.

use vstd::prelude::*;

verus! {

/// Where, in a class record, the two-byte number of declared fields stands.
pub const FIELD_COUNT_OFFSET: usize = 0x1C;

/// Where, in a class record, the pointer to the field table stands.
pub const FIELD_TABLE_OFFSET: usize = 0x28;

/// The distance in bytes from one field record to the next.
pub const FIELD_STRIDE: usize = 0x20;

/// The address that `position` names in an address space as wide as a
/// pointer: positions past the last address start again at zero.
pub open spec fn wrap(position: int) -> usize {
    (position % (usize::MAX + 1)) as usize
}

/// The address of the field count of the class record at `class`.
pub open spec fn count_address(class: usize) -> usize {
    wrap(class + FIELD_COUNT_OFFSET)
}

/// The address of the field-table pointer of the class record at `class`.
pub open spec fn table_pointer_address(class: usize) -> usize {
    wrap(class + FIELD_TABLE_OFFSET)
}

/// The address of record number `index` of the field table at `table`.
pub open spec fn field_address(table: usize, index: int) -> usize {
    wrap(table + index * FIELD_STRIDE)
}

/// The address `distance` bytes past `base`.
pub fn offset_address(base: usize, distance: usize) -> (address: usize)
    ensures
        address == wrap(base + distance),
{
    proof {
        let width = usize::MAX + 1;
        if base + distance < width {
            vstd::arithmetic::div_mod::lemma_small_mod((base + distance) as nat, width as nat);
        } else {
            vstd::arithmetic::div_mod::lemma_small_mod(
                (base + distance - width) as nat,
                width as nat,
            );
            vstd::arithmetic::div_mod::lemma_mod_sub_multiples_vanish(base + distance, width);
        }
    }
    base.wrapping_add(distance)
}

/// The address of record number `index` of the field table at `table`.
pub fn nth_field_address(table: usize, index: u16) -> (address: usize)
    ensures
        address == field_address(table, index as int),
{
    assert(index * FIELD_STRIDE <= 0xFFFF * 0x20);
    offset_address(table, index as usize * FIELD_STRIDE)
}

/// A position inside the address space is its own address.
pub proof fn lemma_wrap_inside(position: int)
    requires
        0 <= position <= usize::MAX,
    ensures
        wrap(position) == position,
{
    vstd::arithmetic::div_mod::lemma_small_mod(position as nat, (usize::MAX + 1) as nat);
}

/// The records of a table stand apart: no two of the indices that a count
/// can reach name one address.
pub proof fn lemma_records_apart(table: usize, i: int, j: int)
    requires
        0 <= i < j <= u16::MAX,
    ensures
        field_address(table, i) != field_address(table, j),
{
    let width = usize::MAX + 1;
    let low = table + i * FIELD_STRIDE;
    let high = table + j * FIELD_STRIDE;
    vstd::arithmetic::div_mod::lemma_mod_pos_bound(low, width);
    vstd::arithmetic::div_mod::lemma_mod_pos_bound(high, width);
    vstd::arithmetic::div_mod::lemma_mod_equivalence(high, low, width);
    vstd::arithmetic::div_mod::lemma_small_mod((high - low) as nat, width as nat);
}

} // verus!
