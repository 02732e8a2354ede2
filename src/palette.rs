use vstd::prelude::*;

use crate::primitives::{pack_rgba, packed, RGBA};

verus! {

/// The number of colors that the palette uniform holds.
pub const PALETTE_SLOTS: usize = 256;

/// The packed palette uniform: the packed colors in order, then zeros up to
/// `PALETTE_SLOTS` words.
pub open spec fn palette_slots(palette: Seq<RGBA>) -> Seq<u32> {
    Seq::new(PALETTE_SLOTS as nat, |i: int| if i < palette.len() { packed(palette[i]) } else { 0u32 })
}

/// Packs a palette of at most `PALETTE_SLOTS` colors into the fixed-size uniform array.
pub fn pack_palette(palette: &Vec<RGBA>) -> (r: Vec<u32>)
    requires
        palette@.len() <= PALETTE_SLOTS,
    ensures
        r@ == palette_slots(palette@),
        r@.len() == PALETTE_SLOTS,
        forall|i: int| 0 <= i < palette@.len() ==> r@[i] == packed(#[trigger] palette@[i]),
        forall|i: int| palette@.len() <= i < PALETTE_SLOTS ==> r@[i] == 0,
{
    let mut r: Vec<u32> = Vec::new();
    let mut i: usize = 0;
    while i < PALETTE_SLOTS
        invariant
            i <= PALETTE_SLOTS,
            palette@.len() <= PALETTE_SLOTS,
            r@.len() == i,
            forall|j: int| 0 <= j < i ==> r@[j] == palette_slots(palette@)[j],
        decreases PALETTE_SLOTS - i,
    {
        if i < palette.len() {
            r.push(pack_rgba(&palette[i]));
        } else {
            r.push(0);
        }
        i += 1;
    }
    assert(r@ =~= palette_slots(palette@));
    r
}

} // verus!
