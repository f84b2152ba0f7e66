use vstd::prelude::*;

verus! {

/// A displayed item's hit region: its top-left corner and its size.
#[derive(Clone, Copy, Debug, PartialEq, Eq, Structural)]
pub struct Region {
    pub x: i32,
    pub y: i32,
    pub w: u32,
    pub h: u32,
}

/// Whether the point (`px`, `py`) lies in `r`: left and top edges included,
/// right and bottom edges excluded.
pub open spec fn region_contains(r: Region, px: int, py: int) -> bool {
    &&& r.x <= px < r.x + r.w
    &&& r.y <= py < r.y + r.h
}

/// The first region, in display order, that holds the point (`px`, `py`);
/// the regions after it are not looked at.
pub fn first_hit(regions: &Vec<Region>, px: i32, py: i32) -> (r: Option<usize>)
    ensures
        match r {
            Some(i) => i < regions@.len() && region_contains(regions@[i as int], px as int, py as int)
                && forall|j: int| 0 <= j < i ==> !region_contains(#[trigger] regions@[j], px as int, py as int),
            None => forall|j: int|
                0 <= j < regions@.len() ==> !region_contains(#[trigger] regions@[j], px as int, py as int),
        },
{
    let mut i: usize = 0;
    while i < regions.len()
        invariant
            i <= regions@.len(),
            forall|j: int| 0 <= j < i ==> !region_contains(#[trigger] regions@[j], px as int, py as int),
        decreases regions.len() - i,
    {
        let g = regions[i];
        let inside_x = g.x as i64 <= px as i64 && (px as i64) < g.x as i64 + g.w as i64;
        let inside_y = g.y as i64 <= py as i64 && (py as i64) < g.y as i64 + g.h as i64;
        if inside_x && inside_y {
            return Some(i);
        }
        i += 1;
    }
    None
}

} // verus!
