//! Gridline levels.
//!
//! Both axes divide their range into `GRID_STEPS` equal parts and draw a line
//! at each of the `GRID_STEPS + 1` boundaries; every fifth boundary is major.
use vstd::prelude::*;

verus! {

/// Number of equal parts that a grid divides its range into.
pub const GRID_STEPS: u32 = 10;

/// One gridline: at `step / GRID_STEPS` of the way across the range.
#[derive(Clone, Copy, Debug, PartialEq, Eq, Structural)]
pub struct GridLevel {
    pub step: u32,
    pub major: bool,
}

pub open spec fn is_major_step(step: int) -> bool {
    step % 5 == 0
}

/// `levels` holds one gridline for each step from 0 to `GRID_STEPS`, in order.
pub open spec fn is_full_grid(levels: Seq<GridLevel>) -> bool {
    &&& levels.len() == GRID_STEPS + 1
    &&& forall|i: int|
        0 <= i < levels.len() ==> (#[trigger] levels[i]).step == i && levels[i].major
            == is_major_step(i)
}

/// The gridlines of the price axis: always the full grid, also when no
/// sample is stored.
pub fn grid_levels() -> (levels: Vec<GridLevel>)
    ensures
        is_full_grid(levels@),
{
    let mut levels: Vec<GridLevel> = Vec::new();
    let mut step: u32 = 0;
    while step <= GRID_STEPS
        invariant
            step <= GRID_STEPS + 1,
            levels@.len() == step,
            forall|i: int|
                0 <= i < step ==> (#[trigger] levels@[i]).step == i && levels@[i].major
                    == is_major_step(i),
        decreases GRID_STEPS + 1 - step,
    {
        levels.push(GridLevel { step, major: step % 5 == 0 });
        step = step + 1;
    }
    levels
}

/// The gridlines of the time axis: none when fewer than two samples are
/// stored, else the full grid.
pub fn time_grid_levels(sample_count: usize) -> (levels: Vec<GridLevel>)
    ensures
        sample_count < 2 ==> levels@.len() == 0,
        sample_count >= 2 ==> is_full_grid(levels@),
{
    if sample_count < 2 {
        Vec::new()
    } else {
        grid_levels()
    }
}

} // verus!
