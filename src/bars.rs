//! Colors of the volume bars.
//!
//! A price reaches this module as an order key (`Some`), an integer that
//! orders as the price does, or as `None` for a price that compares with
//! nothing, not even itself.
use vstd::prelude::*;

verus! {

/// Marker of a volume bar: the price held or rose (`Up`), or it fell (`Down`).
#[derive(Clone, Copy, Debug, PartialEq, Eq, Structural)]
pub enum BarColor {
    Up,
    Down,
}

impl BarColor {
    /// The fill that a renderer gives the bar: semi-transparent blue for
    /// `Up`, semi-transparent red for `Down`.
    pub fn css(&self) -> (r: &'static str)
        ensures
            *self == BarColor::Up ==> r@ == "rgba(33, 150, 243, 0.5)"@,
            *self == BarColor::Down ==> r@ == "rgba(244, 67, 54, 0.5)"@,
    {
        match self {
            BarColor::Up => "rgba(33, 150, 243, 0.5)",
            BarColor::Down => "rgba(244, 67, 54, 0.5)",
        }
    }
}

/// The bar at place `i` of the time order is `Up`: it is the first bar, or
/// its price is at least the price of the bar before it.
pub open spec fn holds_or_rises(prices: Seq<Option<u64>>, i: int) -> bool {
    i == 0 || (prices[i] is Some && prices[i - 1] is Some && prices[i]->0 >= prices[i - 1]->0)
}

pub open spec fn color_at(prices: Seq<Option<u64>>, i: int) -> BarColor {
    if holds_or_rises(prices, i) {
        BarColor::Up
    } else {
        BarColor::Down
    }
}

/// The colors of the volume bars, given the price keys of the samples in
/// time order.
pub fn bar_colors(prices: &Vec<Option<u64>>) -> (r: Vec<BarColor>)
    ensures
        r@.len() == prices@.len(),
        forall|i: int| 0 <= i < r@.len() ==> #[trigger] r@[i] == color_at(prices@, i),
{
    let mut r: Vec<BarColor> = Vec::new();
    let mut i: usize = 0;
    while i < prices.len()
        invariant
            i <= prices@.len(),
            r@.len() == i,
            forall|j: int| 0 <= j < i ==> #[trigger] r@[j] == color_at(prices@, j),
        decreases prices@.len() - i,
    {
        let up = if i == 0 {
            true
        } else {
            match (prices[i], prices[i - 1]) {
                (Some(p), Some(q)) => p >= q,
                _ => false,
            }
        };
        r.push(if up { BarColor::Up } else { BarColor::Down });
        i = i + 1;
    }
    r
}

} // verus!
