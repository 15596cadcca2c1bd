//! Layout engine for a financial time-series chart: the parts of it that work
//! on whole numbers and orders.
use vstd::prelude::*;
use vstd::string::StringExecFns;

pub mod bars;
pub mod grid;
pub mod ieee;
pub mod label;
pub mod order;

pub use bars::{bar_colors, BarColor};
pub use grid::{grid_levels, time_grid_levels, GridLevel, GRID_STEPS};
pub use ieee::order_key;
pub use label::{date_label, decimal_string};
pub use order::{line_order, time_order};

verus! {

/// Sum of two 32-bit integers.
pub fn add(a: i32, b: i32) -> (r: i32)
    requires
        i32::MIN <= a + b <= i32::MAX,
    ensures
        r == a + b,
{
    a + b
}

/// A greeting for `name`.
pub fn greet(name: &str) -> (r: String)
    ensures
        r@ == "Hello "@ + name@ + " from Rust WASM!"@,
{
    let mut s = String::from_str("Hello ");
    s.append(name);
    s.append(" from Rust WASM!");
    s
}

} // verus!
