//! Box-drawing characters for panel borders.

use vstd::prelude::*;

verus! {

pub const TOP_LEFT: char = '┌';
pub const TOP_RIGHT: char = '┐';
pub const BOTTOM_LEFT: char = '└';
pub const BOTTOM_RIGHT: char = '┘';
pub const HORIZONTAL: char = '─';
pub const VERTICAL: char = '│';
pub const T_DOWN: char = '┬';
pub const T_UP: char = '┴';
pub const T_RIGHT: char = '├';
pub const T_LEFT: char = '┤';
pub const CROSS: char = '┼';

} // verus!
