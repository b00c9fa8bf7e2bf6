//! Cell-balancing selection.
//!
//! Once an hour the monitor task bleeds the cells that sit measurably
//! above the pack average. This module picks those cells: a cell's
//! balance bit is set exactly when its voltage exceeds the average of
//! all five cells by more than the fixed threshold.

use vstd::prelude::*;

verus! {

/// How far above the pack average, in millivolts, a cell must sit to be
/// selected for balancing.
pub const BALANCE_THRESHOLD_MV: i64 = 50;

// Balance-control register bits, one per cell.
pub const CELLBAL_BAL1: u8 = 0x01;
pub const CELLBAL_BAL2: u8 = 0x02;
pub const CELLBAL_BAL3: u8 = 0x04;
pub const CELLBAL_BAL4: u8 = 0x08;
pub const CELLBAL_BAL5: u8 = 0x10;

/// Average of the five cell voltages, rounded toward zero.
pub open spec fn spec_balance_average(cells: [i32; 5]) -> int {
    (cells@[0] + cells@[1] + cells@[2] + cells@[3] + cells@[4]) / 5
}

/// Whether cell `i` is selected for balancing.
pub open spec fn spec_cell_needs_balancing(cells: [i32; 5], i: int) -> bool {
    cells@[i] > spec_balance_average(cells) + BALANCE_THRESHOLD_MV
}

/// The balance-control register image: bit `i` set exactly when cell `i`
/// needs balancing.
pub open spec fn spec_balance_flags(cells: [i32; 5]) -> u8 {
    ((if spec_cell_needs_balancing(cells, 0) {
        1int
    } else {
        0int
    }) + (if spec_cell_needs_balancing(cells, 1) {
        2int
    } else {
        0int
    }) + (if spec_cell_needs_balancing(cells, 2) {
        4int
    } else {
        0int
    }) + (if spec_cell_needs_balancing(cells, 3) {
        8int
    } else {
        0int
    }) + (if spec_cell_needs_balancing(cells, 4) {
        16int
    } else {
        0int
    })) as u8
}

/// Select the cells to balance this hour. Voltages are millivolt
/// readings from the monitor and are never negative.
pub fn balance_flags(cells: &[i32; 5]) -> (r: u8)
    requires
        forall|i: int| 0 <= i < 5 ==> cells@[i] >= 0,
    ensures
        r == spec_balance_flags(*cells),
{
    let total: i64 = cells[0] as i64 + cells[1] as i64 + cells[2] as i64 + cells[3] as i64
        + cells[4] as i64;
    let average: i64 = total / 5;
    let mut r: u8 = 0;
    if cells[0] as i64 > average + BALANCE_THRESHOLD_MV {
        r = r + 1;
    }
    if cells[1] as i64 > average + BALANCE_THRESHOLD_MV {
        r = r + 2;
    }
    if cells[2] as i64 > average + BALANCE_THRESHOLD_MV {
        r = r + 4;
    }
    if cells[3] as i64 > average + BALANCE_THRESHOLD_MV {
        r = r + 8;
    }
    if cells[4] as i64 > average + BALANCE_THRESHOLD_MV {
        r = r + 16;
    }
    r
}

} // verus!
