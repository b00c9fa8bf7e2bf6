//! Guarded clear of the charger's system-overvoltage latch.
//!
//! The latch may only be cleared while the live system-voltage reading
//! is at or below a fixed margin; without a reading no clear is
//! attempted. Because the status register is shared and the latch is
//! cleared by writing its image back, the fault byte is re-read just
//! before the write and only the system-overvoltage bit is dropped from
//! that fresh value, so no other latch is disturbed.

use vstd::prelude::*;

use crate::flags::CHARGER_FAULT_SYSOVP;

verus! {

/// Highest system voltage, in millivolts, at which a clear of the
/// system-overvoltage latch may be attempted. The bound is inclusive.
pub const SYSOVP_CLEAR_MARGIN_MV: u16 = 19500;

/// A clear is attempted exactly when the latch is set and a live reading
/// at or below the margin is available.
pub open spec fn spec_should_attempt_sysovp_clear(fault_sysovp: bool, vsys_mv: Option<u16>) -> bool {
    &&& fault_sysovp
    &&& vsys_mv matches Some(v) && v <= SYSOVP_CLEAR_MARGIN_MV
}

/// Decide whether to attempt the clear this cycle. `vsys_mv` is the
/// current cycle's system-voltage reading, `None` when the read failed.
pub fn should_attempt_sysovp_clear(fault_sysovp: bool, vsys_mv: Option<u16>) -> (r: bool)
    ensures
        r == spec_should_attempt_sysovp_clear(fault_sysovp, vsys_mv),
{
    fault_sysovp && match vsys_mv {
        Some(v) => v <= SYSOVP_CLEAR_MARGIN_MV,
        None => false,
    }
}

/// The byte written back to the fault register: the re-read value with
/// only the system-overvoltage bit dropped.
pub open spec fn spec_sysovp_cleared_value(fault_lsb: u8) -> u8 {
    fault_lsb & !CHARGER_FAULT_SYSOVP
}

/// Compute the clearing write from the fault byte as re-read just before
/// the write. `Some` exactly when the latch is still set in the fresh
/// value; `None` when it is already clear and no write is owed.
pub fn sysovp_clear_write(fault_lsb: u8) -> (r: Option<u8>)
    ensures
        r is Some <==> fault_lsb & CHARGER_FAULT_SYSOVP != 0,
        r matches Some(v) ==> v == spec_sysovp_cleared_value(fault_lsb),
{
    if fault_lsb & CHARGER_FAULT_SYSOVP != 0 {
        Some(fault_lsb & !CHARGER_FAULT_SYSOVP)
    } else {
        None
    }
}

/// The clearing write disturbs nothing but the system-overvoltage latch:
/// in the written value that bit is zero, and every bit outside it keeps
/// the value the re-read fault byte had.
pub proof fn lemma_sysovp_clear_preserves_unrelated(fault_lsb: u8, mask: u8)
    requires
        mask & CHARGER_FAULT_SYSOVP == 0,
    ensures
        spec_sysovp_cleared_value(fault_lsb) & CHARGER_FAULT_SYSOVP == 0,
        spec_sysovp_cleared_value(fault_lsb) & mask == fault_lsb & mask,
{
    let s: u8 = CHARGER_FAULT_SYSOVP;
    assert((fault_lsb & !s) & s == 0) by (bit_vector);
    assert(mask & s == 0 ==> (fault_lsb & !s) & mask == fault_lsb & mask) by (bit_vector);
}

} // verus!
