//! Charge/discharge supervisory engine.
//!
//! Once per charger cycle, after the newest protection-monitor snapshot
//! arrives, the engine fuses the monitor's FET state and fault latches
//! into two permission booleans and turns them into register writes: the
//! charge-inhibit bit of charge option 0, the boost-enable bit of charge
//! option 3, and the charge setpoints that are re-asserted while charging
//! is permitted. A half-cycle whose register read failed is skipped, so
//! no write is ever derived from an unknown prior register state.

use vstd::prelude::*;

use crate::flags::{
    CHARGE_OPTION0_LSB_CHRG_INHIBIT, CHARGE_OPTION0_LSB_IADPT_GAIN, CHARGE_OPTION0_MSB_EN_LWPWR,
    CHARGE_OPTION3_MSB_EN_OTG, MosStatus, SystemStatus,
};

verus! {

/// Charge voltage re-asserted every permitted cycle, in millivolts.
pub const DEFAULT_CHARGE_VOLTAGE_MV: u16 = 18000;

/// Charge current re-asserted every permitted cycle, in milliamps.
pub const DEFAULT_CHARGE_CURRENT_MA: u16 = 512;

/// Charging is safe while the cell-overvoltage latch is clear.
pub open spec fn spec_charge_safe(status: SystemStatus) -> bool {
    !status.spec_ov()
}

/// Discharging is safe while the undervoltage, short-circuit and
/// overcurrent latches are all clear.
pub open spec fn spec_discharge_safe(status: SystemStatus) -> bool {
    !status.spec_uv() && !status.spec_scd() && !status.spec_ocd()
}

/// Charging is allowed only when the monitor drives the charge FET and
/// charging is safe.
pub open spec fn spec_charge_permission(mos: MosStatus, status: SystemStatus) -> bool {
    mos.spec_chg_on() && spec_charge_safe(status)
}

/// Discharging is allowed only when the monitor drives the discharge FET
/// and discharging is safe.
pub open spec fn spec_discharge_permission(mos: MosStatus, status: SystemStatus) -> bool {
    mos.spec_dsg_on() && spec_discharge_safe(status)
}

pub fn charge_safe(status: &SystemStatus) -> (r: bool)
    ensures
        r == spec_charge_safe(*status),
{
    !status.ov()
}

pub fn discharge_safe(status: &SystemStatus) -> (r: bool)
    ensures
        r == spec_discharge_safe(*status),
{
    !status.uv() && !status.scd() && !status.ocd()
}

pub fn charge_permission(mos: &MosStatus, status: &SystemStatus) -> (r: bool)
    ensures
        r == spec_charge_permission(*mos, *status),
{
    mos.chg_on() && charge_safe(status)
}

pub fn discharge_permission(mos: &MosStatus, status: &SystemStatus) -> (r: bool)
    ensures
        r == spec_discharge_permission(*mos, *status),
{
    mos.dsg_on() && discharge_safe(status)
}

/// The permission booleans match their fusion formulas on every
/// combination of FET-state and fault-latch inputs: charge permission is
/// exactly charge-FET-on and no cell overvoltage; discharge permission is
/// exactly discharge-FET-on and none of undervoltage, short circuit,
/// overcurrent.
pub proof fn lemma_permission_fusion(mos: MosStatus, status: SystemStatus)
    ensures
        spec_charge_permission(mos, status) == (mos.spec_chg_on() && !status.spec_ov()),
        spec_discharge_permission(mos, status) == (mos.spec_dsg_on() && !status.spec_uv()
            && !status.spec_scd() && !status.spec_ocd()),
{
}

/// The value written back to charge option 0, given the value just read:
/// low-power mode is removed, the adapter-current gain is selected, and
/// the charge-inhibit bit follows the permission (cleared when charging
/// is permitted, set when it is not).
pub open spec fn spec_charge_option0_update(lsb: u8, msb: u8, permit_charge: bool) -> (u8, u8) {
    (
        if permit_charge {
            (lsb | CHARGE_OPTION0_LSB_IADPT_GAIN) & !CHARGE_OPTION0_LSB_CHRG_INHIBIT
        } else {
            (lsb | CHARGE_OPTION0_LSB_IADPT_GAIN) | CHARGE_OPTION0_LSB_CHRG_INHIBIT
        },
        msb & !CHARGE_OPTION0_MSB_EN_LWPWR,
    )
}

pub fn charge_option0_update(lsb: u8, msb: u8, permit_charge: bool) -> (r: (u8, u8))
    ensures
        r == spec_charge_option0_update(lsb, msb, permit_charge),
{
    let gained = lsb | CHARGE_OPTION0_LSB_IADPT_GAIN;
    let new_lsb = if permit_charge {
        gained & !CHARGE_OPTION0_LSB_CHRG_INHIBIT
    } else {
        gained | CHARGE_OPTION0_LSB_CHRG_INHIBIT
    };
    (new_lsb, msb & !CHARGE_OPTION0_MSB_EN_LWPWR)
}

/// The value written back to the charge option 3 high byte: the
/// boost-enable bit follows the discharge permission, all other bits are
/// left as read.
pub open spec fn spec_boost_enable_update(msb: u8, permit_discharge: bool) -> u8 {
    if permit_discharge {
        msb | CHARGE_OPTION3_MSB_EN_OTG
    } else {
        msb & !CHARGE_OPTION3_MSB_EN_OTG
    }
}

pub fn boost_enable_update(msb: u8, permit_discharge: bool) -> (r: u8)
    ensures
        r == spec_boost_enable_update(msb, permit_discharge),
{
    if permit_discharge {
        msb | CHARGE_OPTION3_MSB_EN_OTG
    } else {
        msb & !CHARGE_OPTION3_MSB_EN_OTG
    }
}

/// Re-asserting a control register with an unchanged permission is
/// idempotent: writing the updated value through the update again gives
/// the same value, so the write may be repeated every cycle without
/// toggling or drift.
pub proof fn lemma_register_update_idempotent(lsb: u8, msb: u8, charge: bool, discharge: bool)
    ensures
        spec_charge_option0_update(
            spec_charge_option0_update(lsb, msb, charge).0,
            spec_charge_option0_update(lsb, msb, charge).1,
            charge,
        ) == spec_charge_option0_update(lsb, msb, charge),
        spec_boost_enable_update(spec_boost_enable_update(msb, discharge), discharge)
            == spec_boost_enable_update(msb, discharge),
{
    let g: u8 = CHARGE_OPTION0_LSB_IADPT_GAIN;
    let c: u8 = CHARGE_OPTION0_LSB_CHRG_INHIBIT;
    let w: u8 = CHARGE_OPTION0_MSB_EN_LWPWR;
    let o: u8 = CHARGE_OPTION3_MSB_EN_OTG;
    assert((((lsb | g) & !c) | g) & !c == (lsb | g) & !c) by (bit_vector);
    assert((((lsb | g) | c) | g) | c == (lsb | g) | c) by (bit_vector);
    assert((msb & !w) & !w == msb & !w) by (bit_vector);
    assert((msb | o) | o == msb | o) by (bit_vector);
    assert((msb & !o) & !o == msb & !o) by (bit_vector);
}

/// Charge voltage and current setpoints, in physical units.
#[derive(Clone, Copy, Debug, PartialEq, Eq, Structural)]
pub struct ChargeSetpoints {
    pub voltage_mv: u16,
    pub current_ma: u16,
}

/// The setpoints to re-assert this cycle: the configured defaults while
/// charging is permitted, nothing while it is not.
pub open spec fn spec_setpoint_reassertion(permit_charge: bool) -> Option<ChargeSetpoints> {
    if permit_charge {
        Some(
            ChargeSetpoints {
                voltage_mv: DEFAULT_CHARGE_VOLTAGE_MV,
                current_ma: DEFAULT_CHARGE_CURRENT_MA,
            },
        )
    } else {
        None
    }
}

pub fn setpoint_reassertion(permit_charge: bool) -> (r: Option<ChargeSetpoints>)
    ensures
        r == spec_setpoint_reassertion(permit_charge),
{
    if permit_charge {
        Some(
            ChargeSetpoints {
                voltage_mv: DEFAULT_CHARGE_VOLTAGE_MV,
                current_ma: DEFAULT_CHARGE_CURRENT_MA,
            },
        )
    } else {
        None
    }
}

/// Every register write one supervisory cycle commits to, derived from
/// the monitor snapshot and the registers read this cycle. A `None`
/// write means that half-cycle is skipped because its read failed.
#[derive(Clone, Copy, Debug, PartialEq)]
pub struct SupervisorPlan {
    pub final_charge_permission: bool,
    pub final_discharge_permission: bool,
    pub charge_option0_write: Option<(u8, u8)>,
    pub boost_msb_write: Option<u8>,
    pub setpoints: Option<ChargeSetpoints>,
}

/// Decide one supervisory cycle.
///
/// `charge_option0` and `boost_msb` carry the registers as read this
/// cycle, `None` where the read failed. The plan's permissions follow the
/// fusion formulas; each write is present exactly when its read
/// succeeded and then re-encodes the read value under the permission;
/// setpoints are present exactly when charging is permitted.
pub fn supervise_cycle(
    mos: &MosStatus,
    status: &SystemStatus,
    charge_option0: Option<(u8, u8)>,
    boost_msb: Option<u8>,
) -> (p: SupervisorPlan)
    ensures
        p.final_charge_permission == spec_charge_permission(*mos, *status),
        p.final_discharge_permission == spec_discharge_permission(*mos, *status),
        p.charge_option0_write == match charge_option0 {
            Some((lsb, msb)) => Some(
                spec_charge_option0_update(lsb, msb, spec_charge_permission(*mos, *status)),
            ),
            None => None::<(u8, u8)>,
        },
        p.boost_msb_write == match boost_msb {
            Some(msb) => Some(
                spec_boost_enable_update(msb, spec_discharge_permission(*mos, *status)),
            ),
            None => None::<u8>,
        },
        p.setpoints == spec_setpoint_reassertion(spec_charge_permission(*mos, *status)),
{
    let permit_charge = charge_permission(mos, status);
    let permit_discharge = discharge_permission(mos, status);
    let charge_option0_write = match charge_option0 {
        Some((lsb, msb)) => Some(charge_option0_update(lsb, msb, permit_charge)),
        None => None,
    };
    let boost_msb_write = match boost_msb {
        Some(msb) => Some(boost_enable_update(msb, permit_discharge)),
        None => None,
    };
    SupervisorPlan {
        final_charge_permission: permit_charge,
        final_discharge_permission: permit_discharge,
        charge_option0_write,
        boost_msb_write,
        setpoints: setpoint_reassertion(permit_charge),
    }
}

} // verus!
