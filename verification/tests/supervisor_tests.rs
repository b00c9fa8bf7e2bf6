use ups_core::flags::{
    MosStatus, SystemStatus, CHARGE_OPTION0_LSB_CHRG_INHIBIT, CHARGE_OPTION0_LSB_IADPT_GAIN,
    CHARGE_OPTION0_MSB_EN_LWPWR, CHARGE_OPTION3_MSB_EN_OTG, SYS_CTRL2_CHG_ON, SYS_CTRL2_DSG_ON,
    SYS_STAT_OCD, SYS_STAT_OV, SYS_STAT_SCD, SYS_STAT_UV,
};
use ups_core::supervisor::{
    boost_enable_update, charge_option0_update, charge_permission, discharge_permission,
    setpoint_reassertion, supervise_cycle, ChargeSetpoints, DEFAULT_CHARGE_CURRENT_MA,
    DEFAULT_CHARGE_VOLTAGE_MV,
};

fn mos(chg: bool, dsg: bool) -> MosStatus {
    let mut bits = 0u8;
    if chg {
        bits |= SYS_CTRL2_CHG_ON;
    }
    if dsg {
        bits |= SYS_CTRL2_DSG_ON;
    }
    MosStatus::new(bits)
}

fn stat(ov: bool, uv: bool, scd: bool, ocd: bool) -> SystemStatus {
    let mut bits = 0u8;
    if ov {
        bits |= SYS_STAT_OV;
    }
    if uv {
        bits |= SYS_STAT_UV;
    }
    if scd {
        bits |= SYS_STAT_SCD;
    }
    if ocd {
        bits |= SYS_STAT_OCD;
    }
    SystemStatus::new(bits)
}

#[test]
fn permission_fusion_truth_table() {
    for &chg in &[false, true] {
        for &dsg in &[false, true] {
            for &ov in &[false, true] {
                for &uv in &[false, true] {
                    for &scd in &[false, true] {
                        for &ocd in &[false, true] {
                            let m = mos(chg, dsg);
                            let s = stat(ov, uv, scd, ocd);
                            assert_eq!(charge_permission(&m, &s), chg && !ov);
                            assert_eq!(
                                discharge_permission(&m, &s),
                                dsg && !(uv || scd || ocd)
                            );
                        }
                    }
                }
            }
        }
    }
}

#[test]
fn charge_option0_update_sets_inhibit_when_not_permitted() {
    let (lsb, msb) = charge_option0_update(0x00, 0xFF, false);
    assert_ne!(lsb & CHARGE_OPTION0_LSB_CHRG_INHIBIT, 0);
    assert_ne!(lsb & CHARGE_OPTION0_LSB_IADPT_GAIN, 0);
    assert_eq!(msb & CHARGE_OPTION0_MSB_EN_LWPWR, 0);
    assert_eq!(msb, 0xFF & !CHARGE_OPTION0_MSB_EN_LWPWR);
}

#[test]
fn charge_option0_update_clears_inhibit_when_permitted() {
    let (lsb, msb) = charge_option0_update(0xFF, 0x00, true);
    assert_eq!(lsb & CHARGE_OPTION0_LSB_CHRG_INHIBIT, 0);
    assert_ne!(lsb & CHARGE_OPTION0_LSB_IADPT_GAIN, 0);
    assert_eq!(lsb, (0xFF | CHARGE_OPTION0_LSB_IADPT_GAIN) & !CHARGE_OPTION0_LSB_CHRG_INHIBIT);
    assert_eq!(msb, 0x00);
}

#[test]
fn inhibit_write_idempotent() {
    for &permit in &[false, true] {
        for &lsb in &[0x00u8, 0xFF, 0x5A, CHARGE_OPTION0_LSB_CHRG_INHIBIT] {
            for &msb in &[0x00u8, 0xFF, 0xA5] {
                let once = charge_option0_update(lsb, msb, permit);
                let twice = charge_option0_update(once.0, once.1, permit);
                assert_eq!(once, twice);
            }
        }
    }
}

#[test]
fn boost_enable_update_follows_permission() {
    assert_eq!(boost_enable_update(0x00, true), CHARGE_OPTION3_MSB_EN_OTG);
    assert_eq!(boost_enable_update(0xFF, false), 0xFF & !CHARGE_OPTION3_MSB_EN_OTG);
    // Re-asserting with an unchanged permission never toggles the bit.
    let once = boost_enable_update(0x3C, true);
    assert_eq!(boost_enable_update(once, true), once);
    let off = boost_enable_update(0x3C, false);
    assert_eq!(boost_enable_update(off, false), off);
}

#[test]
fn setpoints_reasserted_only_while_permitted() {
    assert_eq!(
        setpoint_reassertion(true),
        Some(ChargeSetpoints {
            voltage_mv: DEFAULT_CHARGE_VOLTAGE_MV,
            current_ma: DEFAULT_CHARGE_CURRENT_MA,
        })
    );
    assert_eq!(setpoint_reassertion(false), None);
    assert_eq!(DEFAULT_CHARGE_VOLTAGE_MV, 18000);
    assert_eq!(DEFAULT_CHARGE_CURRENT_MA, 512);
}

#[test]
fn failed_register_read_skips_that_write() {
    let m = mos(true, true);
    let s = stat(false, false, false, false);
    let plan = supervise_cycle(&m, &s, None, None);
    assert!(plan.final_charge_permission);
    assert!(plan.final_discharge_permission);
    assert_eq!(plan.charge_option0_write, None);
    assert_eq!(plan.boost_msb_write, None);
    // Setpoints do not depend on the register reads.
    assert!(plan.setpoints.is_some());
}

#[test]
fn end_to_end_supervisory_cycle() {
    // Charge FET enabled, no fault latches, discharge FET disabled but
    // the undervoltage latch set: charging is permitted, discharging is
    // not, the inhibit bit is cleared, boost enable is cleared, and the
    // default setpoints are re-asserted.
    let m = mos(true, false);
    let s = stat(false, true, false, false);
    let plan = supervise_cycle(&m, &s, Some((0xFF, 0xFF)), Some(0xFF));
    assert!(plan.final_charge_permission);
    assert!(!plan.final_discharge_permission);
    let (lsb, msb) = plan.charge_option0_write.unwrap();
    assert_eq!(lsb & CHARGE_OPTION0_LSB_CHRG_INHIBIT, 0);
    assert_eq!(msb & CHARGE_OPTION0_MSB_EN_LWPWR, 0);
    let boost = plan.boost_msb_write.unwrap();
    assert_eq!(boost & CHARGE_OPTION3_MSB_EN_OTG, 0);
    assert_eq!(
        plan.setpoints,
        Some(ChargeSetpoints { voltage_mv: 18000, current_ma: 512 })
    );
}
