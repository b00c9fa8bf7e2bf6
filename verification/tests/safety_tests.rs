use ups_core::flags::{
    CHARGER_FAULT_ACOV, CHARGER_FAULT_OTG_UVP, CHARGER_FAULT_SYSOVP,
};
use ups_core::recovery::{
    should_attempt_sysovp_clear, sysovp_clear_write, SYSOVP_CLEAR_MARGIN_MV,
};
use ups_core::safety_config::{
    verify_readback, FetGate, ProtectionConfig, RegisterCheck, VerifyOutcome, REG_OV_TRIP,
    REG_UV_TRIP,
};

fn image() -> Vec<RegisterCheck> {
    vec![
        RegisterCheck { register: REG_OV_TRIP, expected: 0xAA },
        RegisterCheck { register: REG_UV_TRIP, expected: 0x55 },
        RegisterCheck { register: 0x06, expected: 0x9D },
    ]
}

#[test]
fn verify_readback_accepts_matching_image() {
    let readbacks = vec![Some(0xAA), Some(0x55), Some(0x9D)];
    assert_eq!(verify_readback(&image(), &readbacks), VerifyOutcome::Verified);
}

#[test]
fn verify_readback_reports_first_mismatch() {
    let readbacks = vec![Some(0xAA), Some(0x54), Some(0x00)];
    assert_eq!(
        verify_readback(&image(), &readbacks),
        VerifyOutcome::VerificationFailed { register: REG_UV_TRIP, expected: 0x55, actual: 0x54 }
    );
}

#[test]
fn verify_readback_reports_bus_error() {
    let readbacks = vec![Some(0xAA), None, Some(0x9D)];
    assert_eq!(verify_readback(&image(), &readbacks), VerifyOutcome::CommunicationFailed);
}

#[test]
fn verify_readback_bus_error_before_mismatch_wins() {
    let readbacks = vec![None, Some(0x54), Some(0x9D)];
    assert_eq!(verify_readback(&image(), &readbacks), VerifyOutcome::CommunicationFailed);
}

#[test]
fn empty_image_verifies() {
    assert_eq!(verify_readback(&vec![], &vec![]), VerifyOutcome::Verified);
}

#[test]
fn fet_gate_opens_only_on_verified() {
    let mut gate = FetGate::new();
    assert!(!gate.may_enable_fets());

    gate.record_outcome(&VerifyOutcome::Verified);
    assert!(gate.may_enable_fets());
    gate.command_charge_fet();
    gate.command_discharge_fet();
    assert!(gate.charge_fet_commanded());
    assert!(gate.discharge_fet_commanded());
}

#[test]
fn fet_gate_stays_closed_on_failure() {
    let mut gate = FetGate::new();
    gate.record_outcome(&VerifyOutcome::VerificationFailed {
        register: REG_OV_TRIP,
        expected: 0xAA,
        actual: 0xAB,
    });
    assert!(!gate.may_enable_fets());
    assert!(!gate.charge_fet_commanded());
    assert!(!gate.discharge_fet_commanded());

    gate.record_outcome(&VerifyOutcome::CommunicationFailed);
    assert!(!gate.may_enable_fets());
    assert!(!gate.charge_fet_commanded());
    assert!(!gate.discharge_fet_commanded());
}

#[test]
fn fet_gate_recording_withdraws_commands() {
    let mut gate = FetGate::new();
    gate.record_outcome(&VerifyOutcome::Verified);
    gate.command_charge_fet();
    gate.record_outcome(&VerifyOutcome::CommunicationFailed);
    assert!(!gate.charge_fet_commanded());
    assert!(!gate.discharge_fet_commanded());
}

#[test]
fn protection_config_default_thresholds() {
    let cfg = ProtectionConfig::default();
    assert_eq!(cfg.overvoltage_trip_mv, 3600);
    assert_eq!(cfg.undervoltage_trip_mv, 2500);
    assert_eq!(cfg.ocd_limit_ma, 10000);
    assert_eq!(cfg.rsense_m_ohm, 3);
}

#[test]
fn sysovp_guard_boundary_inclusive() {
    // At the margin exactly, a clear is attempted.
    assert!(should_attempt_sysovp_clear(true, Some(19500)));
    // One millivolt above, it is not.
    assert!(!should_attempt_sysovp_clear(true, Some(19501)));
    // Without a reading, it is not, fault bit notwithstanding.
    assert!(!should_attempt_sysovp_clear(true, None));
    // Without the fault there is nothing to clear.
    assert!(!should_attempt_sysovp_clear(false, Some(100)));
    assert_eq!(SYSOVP_CLEAR_MARGIN_MV, 19500);
}

#[test]
fn sysovp_clear_preserves_unrelated_bits() {
    // Fault register with the system-overvoltage latch and one unrelated
    // fault both set: after the guarded clear the latch is 0 and the
    // unrelated bit is still 1.
    let fault = CHARGER_FAULT_SYSOVP | CHARGER_FAULT_ACOV;
    let written = sysovp_clear_write(fault).unwrap();
    assert_eq!(written & CHARGER_FAULT_SYSOVP, 0);
    assert_ne!(written & CHARGER_FAULT_ACOV, 0);
    assert_eq!(written, CHARGER_FAULT_ACOV);

    let fault2 = CHARGER_FAULT_SYSOVP | CHARGER_FAULT_OTG_UVP;
    let written2 = sysovp_clear_write(fault2).unwrap();
    assert_eq!(written2, CHARGER_FAULT_OTG_UVP);
}

#[test]
fn sysovp_clear_skipped_when_already_clear() {
    // The re-read shows the latch already clear: no write is issued.
    assert_eq!(sysovp_clear_write(CHARGER_FAULT_ACOV), None);
    assert_eq!(sysovp_clear_write(0x00), None);
}
