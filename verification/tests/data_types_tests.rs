use ups_core::balance::{
    balance_flags, CELLBAL_BAL1, CELLBAL_BAL3, CELLBAL_BAL5,
};
use ups_core::data_types::{
    aggregate, AllMeasurements, Bq25730Alerts, Bq25730Measurements, Bq76920Alerts,
    Bq76920Measurements, Ina226Measurements, TemperatureData,
};
use ups_core::flags::{ChargerStatus, MosStatus, ProchotStatus, SystemStatus};
use ups_core::shared::{Bq25730RuntimeConfig, SenseResistorValue};

#[test]
fn defaults_are_all_zero() {
    let all: AllMeasurements<5> = AllMeasurements::default();
    assert_eq!(all.bq25730.adc_measurements.vbat_mv, 0);
    assert_eq!(all.bq25730.adc_measurements.vsys_mv, 0);
    assert_eq!(all.bq76920.core_measurements.cell_voltages, [0i32; 5]);
    assert_eq!(all.bq76920.core_measurements.current_ma, 0);
    assert_eq!(all.bq76920.core_measurements.temperatures.ts2, None);
    assert_eq!(all.ina226.voltage_mv, 0);
    assert_eq!(all.bq25730_alerts.charger_status.to_u16(), 0);
    assert_eq!(all.bq76920_alerts.system_status.0, 0);
}

#[test]
fn aggregate_substitutes_defaults_for_missing_producers() {
    let ina = Ina226Measurements { voltage_mv: 11900, current_ma: -120, power_mw: 1428 };
    let all = aggregate(&None, &Some(ina), &None, &None, &None);
    assert_eq!(all.ina226, ina);
    assert_eq!(all.bq25730, Bq25730Measurements::default());
    assert_eq!(all.bq76920, Bq76920Measurements::default());
    assert_eq!(all.bq25730_alerts, Bq25730Alerts::default());
    assert_eq!(all.bq76920_alerts, Bq76920Alerts::default());
}

#[test]
fn aggregate_keeps_latest_snapshots() {
    let mut bq76920: Bq76920Measurements<5> = Bq76920Measurements::default();
    bq76920.core_measurements.cell_voltages = [3300, 3310, 3290, 3305, 3300];
    bq76920.core_measurements.mos_status = MosStatus::new(0x03);
    let alerts = Bq76920Alerts { system_status: SystemStatus::new(0x04) };
    let all = aggregate(&None, &None, &Some(bq76920), &None, &Some(alerts));
    assert_eq!(all.bq76920.core_measurements.cell_voltages[1], 3310);
    assert_eq!(all.bq76920_alerts.system_status.0, 0x04);
}

#[test]
fn usb_payload_flattens_every_field() {
    let mut all: AllMeasurements<5> = AllMeasurements::default();
    all.bq25730.adc_measurements.vbat_mv = 16800;
    all.bq25730.adc_measurements.vsys_mv = 12000;
    all.bq76920.core_measurements.cell_voltages = [3351, 3352, 3353, 3354, 3355];
    all.bq76920.core_measurements.temperatures =
        TemperatureData { ts1: 2312, ts2: Some(-55), ts3: None };
    all.bq76920.core_measurements.current_ma = -820;
    all.bq76920.core_measurements.is_thermistor_mode = true;
    all.bq76920.core_measurements.system_status = SystemStatus::new(0x0C);
    all.bq76920.core_measurements.mos_status = MosStatus::new(0x01);
    all.ina226 = Ina226Measurements { voltage_mv: 11987, current_ma: 250, power_mw: 2996 };
    all.bq25730_alerts = Bq25730Alerts {
        charger_status: ChargerStatus::new(0x80, 0x10),
        prochot_status: ProchotStatus::new(0x40, 0x02),
    };
    all.bq76920_alerts = Bq76920Alerts { system_status: SystemStatus::new(0x08) };

    let p = all.to_usb_payload();
    assert_eq!(p.bq25730_adc_vbat_mv, 16800);
    assert_eq!(p.bq25730_adc_vsys_mv, 12000);
    assert_eq!(p.bq76920_cell1_mv, 3351);
    assert_eq!(p.bq76920_cell5_mv, 3355);
    assert_eq!(p.bq76920_ts1_temp_0_01c, 2312);
    assert_eq!(p.bq76920_ts2_present, 1);
    assert_eq!(p.bq76920_ts2_temp_0_01c, -55);
    // An absent sensor carries the sentinel beside a zero presence byte.
    assert_eq!(p.bq76920_ts3_present, 0);
    assert_eq!(p.bq76920_ts3_temp_0_01c, i16::MIN);
    assert_eq!(p.bq76920_is_thermistor, 1);
    assert_eq!(p.bq76920_current_ma, -820);
    assert_eq!(p.bq76920_system_status_mask, 0x0C);
    assert_eq!(p.bq76920_mos_status_mask, 0x01);
    assert_eq!(p.ina226_voltage_mv, 11987);
    assert_eq!(p.bq25730_charger_status_flags, 0x8010);
    assert_eq!(p.bq25730_prochot_status_flags, 0x4002);
    assert_eq!(p.bq76920_alerts_system_status_mask, 0x08);
}

#[test]
fn charger_status_packing() {
    let s = ChargerStatus::new(0xAB, 0xCD);
    assert_eq!(s.to_u16(), 0xABCD);
    assert!(ChargerStatus::new(0, 0x10).fault_sysovp());
    assert!(!ChargerStatus::new(0xFF, 0xEF).fault_sysovp());
}

#[test]
fn runtime_config_default_resistors() {
    let cfg = Bq25730RuntimeConfig::default();
    assert_eq!(cfg.rsns_bat, SenseResistorValue::R5mOhm);
    assert_eq!(cfg.rsns_ac, SenseResistorValue::R10mOhm);
}

#[test]
fn balance_flags_selects_cells_above_average() {
    // Average of 3300/3300/3400/3300/3300 is 3320; only the 3400 mV cell
    // sits more than 50 mV above it.
    assert_eq!(balance_flags(&[3300, 3300, 3400, 3300, 3300]), CELLBAL_BAL3);
    // A balanced pack selects nothing.
    assert_eq!(balance_flags(&[3300, 3300, 3300, 3300, 3300]), 0);
    // Exactly threshold above the average is not enough: average of
    // 3240/3240/3240/3240/3290 is 3250, and 3290 = 3250 + 40 < +50.
    assert_eq!(balance_flags(&[3240, 3240, 3240, 3240, 3290]), 0);
    // Two high cells select two bits.
    assert_eq!(
        balance_flags(&[3500, 3200, 3200, 3200, 3500]),
        CELLBAL_BAL1 | CELLBAL_BAL5
    );
}
