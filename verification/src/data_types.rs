//! Snapshot types published on the telemetry bus.
//!
//! Each device task bundles one read cycle into an immutable snapshot in
//! physical units (millivolts, milliamps, milliwatts, hundredths of a
//! degree). The gateway aggregates the latest snapshot of every kind and
//! flattens the aggregate into the fixed-layout host payload.

use vstd::prelude::*;

use crate::flags::{ChargerStatus, MosStatus, ProchotStatus, SystemStatus};

verus! {

/// One cycle of charger ADC readings, already converted to mV / mA.
#[derive(Clone, Copy, Debug, PartialEq, Eq, Structural)]
pub struct AdcMeasurements {
    pub vbat_mv: u16,
    pub vsys_mv: u16,
    pub ichg_ma: u16,
    pub idchg_ma: u16,
    pub iin_ma: u16,
    pub psys_mv: u16,
    pub vbus_mv: u16,
    pub cmpin_mv: u16,
}

impl Default for AdcMeasurements {
    /// The documented substitute for a failed ADC read: every field zero.
    fn default() -> (r: Self)
        ensures
            r == AdcMeasurements::spec_default(),
    {
        AdcMeasurements {
            vbat_mv: 0,
            vsys_mv: 0,
            ichg_ma: 0,
            idchg_ma: 0,
            iin_ma: 0,
            psys_mv: 0,
            vbus_mv: 0,
            cmpin_mv: 0,
        }
    }
}

impl AdcMeasurements {
    pub open spec fn spec_default() -> Self {
        AdcMeasurements {
            vbat_mv: 0,
            vsys_mv: 0,
            ichg_ma: 0,
            idchg_ma: 0,
            iin_ma: 0,
            psys_mv: 0,
            vbus_mv: 0,
            cmpin_mv: 0,
        }
    }
}

/// Charger measurement snapshot.
#[derive(Clone, Copy, Debug, PartialEq, Eq, Structural)]
pub struct Bq25730Measurements {
    pub adc_measurements: AdcMeasurements,
}

impl Default for Bq25730Measurements {
    fn default() -> (r: Self)
        ensures
            r == Bq25730Measurements::spec_default(),
    {
        Bq25730Measurements { adc_measurements: AdcMeasurements::default() }
    }
}

impl Bq25730Measurements {
    pub open spec fn spec_default() -> Self {
        Bq25730Measurements { adc_measurements: AdcMeasurements::spec_default() }
    }
}

/// Charger alert snapshot: status/fault latches and throttle causes.
#[derive(Clone, Copy, Debug, PartialEq, Eq, Structural)]
pub struct Bq25730Alerts {
    pub charger_status: ChargerStatus,
    pub prochot_status: ProchotStatus,
}

impl Default for Bq25730Alerts {
    fn default() -> (r: Self)
        ensures
            r == Bq25730Alerts::spec_default(),
    {
        Bq25730Alerts {
            charger_status: ChargerStatus::default(),
            prochot_status: ProchotStatus::default(),
        }
    }
}

impl Bq25730Alerts {
    pub open spec fn spec_default() -> Self {
        Bq25730Alerts {
            charger_status: ChargerStatus { status_flags: 0, fault_flags: 0 },
            prochot_status: ProchotStatus { msb_flags: 0, lsb_flags: 0 },
        }
    }
}

/// Pack temperatures in hundredths of a degree; absent sensors read `None`.
#[derive(Clone, Copy, Debug, PartialEq, Eq, Structural)]
pub struct TemperatureData {
    pub ts1: i16,
    pub ts2: Option<i16>,
    pub ts3: Option<i16>,
}

/// One read cycle of the protection monitor, in physical units.
#[derive(Clone, Copy, Debug, PartialEq)]
pub struct Bq76920CoreMeasurements<const N: usize> {
    pub cell_voltages: [i32; N],
    pub total_voltage_mv: i32,
    pub temperatures: TemperatureData,
    pub current_ma: i32,
    pub is_thermistor_mode: bool,
    pub system_status: SystemStatus,
    pub mos_status: MosStatus,
}

impl<const N: usize> Bq76920CoreMeasurements<N> {
    pub open spec fn spec_default() -> Self {
        Bq76920CoreMeasurements {
            cell_voltages: vstd::array::spec_array_fill_for_copy_type::<i32, N>(0i32),
            total_voltage_mv: 0,
            temperatures: TemperatureData { ts1: 0, ts2: None, ts3: None },
            current_ma: 0,
            is_thermistor_mode: false,
            system_status: SystemStatus(0),
            mos_status: MosStatus(0),
        }
    }
}

impl<const N: usize> Default for Bq76920CoreMeasurements<N> {
    fn default() -> (r: Self)
        ensures
            r == Bq76920CoreMeasurements::<N>::spec_default(),
    {
        Bq76920CoreMeasurements {
            cell_voltages: [0i32; N],
            total_voltage_mv: 0,
            temperatures: TemperatureData { ts1: 0, ts2: None, ts3: None },
            current_ma: 0,
            is_thermistor_mode: false,
            system_status: SystemStatus::new(0),
            mos_status: MosStatus::new(0),
        }
    }
}

/// Protection-monitor measurement snapshot.
#[derive(Clone, Copy, Debug, PartialEq)]
pub struct Bq76920Measurements<const N: usize> {
    pub core_measurements: Bq76920CoreMeasurements<N>,
}

impl<const N: usize> Bq76920Measurements<N> {
    pub open spec fn spec_default() -> Self {
        Bq76920Measurements { core_measurements: Bq76920CoreMeasurements::spec_default() }
    }
}

impl<const N: usize> Default for Bq76920Measurements<N> {
    fn default() -> (r: Self)
        ensures
            r == Bq76920Measurements::<N>::spec_default(),
    {
        Bq76920Measurements { core_measurements: Bq76920CoreMeasurements::default() }
    }
}

/// Protection-monitor alert snapshot.
#[derive(Clone, Copy, Debug, PartialEq, Eq, Structural)]
pub struct Bq76920Alerts {
    pub system_status: SystemStatus,
}

impl Bq76920Alerts {
    pub open spec fn spec_default() -> Self {
        Bq76920Alerts { system_status: SystemStatus(0) }
    }
}

impl Default for Bq76920Alerts {
    fn default() -> (r: Self)
        ensures
            r == Bq76920Alerts::spec_default(),
    {
        Bq76920Alerts { system_status: SystemStatus::new(0) }
    }
}

/// Bus-power monitor snapshot: bus voltage, current and power in
/// milli-units, rounded by the reading task before it publishes.
#[derive(Clone, Copy, Debug, PartialEq, Eq, Structural)]
pub struct Ina226Measurements {
    pub voltage_mv: i32,
    pub current_ma: i32,
    pub power_mw: i32,
}

impl Ina226Measurements {
    pub open spec fn spec_default() -> Self {
        Ina226Measurements { voltage_mv: 0, current_ma: 0, power_mw: 0 }
    }
}

impl Default for Ina226Measurements {
    fn default() -> (r: Self)
        ensures
            r == Ina226Measurements::spec_default(),
    {
        Ina226Measurements { voltage_mv: 0, current_ma: 0, power_mw: 0 }
    }
}

/// The gateway's working set: the latest snapshot of every kind, each
/// replaced by its default while its producer has not yet published.
#[derive(Clone, Copy, Debug, PartialEq)]
pub struct AllMeasurements<const N: usize> {
    pub bq25730: Bq25730Measurements,
    pub bq76920: Bq76920Measurements<N>,
    pub ina226: Ina226Measurements,
    pub bq25730_alerts: Bq25730Alerts,
    pub bq76920_alerts: Bq76920Alerts,
}

impl<const N: usize> AllMeasurements<N> {
    pub open spec fn spec_default() -> Self {
        AllMeasurements {
            bq25730: Bq25730Measurements::spec_default(),
            bq76920: Bq76920Measurements::spec_default(),
            ina226: Ina226Measurements::spec_default(),
            bq25730_alerts: Bq25730Alerts::spec_default(),
            bq76920_alerts: Bq76920Alerts::spec_default(),
        }
    }
}

impl<const N: usize> Default for AllMeasurements<N> {
    fn default() -> (r: Self)
        ensures
            r == AllMeasurements::<N>::spec_default(),
    {
        AllMeasurements {
            bq25730: Bq25730Measurements::default(),
            bq76920: Bq76920Measurements::default(),
            ina226: Ina226Measurements::default(),
            bq25730_alerts: Bq25730Alerts::default(),
            bq76920_alerts: Bq76920Alerts::default(),
        }
    }
}

/// Aggregate the most recent snapshot of each kind; a kind whose producer
/// has not published yet contributes its default value.
pub fn aggregate(
    bq25730: &Option<Bq25730Measurements>,
    ina226: &Option<Ina226Measurements>,
    bq76920: &Option<Bq76920Measurements<5>>,
    bq25730_alerts: &Option<Bq25730Alerts>,
    bq76920_alerts: &Option<Bq76920Alerts>,
) -> (r: AllMeasurements<5>)
    ensures
        r.bq25730 == bq25730.unwrap_or(Bq25730Measurements::spec_default()),
        r.ina226 == ina226.unwrap_or(Ina226Measurements::spec_default()),
        r.bq76920 == bq76920.unwrap_or(Bq76920Measurements::spec_default()),
        r.bq25730_alerts == bq25730_alerts.unwrap_or(Bq25730Alerts::spec_default()),
        r.bq76920_alerts == bq76920_alerts.unwrap_or(Bq76920Alerts::spec_default()),
{
    AllMeasurements {
        bq25730: match bq25730 {
            Some(m) => *m,
            None => Bq25730Measurements::default(),
        },
        bq76920: match bq76920 {
            Some(m) => *m,
            None => Bq76920Measurements::default(),
        },
        ina226: match ina226 {
            Some(m) => *m,
            None => Ina226Measurements::default(),
        },
        bq25730_alerts: match bq25730_alerts {
            Some(m) => *m,
            None => Bq25730Alerts::default(),
        },
        bq76920_alerts: match bq76920_alerts {
            Some(m) => *m,
            None => Bq76920Alerts::default(),
        },
    }
}

/// Host-facing payload: the aggregate flattened to fixed-width fields in
/// a fixed order. Absent temperatures carry a sentinel value beside a
/// presence byte.
#[derive(Clone, Copy, Debug, PartialEq, Eq, Structural)]
pub struct AllMeasurementsUsbPayload {
    pub bq25730_adc_vbat_mv: u16,
    pub bq25730_adc_vsys_mv: u16,
    pub bq25730_adc_ichg_ma: u16,
    pub bq25730_adc_idchg_ma: u16,
    pub bq25730_adc_iin_ma: u16,
    pub bq25730_adc_psys_mv: u16,
    pub bq25730_adc_vbus_mv: u16,
    pub bq25730_adc_cmpin_mv: u16,
    pub bq76920_cell1_mv: i32,
    pub bq76920_cell2_mv: i32,
    pub bq76920_cell3_mv: i32,
    pub bq76920_cell4_mv: i32,
    pub bq76920_cell5_mv: i32,
    pub bq76920_ts1_temp_0_01c: i16,
    pub bq76920_ts2_present: u8,
    pub bq76920_ts2_temp_0_01c: i16,
    pub bq76920_ts3_present: u8,
    pub bq76920_ts3_temp_0_01c: i16,
    pub bq76920_is_thermistor: u8,
    pub bq76920_current_ma: i32,
    pub bq76920_system_status_mask: u8,
    pub bq76920_mos_status_mask: u8,
    pub ina226_voltage_mv: i32,
    pub ina226_current_ma: i32,
    pub ina226_power_mw: i32,
    pub bq25730_charger_status_flags: u16,
    pub bq25730_prochot_status_flags: u16,
    pub bq76920_alerts_system_status_mask: u8,
}

impl AllMeasurements<5> {
    /// The flattened form of this aggregate: every payload field equals
    /// the corresponding snapshot field, with `i16::MIN` standing in for
    /// an absent temperature.
    pub open spec fn spec_usb_payload(&self) -> AllMeasurementsUsbPayload {
        AllMeasurementsUsbPayload {
            bq25730_adc_vbat_mv: self.bq25730.adc_measurements.vbat_mv,
            bq25730_adc_vsys_mv: self.bq25730.adc_measurements.vsys_mv,
            bq25730_adc_ichg_ma: self.bq25730.adc_measurements.ichg_ma,
            bq25730_adc_idchg_ma: self.bq25730.adc_measurements.idchg_ma,
            bq25730_adc_iin_ma: self.bq25730.adc_measurements.iin_ma,
            bq25730_adc_psys_mv: self.bq25730.adc_measurements.psys_mv,
            bq25730_adc_vbus_mv: self.bq25730.adc_measurements.vbus_mv,
            bq25730_adc_cmpin_mv: self.bq25730.adc_measurements.cmpin_mv,
            bq76920_cell1_mv: self.bq76920.core_measurements.cell_voltages@[0],
            bq76920_cell2_mv: self.bq76920.core_measurements.cell_voltages@[1],
            bq76920_cell3_mv: self.bq76920.core_measurements.cell_voltages@[2],
            bq76920_cell4_mv: self.bq76920.core_measurements.cell_voltages@[3],
            bq76920_cell5_mv: self.bq76920.core_measurements.cell_voltages@[4],
            bq76920_ts1_temp_0_01c: self.bq76920.core_measurements.temperatures.ts1,
            bq76920_ts2_present: if self.bq76920.core_measurements.temperatures.ts2 is Some {
                1u8
            } else {
                0u8
            },
            bq76920_ts2_temp_0_01c: self.bq76920.core_measurements.temperatures.ts2.unwrap_or(
                i16::MIN,
            ),
            bq76920_ts3_present: if self.bq76920.core_measurements.temperatures.ts3 is Some {
                1u8
            } else {
                0u8
            },
            bq76920_ts3_temp_0_01c: self.bq76920.core_measurements.temperatures.ts3.unwrap_or(
                i16::MIN,
            ),
            bq76920_is_thermistor: if self.bq76920.core_measurements.is_thermistor_mode {
                1u8
            } else {
                0u8
            },
            bq76920_current_ma: self.bq76920.core_measurements.current_ma,
            bq76920_system_status_mask: self.bq76920.core_measurements.system_status.0,
            bq76920_mos_status_mask: self.bq76920.core_measurements.mos_status.0,
            ina226_voltage_mv: self.ina226.voltage_mv,
            ina226_current_ma: self.ina226.current_ma,
            ina226_power_mw: self.ina226.power_mw,
            bq25730_charger_status_flags: (self.bq25730_alerts.charger_status.spec_to_u16()) as u16,
            bq25730_prochot_status_flags: (self.bq25730_alerts.prochot_status.spec_to_u16()) as u16,
            bq76920_alerts_system_status_mask: self.bq76920_alerts.system_status.0,
        }
    }

    /// Flatten the aggregate into the fixed-layout host payload.
    pub fn to_usb_payload(&self) -> (r: AllMeasurementsUsbPayload)
        ensures
            r == self.spec_usb_payload(),
    {
        let core = &self.bq76920.core_measurements;
        AllMeasurementsUsbPayload {
            bq25730_adc_vbat_mv: self.bq25730.adc_measurements.vbat_mv,
            bq25730_adc_vsys_mv: self.bq25730.adc_measurements.vsys_mv,
            bq25730_adc_ichg_ma: self.bq25730.adc_measurements.ichg_ma,
            bq25730_adc_idchg_ma: self.bq25730.adc_measurements.idchg_ma,
            bq25730_adc_iin_ma: self.bq25730.adc_measurements.iin_ma,
            bq25730_adc_psys_mv: self.bq25730.adc_measurements.psys_mv,
            bq25730_adc_vbus_mv: self.bq25730.adc_measurements.vbus_mv,
            bq25730_adc_cmpin_mv: self.bq25730.adc_measurements.cmpin_mv,
            bq76920_cell1_mv: core.cell_voltages[0],
            bq76920_cell2_mv: core.cell_voltages[1],
            bq76920_cell3_mv: core.cell_voltages[2],
            bq76920_cell4_mv: core.cell_voltages[3],
            bq76920_cell5_mv: core.cell_voltages[4],
            bq76920_ts1_temp_0_01c: core.temperatures.ts1,
            bq76920_ts2_present: if core.temperatures.ts2.is_some() {
                1
            } else {
                0
            },
            bq76920_ts2_temp_0_01c: match core.temperatures.ts2 {
                Some(t) => t,
                None => i16::MIN,
            },
            bq76920_ts3_present: if core.temperatures.ts3.is_some() {
                1
            } else {
                0
            },
            bq76920_ts3_temp_0_01c: match core.temperatures.ts3 {
                Some(t) => t,
                None => i16::MIN,
            },
            bq76920_is_thermistor: if core.is_thermistor_mode {
                1
            } else {
                0
            },
            bq76920_current_ma: core.current_ma,
            bq76920_system_status_mask: core.system_status.0,
            bq76920_mos_status_mask: core.mos_status.0,
            ina226_voltage_mv: self.ina226.voltage_mv,
            ina226_current_ma: self.ina226.current_ma,
            ina226_power_mw: self.ina226.power_mw,
            bq25730_charger_status_flags: self.bq25730_alerts.charger_status.to_u16(),
            bq25730_prochot_status_flags: self.bq25730_alerts.prochot_status.to_u16(),
            bq76920_alerts_system_status_mask: self.bq76920_alerts.system_status.0,
        }
    }
}

} // verus!
