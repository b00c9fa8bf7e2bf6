//! The telemetry bus: one broadcast channel per snapshot kind.
//!
//! Every channel is created once at process start and handed to its
//! producer and consumers explicitly; each channel has one publisher and
//! independent subscribers, so one slow consumer can never starve
//! another.

use vstd::prelude::*;

use crate::channel::TelemetryChannel;
use crate::data_types::{
    AllMeasurements, Bq25730Alerts, Bq25730Measurements, Bq76920Alerts, Bq76920Measurements,
    Ina226Measurements,
};

verus! {

/// Ring depth of every telemetry channel.
pub const MEASUREMENTS_PUBSUB_DEPTH: usize = 4;

/// Nominal sense-resistor values the charger can be built with.
#[derive(Clone, Copy, Debug, PartialEq, Eq, Structural)]
pub enum SenseResistorValue {
    R5mOhm,
    R10mOhm,
}

/// Sense-resistor configuration the charger driver runs with.
#[derive(Clone, Copy, Debug, PartialEq, Eq, Structural)]
pub struct Bq25730RuntimeConfig {
    pub rsns_bat: SenseResistorValue,
    pub rsns_ac: SenseResistorValue,
}

impl Default for Bq25730RuntimeConfig {
    /// The fitted resistors: 5 mOhm on the battery path, 10 mOhm on the
    /// adapter path.
    fn default() -> (r: Self)
        ensures
            r.rsns_bat == SenseResistorValue::R5mOhm,
            r.rsns_ac == SenseResistorValue::R10mOhm,
    {
        Bq25730RuntimeConfig {
            rsns_bat: SenseResistorValue::R5mOhm,
            rsns_ac: SenseResistorValue::R10mOhm,
        }
    }
}

/// The full set of telemetry channels, created together at start-up and
/// then distributed to the tasks.
pub struct PubSubSetup {
    pub measurements: TelemetryChannel<AllMeasurements<5>>,
    pub bq25730_alerts: TelemetryChannel<Bq25730Alerts>,
    pub bq76920_alerts: TelemetryChannel<Bq76920Alerts>,
    pub bq25730_measurements: TelemetryChannel<Bq25730Measurements>,
    pub bq76920_measurements: TelemetryChannel<Bq76920Measurements<5>>,
    pub ina226_measurements: TelemetryChannel<Ina226Measurements>,
}

impl PubSubSetup {
    /// Every channel well-formed, empty, at the configured depth, with
    /// no subscribers yet.
    pub open spec fn wf(&self) -> bool {
        &&& self.measurements.wf()
        &&& self.bq25730_alerts.wf()
        &&& self.bq76920_alerts.wf()
        &&& self.bq25730_measurements.wf()
        &&& self.bq76920_measurements.wf()
        &&& self.ina226_measurements.wf()
    }
}

/// Create the telemetry bus: one empty channel per snapshot kind.
pub fn init_pubsubs() -> (r: PubSubSetup)
    ensures
        r.wf(),
        r.measurements.spec_log().len() == 0,
        r.bq25730_alerts.spec_log().len() == 0,
        r.bq76920_alerts.spec_log().len() == 0,
        r.bq25730_measurements.spec_log().len() == 0,
        r.bq76920_measurements.spec_log().len() == 0,
        r.ina226_measurements.spec_log().len() == 0,
        r.measurements.spec_depth() == MEASUREMENTS_PUBSUB_DEPTH,
        r.bq25730_alerts.spec_depth() == MEASUREMENTS_PUBSUB_DEPTH,
        r.bq76920_alerts.spec_depth() == MEASUREMENTS_PUBSUB_DEPTH,
        r.bq25730_measurements.spec_depth() == MEASUREMENTS_PUBSUB_DEPTH,
        r.bq76920_measurements.spec_depth() == MEASUREMENTS_PUBSUB_DEPTH,
        r.ina226_measurements.spec_depth() == MEASUREMENTS_PUBSUB_DEPTH,
        r.measurements.spec_num_subscribers() == 0,
        r.bq25730_alerts.spec_num_subscribers() == 0,
        r.bq76920_alerts.spec_num_subscribers() == 0,
        r.bq25730_measurements.spec_num_subscribers() == 0,
        r.bq76920_measurements.spec_num_subscribers() == 0,
        r.ina226_measurements.spec_num_subscribers() == 0,
{
    PubSubSetup {
        measurements: TelemetryChannel::new(MEASUREMENTS_PUBSUB_DEPTH),
        bq25730_alerts: TelemetryChannel::new(MEASUREMENTS_PUBSUB_DEPTH),
        bq76920_alerts: TelemetryChannel::new(MEASUREMENTS_PUBSUB_DEPTH),
        bq25730_measurements: TelemetryChannel::new(MEASUREMENTS_PUBSUB_DEPTH),
        bq76920_measurements: TelemetryChannel::new(MEASUREMENTS_PUBSUB_DEPTH),
        ina226_measurements: TelemetryChannel::new(MEASUREMENTS_PUBSUB_DEPTH),
    }
}

} // verus!
