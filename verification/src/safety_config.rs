//! Safety configuration verifier and the FET enable gate.
//!
//! Protection thresholds are written to the monitor IC, then the
//! safety-relevant registers are independently read back and
//! byte-compared against what was written; only a fully matching
//! read-back permits the power FETs to be enabled. A write is never
//! trusted merely because the bus reported no error: the comparison of
//! the read-back image is the decisive step, and the invariant
//! keeps every FET command behind a successful comparison.

use vstd::prelude::*;

verus! {

// Monitor register addresses whose read-back is compared.
pub const REG_SYS_CTRL1: u8 = 0x04;
pub const REG_SYS_CTRL2: u8 = 0x05;
pub const REG_PROTECT1: u8 = 0x06;
pub const REG_PROTECT2: u8 = 0x07;
pub const REG_PROTECT3: u8 = 0x08;
pub const REG_OV_TRIP: u8 = 0x09;
pub const REG_UV_TRIP: u8 = 0x0A;
pub const REG_CC_CFG: u8 = 0x0B;

/// Short-circuit-discharge trip delay.
#[derive(Clone, Copy, Debug, PartialEq, Eq, Structural)]
pub enum ScdDelay {
    Delay70us,
    Delay100us,
    Delay200us,
    Delay400us,
}

/// Overcurrent-discharge trip delay.
#[derive(Clone, Copy, Debug, PartialEq, Eq, Structural)]
pub enum OcdDelay {
    Delay10ms,
    Delay20ms,
    Delay40ms,
    Delay80ms,
    Delay160ms,
    Delay320ms,
    Delay640ms,
    Delay1280ms,
}

/// Undervoltage / overvoltage trip delay.
#[derive(Clone, Copy, Debug, PartialEq, Eq, Structural)]
pub enum UvOvDelay {
    Delay1s,
    Delay2s,
    Delay4s,
    Delay8s,
}

/// Protection thresholds pushed into the monitor at bring-up; fixed for
/// the life of the process once the verifier has accepted them.
#[derive(Clone, Copy, Debug, PartialEq, Eq, Structural)]
pub struct ProtectionConfig {
    pub overvoltage_trip_mv: u32,
    pub undervoltage_trip_mv: u32,
    pub scd_limit_ma: u32,
    pub scd_delay: ScdDelay,
    pub ocd_limit_ma: u32,
    pub ocd_delay: OcdDelay,
    pub uv_delay: UvOvDelay,
    pub ov_delay: UvOvDelay,
    pub rsense_m_ohm: u32,
}

impl ProtectionConfig {
    pub open spec fn spec_default() -> Self {
        ProtectionConfig {
            overvoltage_trip_mv: 3600,
            undervoltage_trip_mv: 2500,
            scd_limit_ma: 60000,
            scd_delay: ScdDelay::Delay70us,
            ocd_limit_ma: 10000,
            ocd_delay: OcdDelay::Delay10ms,
            uv_delay: UvOvDelay::Delay1s,
            ov_delay: UvOvDelay::Delay1s,
            rsense_m_ohm: 3,
        }
    }
}

impl Default for ProtectionConfig {
    /// The thresholds this controller programs: 3.6 V / 2.5 V cell trip
    /// points, a 10 A overcurrent-discharge limit, a 3 mOhm sense
    /// resistor, and the monitor's shortest trip delays.
    fn default() -> (r: Self)
        ensures
            r == ProtectionConfig::spec_default(),
    {
        ProtectionConfig {
            overvoltage_trip_mv: 3600,
            undervoltage_trip_mv: 2500,
            scd_limit_ma: 60000,
            scd_delay: ScdDelay::Delay70us,
            ocd_limit_ma: 10000,
            ocd_delay: OcdDelay::Delay10ms,
            uv_delay: UvOvDelay::Delay1s,
            ov_delay: UvOvDelay::Delay1s,
            rsense_m_ohm: 3,
        }
    }
}

/// One register of the written configuration image: its address and the
/// byte that was written there.
#[derive(Clone, Copy, Debug, PartialEq, Eq, Structural)]
pub struct RegisterCheck {
    pub register: u8,
    pub expected: u8,
}

/// Result of the apply-and-verify step.
#[derive(Clone, Copy, Debug, PartialEq, Eq, Structural)]
pub enum VerifyOutcome {
    /// Every read-back matched the written image.
    Verified,
    /// The first read-back that differed from the written image.
    VerificationFailed { register: u8, expected: u8, actual: u8 },
    /// A bus error interrupted the read-back before any mismatch.
    CommunicationFailed,
}

/// The outcome over the written image and the read-backs, examined in
/// write order: the first failed read decides communication failure, the
/// first differing byte decides verification failure, and only a fully
/// matching image verifies.
pub open spec fn spec_verify_readback(
    checks: Seq<RegisterCheck>,
    readbacks: Seq<Option<u8>>,
) -> VerifyOutcome
    decreases checks.len(),
{
    if checks.len() == 0 {
        VerifyOutcome::Verified
    } else {
        match readbacks[0] {
            None => VerifyOutcome::CommunicationFailed,
            Some(actual) => if actual == checks[0].expected {
                spec_verify_readback(checks.skip(1), readbacks.skip(1))
            } else {
                VerifyOutcome::VerificationFailed {
                    register: checks[0].register,
                    expected: checks[0].expected,
                    actual,
                }
            },
        }
    }
}

/// Compare the read-back image against the written one. `readbacks[i]`
/// is the byte read back from `checks[i].register`, `None` where that
/// read failed on the bus.
pub fn verify_readback(checks: &Vec<RegisterCheck>, readbacks: &Vec<Option<u8>>) -> (r:
    VerifyOutcome)
    requires
        checks@.len() == readbacks@.len(),
    ensures
        r == spec_verify_readback(checks@, readbacks@),
{
    let n = checks.len();
    let mut i: usize = 0;
    proof {
        assert(checks@.skip(0) =~= checks@);
        assert(readbacks@.skip(0) =~= readbacks@);
    }
    while i < n
        invariant
            0 <= i <= n,
            n == checks@.len(),
            checks@.len() == readbacks@.len(),
            spec_verify_readback(checks@, readbacks@) == spec_verify_readback(
                checks@.skip(i as int),
                readbacks@.skip(i as int),
            ),
            forall|j: int|
                0 <= j < i ==> readbacks@[j] == Some(checks@[j].expected),
        decreases n - i,
    {
        proof {
            assert(checks@.skip(i as int).len() != 0);
            assert(checks@.skip(i as int)[0] == checks@[i as int]);
            assert(readbacks@.skip(i as int)[0] == readbacks@[i as int]);
        }
        match readbacks[i] {
            None => {
                return VerifyOutcome::CommunicationFailed;
            },
            Some(actual) => {
                if actual != checks[i].expected {
                    return VerifyOutcome::VerificationFailed {
                        register: checks[i].register,
                        expected: checks[i].expected,
                        actual,
                    };
                }
            },
        }
        proof {
            assert(checks@.skip(i as int).skip(1) =~= checks@.skip(i as int + 1));
            assert(readbacks@.skip(i as int).skip(1) =~= readbacks@.skip(i as int + 1));
        }
        i = i + 1;
    }
    VerifyOutcome::Verified
}

/// When every register reads back exactly the byte that was written, the
/// verifier accepts the configuration.
pub proof fn lemma_all_match_verified(checks: Seq<RegisterCheck>, readbacks: Seq<Option<u8>>)
    requires
        checks.len() == readbacks.len(),
        forall|i: int| 0 <= i < checks.len() ==> readbacks[i] == Some(checks[i].expected),
    ensures
        spec_verify_readback(checks, readbacks) is Verified,
    decreases checks.len(),
{
    if checks.len() != 0 {
        assert(readbacks[0] == Some(checks[0].expected));
        lemma_all_match_verified(checks.skip(1), readbacks.skip(1));
    }
}

/// When all reads succeed but at least one register reads back a byte
/// other than the one written, the verifier reports a verification
/// failure — never acceptance.
pub proof fn lemma_mismatch_fails(
    checks: Seq<RegisterCheck>,
    readbacks: Seq<Option<u8>>,
    i: int,
)
    requires
        checks.len() == readbacks.len(),
        forall|j: int| 0 <= j < readbacks.len() ==> readbacks[j] is Some,
        0 <= i < checks.len(),
        readbacks[i] != Some(checks[i].expected),
    ensures
        spec_verify_readback(checks, readbacks) is VerificationFailed,
    decreases checks.len(),
{
    match readbacks[0] {
        Some(actual) => {
            if actual == checks[0].expected {
                assert(i != 0);
                lemma_mismatch_fails(checks.skip(1), readbacks.skip(1), i - 1);
            }
        },
        None => {},
    }
}

/// When some read fails on the bus, the verifier never accepts the
/// configuration.
pub proof fn lemma_read_failure_not_verified(
    checks: Seq<RegisterCheck>,
    readbacks: Seq<Option<u8>>,
    i: int,
)
    requires
        checks.len() == readbacks.len(),
        0 <= i < checks.len(),
        readbacks[i] is None,
    ensures
        !(spec_verify_readback(checks, readbacks) is Verified),
    decreases checks.len(),
{
    match readbacks[0] {
        Some(actual) => {
            if actual == checks[0].expected {
                lemma_read_failure_not_verified(checks.skip(1), readbacks.skip(1), i - 1);
            }
        },
        None => {},
    }
}

/// Gate between the read-back comparison and the FET enable commands.
///
/// It records the most recent outcome; a FET may only be commanded
/// on while the recorded outcome is acceptance, and recording anything
/// else withdraws both commands.
#[derive(Clone, Copy, Debug)]
pub struct FetGate {
    verified: bool,
    charge_fet_commanded: bool,
    discharge_fet_commanded: bool,
}

impl FetGate {
    /// The recorded outcome permits enabling FETs.
    pub closed spec fn spec_verified(&self) -> bool {
        self.verified
    }

    pub closed spec fn spec_charge_fet_commanded(&self) -> bool {
        self.charge_fet_commanded
    }

    pub closed spec fn spec_discharge_fet_commanded(&self) -> bool {
        self.discharge_fet_commanded
    }

    /// A FET is commanded on only under an accepting outcome.
    pub open spec fn wf(&self) -> bool {
        (self.spec_charge_fet_commanded() || self.spec_discharge_fet_commanded())
            ==> self.spec_verified()
    }

    /// A fresh gate: nothing verified, no FET commanded.
    pub fn new() -> (r: Self)
        ensures
            r.wf(),
            !r.spec_verified(),
            !r.spec_charge_fet_commanded(),
            !r.spec_discharge_fet_commanded(),
    {
        FetGate { verified: false, charge_fet_commanded: false, discharge_fet_commanded: false }
    }

    /// Record the comparison's outcome for the current configuration. Any
    /// outcome other than acceptance keeps both power paths barred,
    /// and recording withdraws both FET commands.
    pub fn record_outcome(&mut self, outcome: &VerifyOutcome)
        ensures
            final(self).wf(),
            final(self).spec_verified() == (*outcome is Verified),
            !final(self).spec_charge_fet_commanded(),
            !final(self).spec_discharge_fet_commanded(),
    {
        self.verified = matches!(outcome, VerifyOutcome::Verified);
        self.charge_fet_commanded = false;
        self.discharge_fet_commanded = false;
    }

    pub fn may_enable_fets(&self) -> (r: bool)
        ensures
            r == self.spec_verified(),
    {
        self.verified
    }

    /// Note that the charge FET has been commanded on; only callable
    /// behind an accepting outcome.
    pub fn command_charge_fet(&mut self)
        requires
            old(self).wf(),
            old(self).spec_verified(),
        ensures
            final(self).wf(),
            final(self).spec_verified(),
            final(self).spec_charge_fet_commanded(),
            final(self).spec_discharge_fet_commanded() == old(self).spec_discharge_fet_commanded(),
    {
        self.charge_fet_commanded = true;
    }

    /// Note that the discharge FET has been commanded on; only callable
    /// behind an accepting outcome.
    pub fn command_discharge_fet(&mut self)
        requires
            old(self).wf(),
            old(self).spec_verified(),
        ensures
            final(self).wf(),
            final(self).spec_verified(),
            final(self).spec_discharge_fet_commanded(),
            final(self).spec_charge_fet_commanded() == old(self).spec_charge_fet_commanded(),
    {
        self.discharge_fet_commanded = true;
    }

    pub fn charge_fet_commanded(&self) -> (r: bool)
        ensures
            r == self.spec_charge_fet_commanded(),
    {
        self.charge_fet_commanded
    }

    pub fn discharge_fet_commanded(&self) -> (r: bool)
        ensures
            r == self.spec_discharge_fet_commanded(),
    {
        self.discharge_fet_commanded
    }
}

/// Without an accepting outcome on record, neither FET is commanded:
/// a failed or interrupted verification leaves both power paths off.
pub proof fn lemma_closed_gate_keeps_fets_off(g: FetGate)
    requires
        g.wf(),
        !g.spec_verified(),
    ensures
        !g.spec_charge_fet_commanded(),
        !g.spec_discharge_fet_commanded(),
{
}

} // verus!
