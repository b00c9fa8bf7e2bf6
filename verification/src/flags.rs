//! Register-bit model of the two power-path chips.
//!
//! The protection monitor's status and control registers and the
//! charger's status/fault and option registers are held as plain bytes;
//! each named bit gets a mask constant and the flag wrappers offer the
//! accessors the supervisory logic reads.

use vstd::prelude::*;

verus! {

// Protection monitor, system status register: one bit per latched event.
pub const SYS_STAT_CC_READY: u8 = 0x80;
pub const SYS_STAT_DEVICE_XREADY: u8 = 0x20;
pub const SYS_STAT_OVRD_ALERT: u8 = 0x10;
pub const SYS_STAT_UV: u8 = 0x08;
pub const SYS_STAT_OV: u8 = 0x04;
pub const SYS_STAT_SCD: u8 = 0x02;
pub const SYS_STAT_OCD: u8 = 0x01;

// Protection monitor, system control 2 register: FET drive bits.
pub const SYS_CTRL2_DSG_ON: u8 = 0x02;
pub const SYS_CTRL2_CHG_ON: u8 = 0x01;

// Charger, status register high byte.
pub const CHARGER_STAT_AC: u8 = 0x80;
pub const CHARGER_STAT_ICO_DONE: u8 = 0x40;
pub const CHARGER_STAT_IN_VINDPM: u8 = 0x10;
pub const CHARGER_STAT_IN_IIN_DPM: u8 = 0x08;
pub const CHARGER_STAT_IN_FCHRG: u8 = 0x04;
pub const CHARGER_STAT_IN_PCHRG: u8 = 0x02;
pub const CHARGER_STAT_IN_OTG: u8 = 0x01;

// Charger, status register low byte: fault latches.
pub const CHARGER_FAULT_ACOV: u8 = 0x80;
pub const CHARGER_FAULT_BATOC: u8 = 0x40;
pub const CHARGER_FAULT_ACOC: u8 = 0x20;
pub const CHARGER_FAULT_SYSOVP: u8 = 0x10;
pub const CHARGER_FAULT_VSYS_UVP: u8 = 0x08;
pub const CHARGER_FAULT_FORCE_CONVERTER_OFF: u8 = 0x04;
pub const CHARGER_FAULT_OTG_OVP: u8 = 0x02;
pub const CHARGER_FAULT_OTG_UVP: u8 = 0x01;

// Charger, charge option 0 register.
pub const CHARGE_OPTION0_LSB_CHRG_INHIBIT: u8 = 0x01;
pub const CHARGE_OPTION0_LSB_IADPT_GAIN: u8 = 0x10;
pub const CHARGE_OPTION0_MSB_EN_LWPWR: u8 = 0x80;

// Charger, charge option 3 register high byte: boost-mode enable.
pub const CHARGE_OPTION3_MSB_EN_OTG: u8 = 0x10;

/// Latched event flags of the protection monitor's status register.
#[derive(Clone, Copy, Debug, PartialEq, Eq, Structural)]
pub struct SystemStatus(pub u8);

impl SystemStatus {
    pub fn new(bits: u8) -> (r: Self)
        ensures
            r.0 == bits,
    {
        SystemStatus(bits)
    }

    /// Cell-overvoltage latch.
    pub open spec fn spec_ov(&self) -> bool {
        self.0 & SYS_STAT_OV != 0
    }

    /// Cell-undervoltage latch.
    pub open spec fn spec_uv(&self) -> bool {
        self.0 & SYS_STAT_UV != 0
    }

    /// Short-circuit-discharge latch.
    pub open spec fn spec_scd(&self) -> bool {
        self.0 & SYS_STAT_SCD != 0
    }

    /// Overcurrent-discharge latch.
    pub open spec fn spec_ocd(&self) -> bool {
        self.0 & SYS_STAT_OCD != 0
    }

    pub fn ov(&self) -> (r: bool)
        ensures
            r == self.spec_ov(),
    {
        self.0 & SYS_STAT_OV != 0
    }

    pub fn uv(&self) -> (r: bool)
        ensures
            r == self.spec_uv(),
    {
        self.0 & SYS_STAT_UV != 0
    }

    pub fn scd(&self) -> (r: bool)
        ensures
            r == self.spec_scd(),
    {
        self.0 & SYS_STAT_SCD != 0
    }

    pub fn ocd(&self) -> (r: bool)
        ensures
            r == self.spec_ocd(),
    {
        self.0 & SYS_STAT_OCD != 0
    }
}

impl Default for SystemStatus {
    fn default() -> (r: Self)
        ensures
            r.0 == 0,
    {
        SystemStatus(0)
    }
}

/// FET drive state read back from the protection monitor's control register.
#[derive(Clone, Copy, Debug, PartialEq, Eq, Structural)]
pub struct MosStatus(pub u8);

impl MosStatus {
    pub fn new(bits: u8) -> (r: Self)
        ensures
            r.0 == bits,
    {
        MosStatus(bits)
    }

    /// Charge FET currently driven on.
    pub open spec fn spec_chg_on(&self) -> bool {
        self.0 & SYS_CTRL2_CHG_ON != 0
    }

    /// Discharge FET currently driven on.
    pub open spec fn spec_dsg_on(&self) -> bool {
        self.0 & SYS_CTRL2_DSG_ON != 0
    }

    pub fn chg_on(&self) -> (r: bool)
        ensures
            r == self.spec_chg_on(),
    {
        self.0 & SYS_CTRL2_CHG_ON != 0
    }

    pub fn dsg_on(&self) -> (r: bool)
        ensures
            r == self.spec_dsg_on(),
    {
        self.0 & SYS_CTRL2_DSG_ON != 0
    }
}

impl Default for MosStatus {
    fn default() -> (r: Self)
        ensures
            r.0 == 0,
    {
        MosStatus(0)
    }
}

/// Charger status: operating flags in the high byte, fault latches in the low byte.
#[derive(Clone, Copy, Debug, PartialEq, Eq, Structural)]
pub struct ChargerStatus {
    pub status_flags: u8,
    pub fault_flags: u8,
}

impl ChargerStatus {
    pub fn new(status_flags: u8, fault_flags: u8) -> (r: Self)
        ensures
            r.status_flags == status_flags,
            r.fault_flags == fault_flags,
    {
        ChargerStatus { status_flags, fault_flags }
    }

    /// System-overvoltage fault latch is set.
    pub open spec fn spec_fault_sysovp(&self) -> bool {
        self.fault_flags & CHARGER_FAULT_SYSOVP != 0
    }

    pub fn fault_sysovp(&self) -> (r: bool)
        ensures
            r == self.spec_fault_sysovp(),
    {
        self.fault_flags & CHARGER_FAULT_SYSOVP != 0
    }

    /// Both register bytes packed with the status byte on top.
    pub open spec fn spec_to_u16(&self) -> int {
        (self.status_flags as int) * 256 + (self.fault_flags as int)
    }

    pub fn to_u16(&self) -> (r: u16)
        ensures
            r == self.spec_to_u16(),
    {
        (self.status_flags as u16) * 256 + (self.fault_flags as u16)
    }
}

impl Default for ChargerStatus {
    fn default() -> (r: Self)
        ensures
            r.status_flags == 0,
            r.fault_flags == 0,
    {
        ChargerStatus { status_flags: 0, fault_flags: 0 }
    }
}

/// Throttle-request status: trigger causes and asserted-width counter bits.
#[derive(Clone, Copy, Debug, PartialEq, Eq, Structural)]
pub struct ProchotStatus {
    pub msb_flags: u8,
    pub lsb_flags: u8,
}

impl ProchotStatus {
    pub fn new(msb_flags: u8, lsb_flags: u8) -> (r: Self)
        ensures
            r.msb_flags == msb_flags,
            r.lsb_flags == lsb_flags,
    {
        ProchotStatus { msb_flags, lsb_flags }
    }

    /// Both register bytes packed with the high byte on top.
    pub open spec fn spec_to_u16(&self) -> int {
        (self.msb_flags as int) * 256 + (self.lsb_flags as int)
    }

    pub fn to_u16(&self) -> (r: u16)
        ensures
            r == self.spec_to_u16(),
    {
        (self.msb_flags as u16) * 256 + (self.lsb_flags as u16)
    }
}

impl Default for ProchotStatus {
    fn default() -> (r: Self)
        ensures
            r.msb_flags == 0,
            r.lsb_flags == 0,
    {
        ProchotStatus { msb_flags: 0, lsb_flags: 0 }
    }
}

} // verus!
