//! Fault injection and simulated diagnostics.

use vstd::prelude::*;

use crate::bits::{q15_in_unit, F32Bits, F64Bits, F32_ONE};
use crate::orion::{OrionFaultLevel, OrionFaultPacket, OrionFaultType};

verus! {

// ── Noise ──────────────────────────────────────────────────────────────

/// The next state of the noise generator.
pub open spec fn lcg_next(seed: u32) -> u32 {
    ((seed * 1_664_525 + 1_013_904_223) % 0x1_0000_0000) as u32
}

/// The noise of a state, in units of 1/32768.
pub open spec fn noise_of(seed: u32) -> int {
    seed / 0x1_0000 - 32768
}

/// Noise from -1 up to 1. Moves the generator to its next state.
pub fn lcg_noise_f32(seed: &mut u32) -> (r: F32Bits)
    ensures
        *final(seed) == lcg_next(*old(seed)),
        r.is_q15(noise_of(lcg_next(*old(seed)))),
        (F32Bits { bits: 0xbf80_0000 }).at_most(r),
        r.at_most(F32Bits { bits: F32_ONE }),
{
    let product: u64 = (*seed as u64) * 1_664_525;
    *seed = ((product + 1_013_904_223) % 0x1_0000_0000) as u32;
    let numerator: i32 = (*seed / 0x1_0000) as i32 - 32768;
    let r = F32Bits::from_q15(numerator);
    proof {
        q15_in_unit(r, numerator as int);
    }
    r
}

// ── Faults ─────────────────────────────────────────────────────────────

/// The faults that are injected.
#[derive(Debug, Clone, Copy, PartialEq, Eq, Structural)]
pub struct FaultState {
    /// No position.
    pub gps_loss: bool,
    /// No motion.
    pub motor_fault: bool,
    /// No angular rates.
    pub imu_dropout: bool,
    /// High temperatures; slewing is throttled.
    pub thermal_warning: bool,
    /// Noisy position.
    pub degraded_gps: bool,
    /// Strength of the position noise.
    pub gps_noise_std: F64Bits,
    /// The angles are reported frozen.
    pub encoder_fault: bool,
    /// Pan that a frozen encoder reports (rad).
    pub frozen_pan: F32Bits,
    /// Tilt that a frozen encoder reports (rad).
    pub frozen_tilt: F32Bits,
    /// No laser range.
    pub laser_fault: bool,
    /// Time since the start (s).
    pub uptime_secs: F32Bits,
}

impl Default for FaultState {
    /// No faults.
    fn default() -> (r: Self)
        ensures
            r == FaultState::nominal(),
    {
        FaultState {
            gps_loss: false,
            motor_fault: false,
            imu_dropout: false,
            thermal_warning: false,
            degraded_gps: false,
            gps_noise_std: F64Bits::from_bits(0),
            encoder_fault: false,
            frozen_pan: F32Bits::from_bits(0),
            frozen_tilt: F32Bits::from_bits(0),
            laser_fault: false,
            uptime_secs: F32Bits::from_bits(0),
        }
    }
}

/// What one reading of the diagnostics is made of. The reading is `nominal`, plus
/// `drift_share` times the drift of the temperatures, plus `rise`, plus `noise`
/// times `noise_scale`, added in this order.
#[derive(Debug, Clone, Copy, PartialEq, Eq, Structural)]
pub struct Reading {
    pub nominal: F32Bits,
    pub drift_share: F32Bits,
    /// What the faults add.
    pub rise: F32Bits,
    pub noise: F32Bits,
    pub noise_scale: F32Bits,
}

/// What the diagnostics are made of: voltages (V), currents (A), their variances,
/// temperatures (degrees Celsius) and humidity (percent).
#[derive(Debug, Clone, Copy, PartialEq, Eq, Structural)]
pub struct DiagnosticsPlan {
    /// Warm-up of the temperatures, at most 20 degrees.
    pub temp_drift: F32Bits,
    pub voltage24: Reading,
    pub voltage12: Reading,
    pub voltage3v3: Reading,
    pub current24: Reading,
    pub current12: Reading,
    pub current3v3: Reading,
    pub crown_temp: Reading,
    /// By how much the SLA temperature lies below that of the crown.
    pub sla_drop: F32Bits,
    pub gyro_temp: Reading,
    pub voltage24var: Reading,
    pub voltage12var: Reading,
    pub voltage3v3var: Reading,
    pub current24var: Reading,
    pub current12var: Reading,
    pub current3v3var: Reading,
    pub payload_temp: Reading,
    pub payload_humidity: Reading,
    pub current_laser: Reading,
}

/// The state of the noise generator after `n` draws.
pub open spec fn lcg_after(seed: u32, n: nat) -> u32
    decreases n,
{
    if n == 0 {
        seed
    } else {
        lcg_next(lcg_after(seed, (n - 1) as nat))
    }
}

/// `r` is draw number `n` of a generator that starts at `seed`.
pub open spec fn is_draw(r: F32Bits, seed: u32, n: nat) -> bool {
    r.is_q15(noise_of(lcg_after(seed, n)))
}

/// `r` is the magnitude of draw number `n`.
pub open spec fn is_draw_size(r: F32Bits, seed: u32, n: nat) -> bool {
    exists|d: F32Bits| #[trigger] is_draw(d, seed, n) && r == d.spec_abs()
}

/// A number where a flag is set, and zero where it is not.
pub open spec fn where_set(set: bool, bits: u32) -> F32Bits {
    if set {
        F32Bits { bits }
    } else {
        F32Bits { bits: 0 }
    }
}

/// A number where a flag is set, and zero where it is not.
fn bits_where(set: bool, bits: u32) -> (r: F32Bits)
    ensures
        r == where_set(set, bits),
{
    if set {
        F32Bits::from_bits(bits)
    } else {
        F32Bits::from_bits(0)
    }
}

/// 20.0, the most that temperatures drift.
pub const MAX_DRIFT: u32 = 0x41A0_0000;

/// 30.0, under a thermal warning.
pub const THERMAL_RISE: u32 = 0x41F0_0000;

/// 15.0, under an IMU dropout.
pub const DROPOUT_RISE: u32 = 0x4170_0000;

/// -2.0, under a motor fault.
pub const MOTOR_SAG: u32 = 0xC000_0000;

/// 2.5, under a motor fault.
pub const MOTOR_CURRENT: u32 = 0x4020_0000;

/// 24.0.
pub const NOMINAL_V24: u32 = 0x41C0_0000;

/// 12.0.
pub const NOMINAL_V12: u32 = 0x4140_0000;

/// 3.3.
pub const NOMINAL_V3V3: u32 = 0x4053_3333;

/// 1.2.
pub const NOMINAL_I24: u32 = 0x3F99_999A;

/// 0.8.
pub const NOMINAL_I12: u32 = 0x3F4C_CCCD;

/// 0.4.
pub const NOMINAL_I3V3: u32 = 0x3ECC_CCCD;

/// 45.0.
pub const NOMINAL_CROWN_TEMP: u32 = 0x4234_0000;

/// 55.0.
pub const NOMINAL_GYRO_TEMP: u32 = 0x425C_0000;

/// 40.0.
pub const NOMINAL_PAYLOAD_TEMP: u32 = 0x4220_0000;

/// 30.0.
pub const NOMINAL_HUMIDITY: u32 = 0x41F0_0000;

/// 5.0.
pub const SLA_DROP: u32 = 0x40A0_0000;

/// 0.01.
pub const I24_VAR: u32 = 0x3C23_D70A;

/// 0.005.
pub const I12_VAR: u32 = 0x3BA3_D70A;

/// 0.002.
pub const I3V3_VAR: u32 = 0x3B03_126F;

/// 0.8.
pub const GYRO_DRIFT_SHARE: u32 = 0x3F4C_CCCD;

/// 0.6.
pub const PAYLOAD_DRIFT_SHARE: u32 = 0x3F19_999A;

/// 0.05.
pub const V24_NOISE: u32 = 0x3D4C_CCCD;

/// 0.02.
pub const V12_NOISE: u32 = 0x3CA3_D70A;

/// 0.01.
pub const V3V3_NOISE: u32 = 0x3C23_D70A;

/// 0.5.
pub const CROWN_NOISE: u32 = 0x3F00_0000;

/// 0.3.
pub const GYRO_NOISE: u32 = 0x3E99_999A;

/// 0.4.
pub const PAYLOAD_NOISE: u32 = 0x3ECC_CCCD;

/// 0.002.
pub const V24_VAR_NOISE: u32 = 0x3B03_126F;

/// 0.001.
pub const V12_VAR_NOISE: u32 = 0x3A83_126F;

/// 0.0005.
pub const V3V3_VAR_NOISE: u32 = 0x3A03_126F;

/// 2.0.
pub const HUMIDITY_NOISE: u32 = 0x4000_0000;

/// A reading with noise and a fault: everything of `r` but its noise.
pub open spec fn is_made_of(
    r: Reading,
    nominal: u32,
    drift_share: u32,
    rise: F32Bits,
    noise_scale: u32,
) -> bool {
    &&& r.nominal == (F32Bits { bits: nominal })
    &&& r.drift_share == (F32Bits { bits: drift_share })
    &&& r.rise == rise
    &&& r.noise_scale == (F32Bits { bits: noise_scale })
}

/// A reading that never changes.
pub open spec fn constant_reading(nominal: u32) -> Reading {
    let zero = F32Bits { bits: 0 };
    Reading {
        nominal: F32Bits { bits: nominal },
        drift_share: zero,
        rise: zero,
        noise: zero,
        noise_scale: zero,
    }
}

/// A reading of the given parts.
fn reading(
    nominal: u32,
    drift_share: u32,
    rise: F32Bits,
    noise: F32Bits,
    noise_scale: u32,
) -> (r: Reading)
    ensures
        is_made_of(r, nominal, drift_share, rise, noise_scale),
        r.noise == noise,
{
    Reading {
        nominal: F32Bits::from_bits(nominal),
        drift_share: F32Bits::from_bits(drift_share),
        rise,
        noise,
        noise_scale: F32Bits::from_bits(noise_scale),
    }
}

/// A reading that never changes.
fn constant(nominal: u32) -> (r: Reading)
    ensures
        r == constant_reading(nominal),
{
    let zero = F32Bits::from_bits(0);
    reading(nominal, 0, zero, zero, 0)
}

/// Whatever of `plan` does not depend on chance, for the given faults.
pub open spec fn diagnoses(plan: DiagnosticsPlan, faults: FaultState) -> bool {
    let zero = F32Bits { bits: 0 };
    &&& is_made_of(
        plan.voltage24,
        NOMINAL_V24,
        0,
        where_set(faults.motor_fault, MOTOR_SAG),
        V24_NOISE,
    )
    &&& is_made_of(plan.voltage12, NOMINAL_V12, 0, zero, V12_NOISE)
    &&& is_made_of(plan.voltage3v3, NOMINAL_V3V3, 0, zero, V3V3_NOISE)
    &&& is_made_of(
        plan.current24,
        NOMINAL_I24,
        0,
        where_set(faults.motor_fault, MOTOR_CURRENT),
        0,
    )
    &&& plan.current24.noise == zero
    &&& plan.current12 == constant_reading(NOMINAL_I12)
    &&& plan.current3v3 == constant_reading(NOMINAL_I3V3)
    &&& is_made_of(
        plan.crown_temp,
        NOMINAL_CROWN_TEMP,
        F32_ONE,
        where_set(faults.thermal_warning, THERMAL_RISE),
        CROWN_NOISE,
    )
    &&& plan.sla_drop == (F32Bits { bits: SLA_DROP })
    &&& is_made_of(
        plan.gyro_temp,
        NOMINAL_GYRO_TEMP,
        GYRO_DRIFT_SHARE,
        where_set(faults.imu_dropout, DROPOUT_RISE),
        GYRO_NOISE,
    )
    &&& is_made_of(plan.voltage24var, 0, 0, zero, V24_VAR_NOISE)
    &&& is_made_of(plan.voltage12var, 0, 0, zero, V12_VAR_NOISE)
    &&& is_made_of(plan.voltage3v3var, 0, 0, zero, V3V3_VAR_NOISE)
    &&& plan.current24var == constant_reading(I24_VAR)
    &&& plan.current12var == constant_reading(I12_VAR)
    &&& plan.current3v3var == constant_reading(I3V3_VAR)
    &&& is_made_of(
        plan.payload_temp,
        NOMINAL_PAYLOAD_TEMP,
        PAYLOAD_DRIFT_SHARE,
        where_set(faults.thermal_warning, THERMAL_RISE),
        PAYLOAD_NOISE,
    )
    &&& is_made_of(plan.payload_humidity, NOMINAL_HUMIDITY, 0, zero, HUMIDITY_NOISE)
    &&& plan.current_laser == constant_reading(0)
}

/// The warm-up of the temperatures after so many minutes.
pub open spec fn drift_of(warm_up: F32Bits) -> F32Bits {
    warm_up.spec_min(F32Bits { bits: MAX_DRIFT })
}

/// The noise of each reading is the draw that belongs to it.
pub open spec fn takes_draws(plan: DiagnosticsPlan, seed: u32) -> bool {
    &&& is_draw(plan.crown_temp.noise, seed, 1)
    &&& is_draw(plan.gyro_temp.noise, seed, 2)
    &&& is_draw(plan.payload_temp.noise, seed, 3)
    &&& is_draw(plan.voltage24.noise, seed, 4)
    &&& is_draw(plan.voltage12.noise, seed, 5)
    &&& is_draw(plan.voltage3v3.noise, seed, 6)
    &&& is_draw_size(plan.voltage24var.noise, seed, 7)
    &&& is_draw_size(plan.voltage12var.noise, seed, 8)
    &&& is_draw_size(plan.voltage3v3var.noise, seed, 9)
    &&& is_draw(plan.payload_humidity.noise, seed, 10)
}

impl FaultState {
    /// No faults.
    pub open spec fn nominal() -> FaultState {
        FaultState {
            gps_loss: false,
            motor_fault: false,
            imu_dropout: false,
            thermal_warning: false,
            degraded_gps: false,
            gps_noise_std: F64Bits { bits: 0 },
            encoder_fault: false,
            frozen_pan: F32Bits { bits: 0 },
            frozen_tilt: F32Bits { bits: 0 },
            laser_fault: false,
            uptime_secs: F32Bits { bits: 0 },
        }
    }

    /// With or without a loss of GPS.
    pub open spec fn with_gps_loss(self, on: bool) -> FaultState {
        FaultState { gps_loss: on, ..self }
    }

    /// With or without a motor fault.
    pub open spec fn with_motor_fault(self, on: bool) -> FaultState {
        FaultState { motor_fault: on, ..self }
    }

    /// With or without a dropout of the IMU.
    pub open spec fn with_imu_dropout(self, on: bool) -> FaultState {
        FaultState { imu_dropout: on, ..self }
    }

    /// With or without a thermal warning.
    pub open spec fn with_thermal(self, on: bool) -> FaultState {
        FaultState { thermal_warning: on, ..self }
    }

    /// With or without a laser fault.
    pub open spec fn with_laser_fault(self, on: bool) -> FaultState {
        FaultState { laser_fault: on, ..self }
    }

    /// With noise of this strength on the position.
    pub open spec fn with_noisy_gps(self, std: F64Bits) -> FaultState {
        FaultState { degraded_gps: true, gps_noise_std: std, ..self }
    }

    /// Without noise on the position.
    pub open spec fn with_clean_gps(self) -> FaultState {
        FaultState { degraded_gps: false, ..self }
    }

    /// With the reported angles frozen.
    pub open spec fn with_frozen(self, pan: F32Bits, tilt: F32Bits) -> FaultState {
        FaultState { encoder_fault: true, frozen_pan: pan, frozen_tilt: tilt, ..self }
    }

    /// With the reported angles free.
    pub open spec fn with_freed(self) -> FaultState {
        FaultState { encoder_fault: false, ..self }
    }

    /// Without any fault.
    pub open spec fn cleared(self) -> FaultState {
        FaultState {
            gps_loss: false,
            motor_fault: false,
            imu_dropout: false,
            thermal_warning: false,
            degraded_gps: false,
            encoder_fault: false,
            laser_fault: false,
            ..self
        }
    }

    /// At another time.
    pub open spec fn at_time(self, uptime_secs: F32Bits) -> FaultState {
        FaultState { uptime_secs, ..self }
    }

    /// Moves the time on to `uptime_secs`.
    pub fn tick(&mut self, uptime_secs: F32Bits)
        ensures
            *final(self) == old(self).at_time(uptime_secs),
            *final(self) == (FaultState { uptime_secs, ..*old(self) }),
    {
        self.uptime_secs = uptime_secs;
    }

    pub fn inject_gps_loss(&mut self)
        ensures
            *final(self) == old(self).with_gps_loss(true),
            *final(self) == (FaultState { gps_loss: true, ..*old(self) }),
    {
        self.gps_loss = true;
    }

    pub fn clear_gps_loss(&mut self)
        ensures
            *final(self) == old(self).with_gps_loss(false),
            *final(self) == (FaultState { gps_loss: false, ..*old(self) }),
    {
        self.gps_loss = false;
    }

    pub fn inject_motor_fault(&mut self)
        ensures
            *final(self) == old(self).with_motor_fault(true),
            *final(self) == (FaultState { motor_fault: true, ..*old(self) }),
    {
        self.motor_fault = true;
    }

    pub fn clear_motor_fault(&mut self)
        ensures
            *final(self) == old(self).with_motor_fault(false),
            *final(self) == (FaultState { motor_fault: false, ..*old(self) }),
    {
        self.motor_fault = false;
    }

    pub fn inject_imu_dropout(&mut self)
        ensures
            *final(self) == old(self).with_imu_dropout(true),
            *final(self) == (FaultState { imu_dropout: true, ..*old(self) }),
    {
        self.imu_dropout = true;
    }

    pub fn clear_imu_dropout(&mut self)
        ensures
            *final(self) == old(self).with_imu_dropout(false),
            *final(self) == (FaultState { imu_dropout: false, ..*old(self) }),
    {
        self.imu_dropout = false;
    }

    pub fn inject_thermal(&mut self)
        ensures
            *final(self) == old(self).with_thermal(true),
            *final(self) == (FaultState { thermal_warning: true, ..*old(self) }),
    {
        self.thermal_warning = true;
    }

    pub fn clear_thermal(&mut self)
        ensures
            *final(self) == old(self).with_thermal(false),
            *final(self) == (FaultState { thermal_warning: false, ..*old(self) }),
    {
        self.thermal_warning = false;
    }

    /// Adds noise of the given strength to the reported position.
    pub fn inject_degraded_gps(&mut self, std: F64Bits)
        ensures
            *final(self) == old(self).with_noisy_gps(std),
            *final(self) == (FaultState { degraded_gps: true, gps_noise_std: std, ..*old(self) }),
    {
        self.degraded_gps = true;
        self.gps_noise_std = std;
    }

    pub fn clear_degraded_gps(&mut self)
        ensures
            *final(self) == old(self).with_clean_gps(),
            *final(self) == (FaultState { degraded_gps: false, ..*old(self) }),
    {
        self.degraded_gps = false;
    }

    /// Freezes the reported angles.
    pub fn inject_encoder_fault(&mut self, pan: F32Bits, tilt: F32Bits)
        ensures
            *final(self) == old(self).with_frozen(pan, tilt),
            *final(self) == (FaultState {
                encoder_fault: true,
                frozen_pan: pan,
                frozen_tilt: tilt,
                ..*old(self)
            }),
    {
        self.encoder_fault = true;
        self.frozen_pan = pan;
        self.frozen_tilt = tilt;
    }

    pub fn clear_encoder_fault(&mut self)
        ensures
            *final(self) == old(self).with_freed(),
            *final(self) == (FaultState { encoder_fault: false, ..*old(self) }),
    {
        self.encoder_fault = false;
    }

    pub fn inject_laser_fault(&mut self)
        ensures
            *final(self) == old(self).with_laser_fault(true),
            *final(self) == (FaultState { laser_fault: true, ..*old(self) }),
    {
        self.laser_fault = true;
    }

    pub fn clear_laser_fault(&mut self)
        ensures
            *final(self) == old(self).with_laser_fault(false),
            *final(self) == (FaultState { laser_fault: false, ..*old(self) }),
    {
        self.laser_fault = false;
    }

    /// Clears every fault; the time goes on.
    pub fn clear_all(&mut self)
        ensures
            *final(self) == old(self).cleared(),
            *final(self) == (FaultState {
                gps_loss: false,
                motor_fault: false,
                imu_dropout: false,
                thermal_warning: false,
                degraded_gps: false,
                encoder_fault: false,
                laser_fault: false,
                ..*old(self)
            }),
    {
        self.gps_loss = false;
        self.motor_fault = false;
        self.imu_dropout = false;
        self.thermal_warning = false;
        self.degraded_gps = false;
        self.encoder_fault = false;
        self.laser_fault = false;
    }

    /// What the next diagnostics are made of. `warm_up` is the uptime in minutes.
    /// Ten draws of noise are taken.
    pub fn build_diagnostics(&self, warm_up: F32Bits, noise_seed: &mut u32) -> (r: DiagnosticsPlan)
        ensures
            *final(noise_seed) == lcg_after(*old(noise_seed), 10),
            r.temp_drift == drift_of(warm_up),
            r.temp_drift == warm_up.spec_min(F32Bits { bits: MAX_DRIFT }),
            diagnoses(r, *self),
            takes_draws(r, *old(noise_seed)),
            is_draw(r.crown_temp.noise, *old(noise_seed), 1),
            is_draw(r.gyro_temp.noise, *old(noise_seed), 2),
            is_draw(r.payload_temp.noise, *old(noise_seed), 3),
            is_draw(r.voltage24.noise, *old(noise_seed), 4),
            is_draw(r.voltage12.noise, *old(noise_seed), 5),
            is_draw(r.voltage3v3.noise, *old(noise_seed), 6),
            is_draw_size(r.voltage24var.noise, *old(noise_seed), 7),
            is_draw_size(r.voltage12var.noise, *old(noise_seed), 8),
            is_draw_size(r.voltage3v3var.noise, *old(noise_seed), 9),
            is_draw(r.payload_humidity.noise, *old(noise_seed), 10),
    {
        proof {
            reveal_with_fuel(lcg_after, 11);
        }
        let ghost seed = *noise_seed;
        let crown = lcg_noise_f32(noise_seed);
        let gyro = lcg_noise_f32(noise_seed);
        let payload = lcg_noise_f32(noise_seed);
        let v24 = lcg_noise_f32(noise_seed);
        let v12 = lcg_noise_f32(noise_seed);
        let v3v3 = lcg_noise_f32(noise_seed);
        let v24var = lcg_noise_f32(noise_seed);
        let v12var = lcg_noise_f32(noise_seed);
        let v3v3var = lcg_noise_f32(noise_seed);
        let humidity = lcg_noise_f32(noise_seed);
        proof {
            assert(is_draw(v24var, seed, 7));
            assert(is_draw(v12var, seed, 8));
            assert(is_draw(v3v3var, seed, 9));
        }
        let zero = F32Bits::from_bits(0);
        let hot = bits_where(self.thermal_warning, THERMAL_RISE);
        let dropout = bits_where(self.imu_dropout, DROPOUT_RISE);
        let sag = bits_where(self.motor_fault, MOTOR_SAG);
        let stall = bits_where(self.motor_fault, MOTOR_CURRENT);
        DiagnosticsPlan {
            temp_drift: warm_up.min(F32Bits::from_bits(MAX_DRIFT)),
            voltage24: reading(NOMINAL_V24, 0, sag, v24, V24_NOISE),
            voltage12: reading(NOMINAL_V12, 0, zero, v12, V12_NOISE),
            voltage3v3: reading(NOMINAL_V3V3, 0, zero, v3v3, V3V3_NOISE),
            current24: reading(NOMINAL_I24, 0, stall, zero, 0),
            current12: constant(NOMINAL_I12),
            current3v3: constant(NOMINAL_I3V3),
            crown_temp: reading(NOMINAL_CROWN_TEMP, F32_ONE, hot, crown, CROWN_NOISE),
            sla_drop: F32Bits::from_bits(SLA_DROP),
            gyro_temp: reading(NOMINAL_GYRO_TEMP, GYRO_DRIFT_SHARE, dropout, gyro, GYRO_NOISE),
            voltage24var: reading(0, 0, zero, v24var.abs(), V24_VAR_NOISE),
            voltage12var: reading(0, 0, zero, v12var.abs(), V12_VAR_NOISE),
            voltage3v3var: reading(0, 0, zero, v3v3var.abs(), V3V3_VAR_NOISE),
            current24var: constant(I24_VAR),
            current12var: constant(I12_VAR),
            current3v3var: constant(I3V3_VAR),
            payload_temp: reading(
                NOMINAL_PAYLOAD_TEMP,
                PAYLOAD_DRIFT_SHARE,
                hot,
                payload,
                PAYLOAD_NOISE,
            ),
            payload_humidity: reading(NOMINAL_HUMIDITY, 0, zero, humidity, HUMIDITY_NOISE),
            current_laser: constant(0),
        }
    }

    /// The report of the active faults; only a motor fault is reported.
    pub open spec fn fault_packet(self) -> Option<OrionFaultPacket> {
        if self.motor_fault {
            Some(
                OrionFaultPacket {
                    type_: OrionFaultType::FaultTypeVelocityLimitExceeded,
                    level: OrionFaultLevel::FaultLevelError,
                },
            )
        } else {
            None
        }
    }

    /// The report of the active faults; only a motor fault is reported.
    pub fn build_fault_packet(&self) -> (r: Option<OrionFaultPacket>)
        ensures
            r == self.fault_packet(),
            r == (if self.motor_fault {
                Some(
                    OrionFaultPacket {
                        type_: OrionFaultType::FaultTypeVelocityLimitExceeded,
                        level: OrionFaultLevel::FaultLevelError,
                    },
                )
            } else {
                None
            }),
    {
        if self.motor_fault {
            return Some(
                OrionFaultPacket {
                    type_: OrionFaultType::FaultTypeVelocityLimitExceeded,
                    level: OrionFaultLevel::FaultLevelError,
                },
            );
        }
        None
    }
}

// ── Laws ───────────────────────────────────────────────────────────────

/// Every draw lies between -1 and 1.
pub proof fn draws_in_unit(r: F32Bits, seed: u32, n: nat)
    requires
        is_draw(r, seed, n),
    ensures
        (F32Bits { bits: 0xbf80_0000 }).at_most(r),
        r.at_most(F32Bits { bits: F32_ONE }),
{
    q15_in_unit(r, noise_of(lcg_after(seed, n)));
}

/// The same seed gives the same draws.
pub proof fn draws_deterministic(a: F32Bits, b: F32Bits, seed: u32, n: nat)
    requires
        is_draw(a, seed, n),
        is_draw(b, seed, n),
    ensures
        a == b,
{
    crate::bits::q15_unique(a, b, noise_of(lcg_after(seed, n)));
}

/// No state of the noise generator is its own successor.
pub proof fn draws_advance_seed(seed: u32)
    ensures
        lcg_next(seed) != seed,
{
    // Multiplier and increment are odd, so the lowest bit flips.
    let x = seed * 1_664_525 + 1_013_904_223;
    let q = x / 0x1_0000_0000;
    if lcg_next(seed) == seed {
        assert(x - seed == 2 * (q * 0x8000_0000));
        assert(x - seed == 2 * (seed * 832_262 + 506_952_111) + 1);
        assert(false);
    }
}

/// `a` and `b` differ at most in the fault that `but` names: 0 is GPS loss, 1 the
/// motor, 2 the IMU, 3 the temperature, 4 noise on GPS, 5 the encoder, 6 the laser.
/// The time is the same in any case.
pub open spec fn same_but(a: FaultState, b: FaultState, but: int) -> bool {
    &&& but != 0 ==> a.gps_loss == b.gps_loss
    &&& but != 1 ==> a.motor_fault == b.motor_fault
    &&& but != 2 ==> a.imu_dropout == b.imu_dropout
    &&& but != 3 ==> a.thermal_warning == b.thermal_warning
    &&& but != 4 ==> a.degraded_gps == b.degraded_gps && a.gps_noise_std == b.gps_noise_std
    &&& but != 5 ==> a.encoder_fault == b.encoder_fault && a.frozen_pan == b.frozen_pan
        && a.frozen_tilt == b.frozen_tilt
    &&& but != 6 ==> a.laser_fault == b.laser_fault
    &&& a.uptime_secs == b.uptime_secs
}

/// Each fault can be injected and cleared without touching any other.
pub proof fn faults_are_independent(
    f: FaultState,
    on: bool,
    std: F64Bits,
    pan: F32Bits,
    tilt: F32Bits,
)
    ensures
        f.with_gps_loss(on).gps_loss == on && same_but(f.with_gps_loss(on), f, 0),
        f.with_motor_fault(on).motor_fault == on && same_but(f.with_motor_fault(on), f, 1),
        f.with_imu_dropout(on).imu_dropout == on && same_but(f.with_imu_dropout(on), f, 2),
        f.with_thermal(on).thermal_warning == on && same_but(f.with_thermal(on), f, 3),
        f.with_noisy_gps(std).degraded_gps && same_but(f.with_noisy_gps(std), f, 4),
        f.with_noisy_gps(std).gps_noise_std == std,
        !f.with_clean_gps().degraded_gps && same_but(f.with_clean_gps(), f, 4),
        f.with_frozen(pan, tilt).encoder_fault && same_but(f.with_frozen(pan, tilt), f, 5),
        f.with_frozen(pan, tilt).frozen_pan == pan,
        f.with_frozen(pan, tilt).frozen_tilt == tilt,
        !f.with_freed().encoder_fault && same_but(f.with_freed(), f, 5),
        f.with_laser_fault(on).laser_fault == on && same_but(f.with_laser_fault(on), f, 6),
{
}

/// Clearing a fault undoes injecting it.
pub proof fn clearing_undoes_injecting(f: FaultState)
    ensures
        !f.gps_loss ==> f.with_gps_loss(true).with_gps_loss(false) == f,
        !f.motor_fault ==> f.with_motor_fault(true).with_motor_fault(false) == f,
        !f.imu_dropout ==> f.with_imu_dropout(true).with_imu_dropout(false) == f,
        !f.thermal_warning ==> f.with_thermal(true).with_thermal(false) == f,
        !f.laser_fault ==> f.with_laser_fault(true).with_laser_fault(false) == f,
{
}

/// Clearing everything leaves no fault, whatever there was, and keeps the time; time
/// passing changes no fault.
pub proof fn all_faults_cleared(f: FaultState, uptime_secs: F32Bits)
    ensures
        !f.cleared().gps_loss,
        !f.cleared().motor_fault,
        !f.cleared().imu_dropout,
        !f.cleared().thermal_warning,
        !f.cleared().degraded_gps,
        !f.cleared().encoder_fault,
        !f.cleared().laser_fault,
        f.cleared().uptime_secs == f.uptime_secs,
        f.at_time(uptime_secs).uptime_secs == uptime_secs,
        same_but(f.at_time(uptime_secs).at_time(f.uptime_secs), f, -1),
        f.at_time(uptime_secs).cleared() == f.cleared().at_time(uptime_secs),
        FaultState::nominal().cleared() == FaultState::nominal(),
{
}

/// Each fault shows in its own readings, and in no others: a motor fault lowers the
/// main voltage and raises the main current, a thermal warning raises the temperatures
/// of crown and payload, a dropout that of the gyro.
pub proof fn faults_show_in_their_readings(plan: DiagnosticsPlan, faults: FaultState)
    requires
        diagnoses(plan, faults),
    ensures
        plan.voltage24.rise.rank() < 0 <==> faults.motor_fault,
        plan.voltage24.rise.rank() <= 0,
        plan.current24.rise.rank() > 0 <==> faults.motor_fault,
        plan.current24.rise.rank() >= 0,
        plan.crown_temp.rise.rank() > 0 <==> faults.thermal_warning,
        plan.crown_temp.rise.rank() >= 0,
        plan.payload_temp.rise.rank() > 0 <==> faults.thermal_warning,
        plan.payload_temp.rise.rank() >= 0,
        plan.gyro_temp.rise.rank() > 0 <==> faults.imu_dropout,
        plan.gyro_temp.rise.rank() >= 0,
        plan.voltage12.rise.rank() == 0,
        plan.voltage3v3.rise.rank() == 0,
        plan.current12.rise.rank() == 0,
        plan.current3v3.rise.rank() == 0,
        plan.payload_humidity.rise.rank() == 0,
        plan.current_laser.rise.rank() == 0,
        plan.voltage24var.rise.rank() == 0,
        plan.voltage12var.rise.rank() == 0,
        plan.voltage3v3var.rise.rank() == 0,
{
}

/// Only temperatures warm up: the crown all the way, gyro and payload by a share, the
/// gyro by the larger one.
pub proof fn only_temperatures_drift(plan: DiagnosticsPlan, faults: FaultState)
    requires
        diagnoses(plan, faults),
    ensures
        plan.crown_temp.drift_share == (F32Bits { bits: F32_ONE }),
        0 < plan.payload_temp.drift_share.rank() < plan.gyro_temp.drift_share.rank()
            < plan.crown_temp.drift_share.rank(),
        plan.voltage24.drift_share.rank() == 0,
        plan.voltage12.drift_share.rank() == 0,
        plan.voltage3v3.drift_share.rank() == 0,
        plan.current24.drift_share.rank() == 0,
        plan.current12.drift_share.rank() == 0,
        plan.current3v3.drift_share.rank() == 0,
        plan.payload_humidity.drift_share.rank() == 0,
        plan.current_laser.drift_share.rank() == 0,
{
}

/// Currents and their variances are free of noise. Every other reading has some, the
/// stronger rail the more.
pub proof fn currents_are_steady(plan: DiagnosticsPlan, faults: FaultState)
    requires
        diagnoses(plan, faults),
    ensures
        plan.current24.noise.rank() == 0,
        plan.current12.noise.rank() == 0,
        plan.current3v3.noise.rank() == 0,
        plan.current24var.noise.rank() == 0,
        plan.current12var.noise.rank() == 0,
        plan.current3v3var.noise.rank() == 0,
        plan.current_laser.noise.rank() == 0,
        0 < plan.voltage3v3.noise_scale.rank() < plan.voltage12.noise_scale.rank()
            < plan.voltage24.noise_scale.rank(),
        0 < plan.voltage3v3var.noise_scale.rank() < plan.voltage12var.noise_scale.rank()
            < plan.voltage24var.noise_scale.rank(),
        0 < plan.gyro_temp.noise_scale.rank() < plan.payload_temp.noise_scale.rank()
            < plan.crown_temp.noise_scale.rank(),
        plan.payload_humidity.noise_scale.rank() > 0,
{
}

/// Without faults every rail is at its voltage and draws its current, the larger
/// voltage the larger current.
pub proof fn rails_are_in_order(plan: DiagnosticsPlan, faults: FaultState)
    requires
        diagnoses(plan, faults),
    ensures
        0 < plan.voltage3v3.nominal.rank() < plan.voltage12.nominal.rank()
            < plan.voltage24.nominal.rank(),
        0 < plan.current3v3.nominal.rank() < plan.current12.nominal.rank()
            < plan.current24.nominal.rank(),
        0 < plan.current3v3var.nominal.rank() < plan.current12var.nominal.rank()
            < plan.current24var.nominal.rank(),
        plan.payload_temp.nominal.rank() < plan.crown_temp.nominal.rank()
            < plan.gyro_temp.nominal.rank(),
        plan.voltage24var.nominal.rank() == 0,
        plan.voltage12var.nominal.rank() == 0,
        plan.voltage3v3var.nominal.rank() == 0,
        plan.current_laser.nominal.rank() == 0,
        plan.sla_drop.rank() > 0,
{
}

/// Each reading has a draw of its own, in a fixed order; a variance has the size of its
/// draw and is never negative.
pub proof fn each_reading_has_its_draw(plan: DiagnosticsPlan, seed: u32)
    requires
        takes_draws(plan, seed),
    ensures
        is_draw(plan.crown_temp.noise, seed, 1),
        is_draw(plan.gyro_temp.noise, seed, 2),
        is_draw(plan.payload_temp.noise, seed, 3),
        is_draw(plan.voltage24.noise, seed, 4),
        is_draw(plan.voltage12.noise, seed, 5),
        is_draw(plan.voltage3v3.noise, seed, 6),
        is_draw_size(plan.voltage24var.noise, seed, 7),
        is_draw_size(plan.voltage12var.noise, seed, 8),
        is_draw_size(plan.voltage3v3var.noise, seed, 9),
        is_draw(plan.payload_humidity.noise, seed, 10),
        !plan.voltage24var.noise.is_negative(),
        !plan.voltage12var.noise.is_negative(),
        !plan.voltage3v3var.noise.is_negative(),
{
}

/// The temperatures drift with the time, up to a bound: no drift is larger than it, one
/// below it is the time itself, and a longer time never means less drift.
pub proof fn drift_is_bounded(a: F32Bits, b: F32Bits)
    requires
        !a.nan(),
        !b.nan(),
    ensures
        drift_of(a).at_most(F32Bits { bits: MAX_DRIFT }),
        a.at_most(F32Bits { bits: MAX_DRIFT }) ==> drift_of(a).rank() == a.rank(),
        !a.at_most(F32Bits { bits: MAX_DRIFT }) ==> drift_of(a) == (F32Bits { bits: MAX_DRIFT }),
        a.at_most(b) ==> drift_of(a).at_most(drift_of(b)),
{
}

/// A motor fault is reported, as an error, and no other fault is.
pub proof fn only_motor_fault_is_reported(f: FaultState, g: FaultState)
    ensures
        f.fault_packet() is Some <==> f.motor_fault,
        f.fault_packet() matches Some(p) ==> {
            &&& p.level is FaultLevelError
            &&& p.type_ is FaultTypeVelocityLimitExceeded
        },
        f.motor_fault == g.motor_fault ==> f.fault_packet() == g.fault_packet(),
{
}

/// Draws go on where others stopped.
pub proof fn lcg_after_adds(seed: u32, m: nat, n: nat)
    ensures
        lcg_after(lcg_after(seed, m), n) == lcg_after(seed, m + n),
    decreases n,
{
    if n > 0 {
        lcg_after_adds(seed, m, (n - 1) as nat);
        assert(m + n - 1 == m + (n - 1));
    }
}

/// The state of the generator moves by a fixed multiple of what the state differs by:
/// two states that are `d` apart are 1664525 times `d` apart after a draw, modulo the
/// size of the state.
pub proof fn draws_scale_distance(a: u32, b: u32)
    ensures
        (lcg_next(b) - lcg_next(a) - (b - a) * 1_664_525) % 0x1_0000_0000 == 0,
        lcg_next(0) == 1_013_904_223,
{
    let x = a * 1_664_525 + 1_013_904_223;
    let y = b * 1_664_525 + 1_013_904_223;
    let (p, q) = (x / 0x1_0000_0000, y / 0x1_0000_0000);
    assert(lcg_next(a) == x - p * 0x1_0000_0000);
    assert(lcg_next(b) == y - q * 0x1_0000_0000);
    let rest = lcg_next(b) - lcg_next(a) - (b - a) * 1_664_525;
    assert(rest == (p - q) * 0x1_0000_0000);
    vstd::arithmetic::div_mod::lemma_mod_multiples_basic(p - q, 0x1_0000_0000);
}

/// Noise grows with the upper half of the state: one unit in it is one unit of noise,
/// and the middle of the range is no noise.
pub proof fn noise_is_the_upper_half(a: u32, b: u32)
    ensures
        noise_of(a) - noise_of(b) == a / 0x1_0000 - b / 0x1_0000,
        noise_of(0x8000_0000) == 0,
        -32768 <= noise_of(a) <= 32767,
{
}

} // verus!
