//! Faults, noise and diagnostics.

use cigi_trillium::bits::{F32Bits, F64Bits};
use cigi_trillium::faults::{lcg_noise_f32, FaultState, Reading, MAX_DRIFT};
use cigi_trillium::orion::{OrionFaultLevel, OrionFaultType};

fn b32(x: f32) -> F32Bits {
    F32Bits::from_bits(x.to_bits())
}

fn f32_of(x: F32Bits) -> f32 {
    f32::from_bits(x.bits)
}

struct Readings {
    voltage24: f32,
    voltage12: f32,
    voltage3v3: f32,
    crown_temp: f32,
    sla_temp: f32,
    gyro_temp: f32,
}

fn value(r: &Reading, drift: f32) -> f32 {
    f32_of(r.nominal)
        + drift * f32_of(r.drift_share)
        + f32_of(r.rise)
        + f32_of(r.noise) * f32_of(r.noise_scale)
}

fn readings(fs: &FaultState, seed: &mut u32) -> Readings {
    let p = fs.build_diagnostics(b32(f32_of(fs.uptime_secs) / 60.0), seed);
    let drift = f32_of(p.temp_drift);
    Readings {
        voltage24: value(&p.voltage24, drift),
        voltage12: value(&p.voltage12, drift),
        voltage3v3: value(&p.voltage3v3, drift),
        crown_temp: value(&p.crown_temp, drift),
        sla_temp: value(&p.crown_temp, drift) - f32_of(p.sla_drop),
        gyro_temp: value(&p.gyro_temp, drift),
    }
}

// ── Noise ─────────────────────────────────────────────────────────────────

#[test]
fn lcg_noise_range() {
    let mut seed = 0xABCD_1234u32;
    for _ in 0..1000 {
        let v = f32_of(lcg_noise_f32(&mut seed));
        assert!(v >= -1.0 && v <= 1.0, "out of range: {v}");
    }
}

#[test]
fn lcg_noise_deterministic() {
    let mut s1 = 42u32;
    let mut s2 = 42u32;
    assert_eq!(lcg_noise_f32(&mut s1).bits, lcg_noise_f32(&mut s2).bits);
    assert_eq!(s1, s2);
}

#[test]
fn lcg_noise_advances_seed() {
    let mut seed = 1u32;
    let before = seed;
    lcg_noise_f32(&mut seed);
    assert_ne!(seed, before);
}

#[test]
fn lcg_noise_is_the_formula() {
    let mut seed = 0xDEAD_BEEFu32;
    let mut expected = seed;
    for _ in 0..2000 {
        expected = expected.wrapping_mul(1_664_525).wrapping_add(1_013_904_223);
        let value = ((expected >> 16) as f32 / 32768.0) - 1.0;
        assert_eq!(lcg_noise_f32(&mut seed).bits, value.to_bits());
        assert_eq!(seed, expected);
    }
}

// ── Faults ────────────────────────────────────────────────────────────────

#[test]
fn tick_accumulates_uptime() {
    let mut fs = FaultState::default();
    assert_eq!(f32_of(fs.uptime_secs), 0.0);
    fs.tick(b32(f32_of(fs.uptime_secs) + 0.5));
    assert!((f32_of(fs.uptime_secs) - 0.5).abs() < 1e-6);
    fs.tick(b32(f32_of(fs.uptime_secs) + 1.5));
    assert!((f32_of(fs.uptime_secs) - 2.0).abs() < 1e-6);
}

#[test]
fn inject_and_clear_gps_loss() {
    let mut fs = FaultState::default();
    assert!(!fs.gps_loss);
    fs.inject_gps_loss();
    assert!(fs.gps_loss);
    fs.clear_gps_loss();
    assert!(!fs.gps_loss);
}

#[test]
fn inject_and_clear_motor_fault() {
    let mut fs = FaultState::default();
    fs.inject_motor_fault();
    assert!(fs.motor_fault);
    fs.clear_motor_fault();
    assert!(!fs.motor_fault);
}

#[test]
fn inject_and_clear_imu_dropout() {
    let mut fs = FaultState::default();
    fs.inject_imu_dropout();
    assert!(fs.imu_dropout);
    fs.clear_imu_dropout();
    assert!(!fs.imu_dropout);
}

#[test]
fn inject_and_clear_thermal() {
    let mut fs = FaultState::default();
    fs.inject_thermal();
    assert!(fs.thermal_warning);
    fs.clear_thermal();
    assert!(!fs.thermal_warning);
}

#[test]
fn inject_and_clear_the_other_faults() {
    let mut fs = FaultState::default();
    fs.inject_degraded_gps(F64Bits::from_bits(0.5_f64.to_bits()));
    fs.inject_encoder_fault(b32(1.0), b32(2.0));
    fs.inject_laser_fault();
    assert!(fs.degraded_gps && fs.encoder_fault && fs.laser_fault);
    assert_eq!(fs.gps_noise_std.bits, 0.5_f64.to_bits());
    assert_eq!((f32_of(fs.frozen_pan), f32_of(fs.frozen_tilt)), (1.0, 2.0));
    fs.clear_degraded_gps();
    fs.clear_encoder_fault();
    fs.clear_laser_fault();
    assert!(!fs.degraded_gps && !fs.encoder_fault && !fs.laser_fault);
}

#[test]
fn clear_all_resets_all_flags() {
    let mut fs = FaultState::default();
    fs.inject_gps_loss();
    fs.inject_motor_fault();
    fs.inject_imu_dropout();
    fs.inject_thermal();
    fs.inject_encoder_fault(b32(0.0), b32(0.0));
    fs.inject_laser_fault();
    fs.tick(b32(3.0));
    fs.clear_all();
    assert!(!fs.gps_loss);
    assert!(!fs.motor_fault);
    assert!(!fs.imu_dropout);
    assert!(!fs.thermal_warning);
    assert!(!fs.encoder_fault && !fs.laser_fault && !fs.degraded_gps);
    assert_eq!(f32_of(fs.uptime_secs), 3.0);
}

#[test]
fn build_fault_packet_none_when_nominal() {
    let fs = FaultState::default();
    assert!(fs.build_fault_packet().is_none());
}

#[test]
fn build_fault_packet_motor_fault() {
    let mut fs = FaultState::default();
    fs.inject_motor_fault();
    let pkt = fs.build_fault_packet().expect("expected fault packet");
    assert!(matches!(
        pkt.type_,
        OrionFaultType::FaultTypeVelocityLimitExceeded
    ));
    assert!(matches!(pkt.level, OrionFaultLevel::FaultLevelError));
}

#[test]
fn build_fault_packet_non_motor_returns_none() {
    let mut fs = FaultState::default();
    fs.inject_gps_loss();
    fs.inject_imu_dropout();
    assert!(fs.build_fault_packet().is_none());
}

// ── Diagnostics ───────────────────────────────────────────────────────────

#[test]
fn build_diagnostics_nominal_voltages() {
    let fs = FaultState::default();
    let mut seed = 0u32;
    let d = readings(&fs, &mut seed);
    assert!((d.voltage24 - 24.0).abs() < 0.5, "v24={}", d.voltage24);
    assert!((d.voltage12 - 12.0).abs() < 0.1, "v12={}", d.voltage12);
    assert!((d.voltage3v3 - 3.3).abs() < 0.1, "v3v3={}", d.voltage3v3);
}

#[test]
fn build_diagnostics_motor_fault_voltage_sag() {
    let mut fs = FaultState::default();
    let mut seed = 42u32;
    let nominal = readings(&fs, &mut seed).voltage24;
    fs.inject_motor_fault();
    let mut seed2 = 42u32;
    let sagged = readings(&fs, &mut seed2).voltage24;
    assert!(sagged < nominal - 1.0, "nominal={nominal} sagged={sagged}");
}

#[test]
fn build_diagnostics_thermal_crown_temp_rise() {
    let mut fs = FaultState::default();
    let mut seed = 0u32;
    let baseline = readings(&fs, &mut seed).crown_temp;
    fs.inject_thermal();
    let mut seed2 = 0u32;
    let hot = readings(&fs, &mut seed2).crown_temp;
    assert!(hot > baseline + 20.0, "baseline={baseline} hot={hot}");
}

#[test]
fn build_diagnostics_imu_dropout_gyro_temp_rise() {
    let mut fs = FaultState::default();
    let mut seed = 0u32;
    let baseline = readings(&fs, &mut seed).gyro_temp;
    fs.inject_imu_dropout();
    let mut seed2 = 0u32;
    let hot = readings(&fs, &mut seed2).gyro_temp;
    assert!(hot > baseline + 10.0, "baseline={baseline} hot={hot}");
}

#[test]
fn build_diagnostics_warmup_cap() {
    let mut fs = FaultState::default();
    fs.uptime_secs = b32(10_000.0);
    let mut seed = 0u32;
    let d = readings(&fs, &mut seed);
    assert!(d.crown_temp < 67.0, "crown_temp={}", d.crown_temp);
}

#[test]
fn diagnostics_draw_ten_times_in_order() {
    let fs = FaultState::default();
    let mut seed = 7u32;
    let p = fs.build_diagnostics(b32(1.0), &mut seed);
    let mut check = 7u32;
    let draws: Vec<f32> = (0..10).map(|_| f32_of(lcg_noise_f32(&mut check))).collect();
    assert_eq!(seed, check);
    assert_eq!(f32_of(p.crown_temp.noise), draws[0]);
    assert_eq!(f32_of(p.gyro_temp.noise), draws[1]);
    assert_eq!(f32_of(p.payload_temp.noise), draws[2]);
    assert_eq!(f32_of(p.voltage24.noise), draws[3]);
    assert_eq!(f32_of(p.voltage12.noise), draws[4]);
    assert_eq!(f32_of(p.voltage3v3.noise), draws[5]);
    assert_eq!(f32_of(p.voltage24var.noise), draws[6].abs());
    assert_eq!(f32_of(p.voltage12var.noise), draws[7].abs());
    assert_eq!(f32_of(p.voltage3v3var.noise), draws[8].abs());
    assert_eq!(f32_of(p.payload_humidity.noise), draws[9]);
    assert_eq!(f32_of(p.temp_drift), 1.0);
}

#[test]
fn fault_effects_are_the_right_numbers() {
    assert_eq!(MAX_DRIFT, 20.0_f32.to_bits());
    let mut fs = FaultState::default();
    let p = fs.build_diagnostics(b32(0.0), &mut 1);
    for r in [p.crown_temp, p.payload_temp, p.gyro_temp, p.voltage24, p.current24] {
        assert_eq!(f32_of(r.rise), 0.0);
    }
    fs.inject_thermal();
    fs.inject_imu_dropout();
    fs.inject_motor_fault();
    let p = fs.build_diagnostics(b32(0.0), &mut 1);
    assert_eq!(f32_of(p.crown_temp.rise), 30.0);
    assert_eq!(f32_of(p.payload_temp.rise), 30.0);
    assert_eq!(f32_of(p.gyro_temp.rise), 15.0);
    assert_eq!(f32_of(p.voltage24.rise), -2.0);
    assert_eq!(f32_of(p.current24.rise), 2.5);
}

#[test]
fn readings_are_made_of_the_right_numbers() {
    let p = FaultState::default().build_diagnostics(b32(0.0), &mut 1);
    let parts = |r: Reading| {
        (
            f32_of(r.nominal),
            f32_of(r.drift_share),
            f32_of(r.noise_scale),
        )
    };
    assert_eq!(parts(p.voltage24), (24.0, 0.0, 0.05));
    assert_eq!(parts(p.voltage12), (12.0, 0.0, 0.02));
    assert_eq!(parts(p.voltage3v3), (3.3, 0.0, 0.01));
    assert_eq!(parts(p.current24), (1.2, 0.0, 0.0));
    assert_eq!(parts(p.crown_temp), (45.0, 1.0, 0.5));
    assert_eq!(parts(p.gyro_temp), (55.0, 0.8, 0.3));
    assert_eq!(parts(p.payload_temp), (40.0, 0.6, 0.4));
    assert_eq!(parts(p.payload_humidity), (30.0, 0.0, 2.0));
    assert_eq!(parts(p.voltage24var), (0.0, 0.0, 0.002));
    assert_eq!(parts(p.voltage12var), (0.0, 0.0, 0.001));
    assert_eq!(parts(p.voltage3v3var), (0.0, 0.0, 0.0005));
}

#[test]
fn constant_readings_do_not_change() {
    let mut fs = FaultState::default();
    fs.inject_motor_fault();
    fs.inject_thermal();
    let p = fs.build_diagnostics(b32(7.0), &mut 99);
    assert_eq!(value(&p.current12, 7.0), 0.8);
    assert_eq!(value(&p.current3v3, 7.0), 0.4);
    assert_eq!(value(&p.current24var, 7.0), 0.01);
    assert_eq!(value(&p.current12var, 7.0), 0.005);
    assert_eq!(value(&p.current3v3var, 7.0), 0.002);
    assert_eq!(value(&p.current_laser, 7.0), 0.0);
}

#[test]
fn sla_is_five_degrees_below_the_crown() {
    let d = readings(&FaultState::default(), &mut 5);
    assert_eq!(d.sla_temp, d.crown_temp - 5.0);
}
