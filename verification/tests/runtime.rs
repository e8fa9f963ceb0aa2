//! The decisions of the main loop.

use cigi_trillium::bits::{F32Bits, F64Bits};
use cigi_trillium::cigi::host::CigiResponse;
use cigi_trillium::cigi::messages::{SensorExtendedResponse, StartOfFrame};
use cigi_trillium::config::RuntimeMode;
use cigi_trillium::orion::{OrionCmd, OrionCmdPacket, OrionMode};
use cigi_trillium::runtime::{
    cli_mode_override, diagnostics_requested, preset_index, wire_camera, Runtime, SG_TIMEOUT,
    SR_KEEPALIVE_STALE,
};

fn args(list: &[&str]) -> Vec<String> {
    list.iter().map(|s| s.to_string()).collect()
}

fn start_of_frame(ctr: u32) -> CigiResponse {
    CigiResponse::StartOfFrame(StartOfFrame {
        ig_frame_ctr: ctr,
        ..Default::default()
    })
}

#[test]
fn last_mode_argument_wins() {
    assert_eq!(cli_mode_override(&args(&["prog"])), None);
    assert_eq!(
        cli_mode_override(&args(&["prog", "--simulator"])),
        Some(RuntimeMode::Simulator)
    );
    assert_eq!(
        cli_mode_override(&args(&["prog", "--simulator", "--bridge", "--diag"])),
        Some(RuntimeMode::Bridge)
    );
    assert_eq!(cli_mode_override(&args(&["--Simulator", "simulator"])), None);
}

#[test]
fn diagnostics_are_on_request() {
    assert!(diagnostics_requested(&args(&["prog", "--diag"])));
    assert!(!diagnostics_requested(&args(&["prog", "--diagnostics"])));
}

#[test]
fn telemetry_every_fifth_tick_without_scene_generator() {
    let mut rt = Runtime::new(RuntimeMode::Bridge, true);
    let mut telemetry = 0;
    let mut diagnostics = 0;
    for i in 1..=100u64 {
        let plan = rt.on_tick(i * 20_000_000);
        assert!(!plan.to_scene_generator);
        telemetry += plan.telemetry as u32;
        diagnostics += plan.diagnostics as u32;
    }
    assert_eq!(rt.frame_ctr, 100);
    assert_eq!((telemetry, diagnostics), (20, 2));
}

#[test]
fn scene_generator_is_used_until_it_is_silent() {
    let mut rt = Runtime::new(RuntimeMode::Bridge, true);
    assert!(rt.on_response(start_of_frame(9), 1_000).is_none());
    assert_eq!(rt.last_ig_frame_ctr, 9);
    assert!(rt.on_tick(1_000 + SG_TIMEOUT - 1).to_scene_generator);
    assert!(!rt.on_tick(1_000 + SG_TIMEOUT).to_scene_generator);
}

#[test]
fn simulator_mode_ignores_the_scene_generator() {
    let mut rt = Runtime::new(RuntimeMode::Simulator, false);
    rt.on_response(start_of_frame(1), 0);
    assert!(!rt.on_tick(1).to_scene_generator);
}

#[test]
fn fresh_responses_replace_our_telemetry() {
    let mut rt = Runtime::new(RuntimeMode::Bridge, true);
    rt.frame_ctr = 4;
    rt.on_response(start_of_frame(1), 0);
    let ser = SensorExtendedResponse {
        frame_ctr: 3,
        ..Default::default()
    };
    let handed_on = rt.on_response(CigiResponse::SensorResponse(ser), 0);
    assert_eq!(handed_on, Some(ser));
    assert!(!rt.on_tick(SR_KEEPALIVE_STALE - 1).telemetry);
    rt.frame_ctr = 4;
    assert!(rt.on_tick(SR_KEEPALIVE_STALE).telemetry);
    rt.frame_ctr = 49;
    assert!(!rt.on_tick(SR_KEEPALIVE_STALE).diagnostics);
}

#[test]
fn ig_control_echoes_the_frame_number() {
    let mut rt = Runtime::new(RuntimeMode::Bridge, false);
    rt.on_response(start_of_frame(0x12_3456), 0);
    rt.on_tick(1);
    let ig = rt.ig_control(F64Bits::from_bits(2.5_f64.to_bits()));
    assert_eq!(ig.last_rcvd_ig_frame_ctr, 0x3456);
    assert_eq!(ig.frame_ctr, 1);
    assert!(ig.timestamp_valid);
    assert_eq!(ig.timestamp.bits, 2.5_f64.to_bits());
}

#[test]
fn tick_count_wraps_around() {
    let mut rt = Runtime::new(RuntimeMode::Bridge, false);
    rt.frame_ctr = u32::MAX;
    assert!(rt.on_tick(0).telemetry);
    assert_eq!(rt.frame_ctr, 0);
}

#[test]
fn last_command_is_kept() {
    let mut rt = Runtime::new(RuntimeMode::Bridge, false);
    assert!(rt.last_cmd.is_none());
    let cmd = OrionCmdPacket {
        cmd: OrionCmd {
            mode: OrionMode::OrionModeRate,
            target: [F32Bits::from_bits(1), F32Bits::from_bits(2)],
            stabilized: 1,
            impulse_time: F32Bits::from_bits(3),
        },
    };
    rt.on_command(cmd);
    assert_eq!(rt.last_cmd, Some(cmd));
}

#[test]
fn presets_end_at_the_last() {
    let indices: Vec<u8> = (0..=4).map(preset_index).collect();
    assert_eq!(indices, vec![0, 1, 2, 2, 2]);
}

#[test]
fn scene_generator_gets_no_negative_camera() {
    assert_eq!([-128, -1, 0, 2, 127].map(wire_camera), [0, 0, 0, 2, 127]);
}
