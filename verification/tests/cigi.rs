//! CIGI messages, datagrams and packets.

use cigi_trillium::bits::{F32Bits, F64Bits};
use cigi_trillium::cigi::host::{build_datagram, parse_responses, CigiResponse};
use cigi_trillium::cigi::messages::{
    EntityControl, IgControl, SensorControl, SensorExtendedResponse, StartOfFrame,
};
use cigi_trillium::server::{parse_cigi_datagram, CigiPacket};

fn b32(x: f32) -> F32Bits {
    F32Bits::from_bits(x.to_bits())
}

fn b64(x: f64) -> F64Bits {
    F64Bits::from_bits(x.to_bits())
}

fn f32_of(x: F32Bits) -> f32 {
    f32::from_bits(x.bits)
}

// ── Messages ──────────────────────────────────────────────────────────────

#[test]
fn sensor_control_roundtrip() {
    let sc = SensorControl {
        view_id: 1,
        sensor_id: 2,
        sensor_state: 1,
        polarity: true,
        line_of_sight_enable: false,
        track_mode: 3,
        response_type: true,
        auto_gain: false,
        track_polarity: true,
        gain: b32(0.5),
        level: b32(0.75),
        ac_coupling: b32(0.1),
        noise: b32(0.0),
    };
    let enc = sc.encode();
    assert_eq!(enc.len(), 24);
    let dec = SensorControl::decode(&enc).expect("decode");
    assert_eq!(dec.view_id, sc.view_id);
    assert_eq!(dec.sensor_id, sc.sensor_id);
    assert_eq!(dec.sensor_state, sc.sensor_state);
    assert_eq!(dec.polarity, sc.polarity);
    assert!((f32_of(dec.gain) - f32_of(sc.gain)).abs() < 1e-6);
    assert_eq!(dec, sc);
}

#[test]
fn start_of_frame_roundtrip() {
    let sof = StartOfFrame {
        ig_status: 0,
        ig_mode: 2,
        timestamp_valid: true,
        earth_ref_model: false,
        minor_version: 3,
        db_number: -1,
        ig_frame_ctr: 42,
        timestamp_10us: (1.5_f64 * 100_000.0) as u64,
        last_host_frame_number: 7,
    };
    let enc = sof.encode();
    assert_eq!(enc.len(), 24);
    let dec = StartOfFrame::decode(&enc).expect("decode");
    assert_eq!(dec.ig_frame_ctr, 42);
    assert_eq!(dec.last_host_frame_number, 7);
    assert_eq!(dec, sof);
}

#[test]
fn ig_control_bytes_are_exact() {
    let ig = IgControl {
        ig_mode: 2,
        timestamp_valid: true,
        extrapolation_enable: true,
        minor_version: 3,
        db_number: -2,
        last_rcvd_ig_frame_ctr: 0x0102,
        frame_ctr: 0x03040506,
        timestamp: b64(1.5),
    };
    let enc = ig.encode();
    assert_eq!(
        &enc[..12],
        &[1, 24, 0x83, 3, 0xFE, 0xFF, 0x02, 0x01, 0x06, 0x05, 0x04, 0x03]
    );
    assert_eq!(&enc[12..20], &1.5_f64.to_le_bytes());
    assert_eq!(&enc[20..], &[0; 4]);
    assert_eq!(IgControl::decode(&enc), Some(ig));
    assert_eq!(IgControl::decode(&enc[..23]), None);
}

#[test]
fn entity_control_bytes_are_exact() {
    let ec = EntityControl {
        entity_id: 0x0201,
        entity_state: 1,
        attach_state: true,
        collision_detect: false,
        inherit_alpha: true,
        ground_occlude_clamped: false,
        animation_dir: true,
        animation_mode: 2,
        animation_state: 3,
        alpha: 200,
        entity_type: 0x0403,
        parent_id: 0x0605,
        roll: b32(1.0),
        pitch: b32(-2.0),
        yaw: b32(3.0),
        lat_or_x: b64(37.5),
        lon_or_y: b64(-122.25),
        alt_or_z: b64(1000.0),
    };
    let enc = ec.encode();
    assert_eq!(enc.len(), 48);
    assert_eq!(&enc[..12], &[2, 48, 1, 2, 0x55, 0x0E, 200, 0, 3, 4, 5, 6]);
    assert_eq!(&enc[16..20], &(-2.0_f32).to_le_bytes());
    assert_eq!(&enc[32..40], &(-122.25_f64).to_le_bytes());
    assert_eq!(EntityControl::decode(&enc), Some(ec));
    assert_eq!(EntityControl::decode(&enc[..47]), None);
}

#[test]
fn geopoint_leaves_polarity_out() {
    let sc = SensorControl {
        sensor_state: 4,
        polarity: true,
        line_of_sight_enable: true,
        track_mode: 1,
        ..Default::default()
    };
    let enc = sc.encode();
    assert_eq!(enc[4], 0x14);
    let dec = SensorControl::decode(&enc).expect("decode");
    assert_eq!(dec.sensor_state, 4);
    assert!(!dec.polarity && !dec.line_of_sight_enable);
}

#[test]
fn start_of_frame_keeps_low_bits() {
    let sof = StartOfFrame {
        db_number: 300,
        timestamp_10us: 0x1_0000_0005,
        ..Default::default()
    };
    let dec = StartOfFrame::decode(&sof.encode()).expect("decode");
    assert_eq!(dec.db_number, 44);
    assert_eq!(dec.timestamp_10us, 5);
    assert_eq!(sof.encode()[2], 3);
    assert_eq!(&sof.encode()[6..8], &[0x00, 0x80]);
}

#[test]
fn sensor_extended_response_fields() {
    let mut buf = vec![0u8; 48];
    buf[0] = SensorExtendedResponse::TYPE_ID;
    buf[1] = 48;
    buf[2..4].copy_from_slice(&5u16.to_le_bytes());
    buf[4] = 2;
    buf[5] = 0x05;
    buf[6..8].copy_from_slice(&9u16.to_le_bytes());
    buf[8..10].copy_from_slice(&20u16.to_le_bytes());
    buf[10..12].copy_from_slice(&21u16.to_le_bytes());
    buf[12..16].copy_from_slice(&0.25_f32.to_le_bytes());
    buf[16..20].copy_from_slice(&(-0.5_f32).to_le_bytes());
    buf[20..24].copy_from_slice(&77u32.to_le_bytes());
    buf[24..32].copy_from_slice(&38.5_f64.to_le_bytes());
    buf[32..40].copy_from_slice(&(-77.25_f64).to_le_bytes());
    buf[40..48].copy_from_slice(&100.0_f64.to_le_bytes());
    let r = SensorExtendedResponse::decode(&buf).expect("decode");
    assert_eq!(
        r,
        SensorExtendedResponse {
            view_id: 5,
            sensor_id: 2,
            sensor_status: 1,
            gate_x_size: 20,
            gate_y_size: 21,
            gate_x_pos: b32(0.25),
            gate_y_pos: b32(-0.5),
            frame_ctr: 77,
            entity_id_valid: true,
            entity_id: 9,
            entity_lat: b64(38.5),
            entity_lon: b64(-77.25),
            entity_alt: b64(100.0),
        }
    );
    assert!(SensorExtendedResponse::decode(&buf[..47]).is_none());
}

// ── Host ──────────────────────────────────────────────────────────────────

#[test]
fn build_datagram_without_sc() {
    let dg = build_datagram(&IgControl::default(), &EntityControl::default(), None);
    assert_eq!(dg.len(), 72);
    assert_eq!(dg[0], IgControl::TYPE_ID);
    assert_eq!(dg[24], EntityControl::TYPE_ID);
}

#[test]
fn build_datagram_with_sc() {
    let dg = build_datagram(
        &IgControl::default(),
        &EntityControl::default(),
        Some(&SensorControl::default()),
    );
    assert_eq!(dg.len(), 96);
    assert_eq!(dg[72], SensorControl::TYPE_ID);
}

#[test]
fn parse_empty_datagram_produces_nothing() {
    assert!(parse_responses(&[]).is_empty());
}

#[test]
fn parse_start_of_frame() {
    let sof = StartOfFrame {
        ig_frame_ctr: 77,
        ..Default::default()
    };
    match parse_responses(&sof.encode())[0] {
        CigiResponse::StartOfFrame(s) => assert_eq!(s.ig_frame_ctr, 77),
        _ => panic!("expected StartOfFrame"),
    }
}

#[test]
fn parse_sensor_extended_response() {
    let mut buf = vec![0u8; 48];
    buf[0] = SensorExtendedResponse::TYPE_ID;
    buf[1] = 48;
    buf[2..4].copy_from_slice(&5u16.to_le_bytes());
    buf[4] = 2;
    match parse_responses(&buf)[0] {
        CigiResponse::SensorResponse(r) => assert_eq!(r.sensor_id, 2),
        _ => panic!("expected SensorResponse"),
    }
}

#[test]
fn parse_concatenated_packets() {
    let sof = StartOfFrame {
        ig_frame_ctr: 1,
        ..Default::default()
    };
    let mut ser_buf = vec![0u8; 48];
    ser_buf[0] = SensorExtendedResponse::TYPE_ID;
    ser_buf[1] = 48;
    let mut data = sof.encode();
    data.extend_from_slice(&ser_buf);

    let got = parse_responses(&data);
    assert_eq!(got.len(), 2);
    assert!(matches!(got[0], CigiResponse::StartOfFrame(_)));
    assert!(matches!(got[1], CigiResponse::SensorResponse(_)));
}

#[test]
fn parse_unknown_type_skipped() {
    let sof = StartOfFrame {
        ig_frame_ctr: 42,
        ..Default::default()
    };
    let mut data = vec![99u8, 8, 0, 0, 0, 0, 0, 0];
    data.extend_from_slice(&sof.encode());
    match parse_responses(&data)[0] {
        CigiResponse::StartOfFrame(s) => assert_eq!(s.ig_frame_ctr, 42),
        _ => panic!("expected StartOfFrame after skipping unknown"),
    }
}

#[test]
fn parse_truncated_stops_cleanly() {
    let mut data = StartOfFrame::default().encode();
    data.extend_from_slice(&[SensorExtendedResponse::TYPE_ID, 48, 0, 0, 0, 0, 0, 0, 0, 0]);
    let got = parse_responses(&data);
    assert_eq!(got.len(), 1);
    assert!(matches!(got[0], CigiResponse::StartOfFrame(_)));
}

#[test]
fn size_below_two_ends_the_datagram() {
    let mut data = vec![101u8, 1, 0, 0];
    data.extend_from_slice(&StartOfFrame::default().encode());
    assert!(parse_responses(&data).is_empty());
    assert!(parse_cigi_datagram(&data).is_empty());
}

// ── Image generator ───────────────────────────────────────────────────────

#[test]
fn datagram_is_read_back() {
    let ig = IgControl {
        ig_mode: 1,
        frame_ctr: 5,
        ..Default::default()
    };
    let ec = EntityControl {
        entity_id: 3,
        lat_or_x: b64(12.5),
        ..Default::default()
    };
    let sc = SensorControl {
        sensor_state: 2,
        gain: b32(0.5),
        ..Default::default()
    };
    let packets = parse_cigi_datagram(&build_datagram(&ig, &ec, Some(&sc)));
    assert_eq!(packets.len(), 3);
    assert!(matches!(&packets[0], CigiPacket::IgControl(m) if *m == ig));
    assert!(matches!(&packets[1], CigiPacket::EntityControl(m) if *m == ec));
    assert!(matches!(&packets[2], CigiPacket::SensorControl(m) if *m == sc));
}

#[test]
fn unknown_packets_are_kept_with_their_bytes() {
    // The second packet is too short for its type and is left out.
    let packets = parse_cigi_datagram(&[99, 4, 7, 8, 1, 2]);
    assert_eq!(packets.len(), 1);
    match &packets[0] {
        CigiPacket::Unknown(t, bytes) => {
            assert_eq!(*t, 99);
            assert_eq!(bytes, &vec![99, 4, 7, 8]);
        }
        _ => panic!("expected Unknown"),
    }
}
