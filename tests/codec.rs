use subsim::{
    decode_incoming, decode_outgoing, Detections, Dvl, FramingError, Image, ImuINS, ImuPIMU,
    IncomingMessage, MLTargetData, MLTargetKind, MessageKind, OutgoingMessage, SensorMessage,
};

fn bits3(v: [f32; 3]) -> [u32; 3] {
    [v[0].to_bits(), v[1].to_bits(), v[2].to_bits()]
}

fn sample_sensors() -> SensorMessage {
    SensorMessage {
        depth: 1.5f32.to_bits(),
        dvl: Dvl {
            velocity_a: 1.0f32.to_bits(),
            velocity_b: (-2.0f32).to_bits(),
            velocity_c: 0.25f32.to_bits(),
        },
        imu_ins: ImuINS { theta: bits3([0.1, -0.2, 0.3]) },
        imu_pimu: ImuPIMU {
            dtheta: bits3([0.01, 0.02, -0.03]),
            dvel: bits3([4.0, 5.0, 6.0]),
            dt: (1.0f32 / 64.0).to_bits(),
        },
    }
}

fn be_floats(v: &[f32]) -> Vec<u8> {
    v.iter().flat_map(|x| x.to_be_bytes()).collect()
}

#[test]
fn message_kind_tags() {
    let kinds = [
        MessageKind::Sensors,
        MessageKind::BotcamImage,
        MessageKind::ZedImage,
        MessageKind::MlTarget,
        MessageKind::Motors,
        MessageKind::BotcamOn,
        MessageKind::ZedOn,
        MessageKind::LocalizationEstimate,
    ];
    for (i, k) in kinds.iter().enumerate() {
        assert_eq!(k.tag() as usize, i + 1);
        assert_eq!(MessageKind::try_from(i as u8 + 1), Ok(*k));
    }
    assert_eq!(MessageKind::try_from(0), Err(FramingError::UnknownKind(0)));
    assert_eq!(MessageKind::try_from(9), Err(FramingError::UnknownKind(9)));
}

#[test]
fn target_kind_tags() {
    assert_eq!(MLTargetKind::GateRed.tag(), 0);
    assert_eq!(MLTargetKind::GateBlue.tag(), 1);
    assert_eq!(MLTargetKind::Unlabelled.tag(), 255);
    assert_eq!(MLTargetKind::default(), MLTargetKind::Unlabelled);
    assert_eq!(MLTargetKind::from_tag(1), Some(MLTargetKind::GateBlue));
    assert_eq!(MLTargetKind::from_tag(2), None);
}

#[test]
fn dvl_bytes_are_big_endian_floats() {
    let dvl = Dvl {
        velocity_a: 1.0f32.to_bits(),
        velocity_b: 0.0f32.to_bits(),
        velocity_c: 0.0f32.to_bits(),
    };
    assert_eq!(dvl.to_be_bytes(), be_floats(&[1.0, 0.0, 0.0]));
    assert_eq!(dvl.to_be_bytes()[..4], [0x3f, 0x80, 0, 0]);
}

#[test]
fn imu_bytes_are_big_endian_floats() {
    let ins = ImuINS { theta: bits3([0.1, -0.2, 0.3]) };
    assert_eq!(ins.to_be_bytes(), be_floats(&[0.1, -0.2, 0.3]));
    let pimu = sample_sensors().imu_pimu;
    assert_eq!(
        pimu.to_be_bytes(),
        be_floats(&[0.01, 0.02, -0.03, 4.0, 5.0, 6.0, 1.0 / 64.0])
    );
}

#[test]
fn sensor_message_layout() {
    let bytes = sample_sensors().to_be_bytes();
    assert_eq!(bytes.len(), 56);
    let expected = be_floats(&[
        1.5, 1.0, -2.0, 0.25, 0.1, -0.2, 0.3, 0.01, 0.02, -0.03, 4.0, 5.0, 6.0, 1.0 / 64.0,
    ]);
    assert_eq!(bytes, expected);
}

#[test]
fn sensors_frame_and_round_trip() {
    let m = OutgoingMessage::Sensors(sample_sensors());
    assert_eq!(m.len(), 57);
    assert_eq!(m.kind(), MessageKind::Sensors);
    let bytes = m.encode();
    assert_eq!(bytes.len(), 65);
    assert_eq!(bytes[..9], [0, 0, 0, 0, 0, 0, 0, 57, 1]);
    let (back, n) = decode_outgoing(&bytes).unwrap();
    assert_eq!(n, 65);
    match back {
        OutgoingMessage::Sensors(s) => assert_eq!(s.to_be_bytes(), sample_sensors().to_be_bytes()),
        _ => panic!("wrong kind"),
    }
}

#[test]
fn image_frame_and_round_trip() {
    let ts = 1_700_000_000.5f64.to_bits();
    let image = Image { width: 2, height: 1, buffer: vec![1, 2, 3, 4, 5, 6, 7, 8] };
    let m = OutgoingMessage::ZedImage(ts, image);
    assert_eq!(m.len(), 1 + 8 + 4 + 4 + 8 + 8);
    let bytes = m.encode();
    let mut expected = vec![0, 0, 0, 0, 0, 0, 0, 33, 3];
    expected.extend_from_slice(&1_700_000_000.5f64.to_be_bytes());
    expected.extend_from_slice(&[0, 0, 0, 2, 0, 0, 0, 1]);
    expected.extend_from_slice(&[0, 0, 0, 0, 0, 0, 0, 8]);
    expected.extend_from_slice(&[1, 2, 3, 4, 5, 6, 7, 8]);
    assert_eq!(bytes, expected);
    let (back, n) = decode_outgoing(&bytes).unwrap();
    assert_eq!(n, bytes.len());
    match back {
        OutgoingMessage::ZedImage(t, img) => {
            assert_eq!(t, ts);
            assert_eq!((img.width, img.height), (2, 1));
            assert_eq!(img.buffer, vec![1, 2, 3, 4, 5, 6, 7, 8]);
        }
        _ => panic!("wrong kind"),
    }
}

#[test]
fn botcam_image_keeps_its_kind() {
    let m = OutgoingMessage::BotcamImage(0, Image { width: 0, height: 0, buffer: vec![] });
    let bytes = m.encode();
    assert_eq!(bytes[8], 2);
    assert!(matches!(decode_outgoing(&bytes), Ok((OutgoingMessage::BotcamImage(0, _), 33))));
}

fn detection(kind: MLTargetKind, l: f32, t: f32, r: f32, b: f32) -> MLTargetData {
    MLTargetData { kind, left: l.to_bits(), top: t.to_bits(), right: r.to_bits(), bottom: b.to_bits() }
}

#[test]
fn targets_frame_and_round_trip() {
    let mut ds = Detections::new();
    ds.push(detection(MLTargetKind::GateRed, 10.0, 20.0, 110.0, 90.0));
    ds.push(detection(MLTargetKind::GateBlue, 0.0, 0.0, 64.0, 64.0));
    ds.push(detection(MLTargetKind::Unlabelled, 1.0, 2.0, 3.0, 4.0));
    assert_eq!(ds.len(), 3);
    let m = OutgoingMessage::MlTarget(ds, [640.0f32.to_bits(), 480.0f32.to_bits()]);
    assert_eq!(m.len(), 1 + 1 + 8 + 17 * 3);
    let bytes = m.encode();
    assert_eq!(bytes[..10], [0, 0, 0, 0, 0, 0, 0, 61, 4, 3]);
    assert_eq!(bytes[10..18], be_floats(&[640.0, 480.0])[..]);
    assert_eq!(bytes[18], 0);
    assert_eq!(bytes[19..35], be_floats(&[10.0, 20.0, 110.0, 90.0])[..]);
    assert_eq!(bytes[52], 255);
    let (back, n) = decode_outgoing(&bytes).unwrap();
    assert_eq!(n, bytes.len());
    match back {
        OutgoingMessage::MlTarget(ds, size) => {
            assert_eq!(size, [640.0f32.to_bits(), 480.0f32.to_bits()]);
            assert_eq!(ds.len(), 3);
            assert_eq!(ds.get(1).kind, MLTargetKind::GateBlue);
            assert_eq!(f32::from_bits(ds.get(0).right), 110.0);
        }
        _ => panic!("wrong kind"),
    }
}

#[test]
fn empty_targets_message() {
    let m = OutgoingMessage::MlTarget(Detections::new(), [0, 0]);
    let bytes = m.encode();
    assert_eq!(bytes.len(), 18);
    assert!(matches!(decode_outgoing(&bytes), Ok((OutgoingMessage::MlTarget(_, _), 18))));
}

#[test]
fn unknown_target_kind_is_refused() {
    let mut ds = Detections::new();
    ds.push(detection(MLTargetKind::GateRed, 1.0, 1.0, 2.0, 2.0));
    let mut bytes = OutgoingMessage::MlTarget(ds, [0, 0]).encode();
    bytes[18] = 7;
    assert!(matches!(decode_outgoing(&bytes), Err(FramingError::UnknownTargetKind(7))));
}

fn motors() -> IncomingMessage {
    let p: [f32; 8] = [0.5, -0.5, 1.0, -1.0, 0.0, 0.25, -0.25, 0.75];
    IncomingMessage::Motors(p.map(f32::to_bits))
}

#[test]
fn motors_round_trip() {
    let bytes = motors().encode();
    assert_eq!(bytes.len(), 9 + 32);
    assert_eq!(bytes[..9], [0, 0, 0, 0, 0, 0, 0, 33, 5]);
    assert_eq!(bytes[9..13], 0.5f32.to_be_bytes());
    match decode_incoming(&bytes) {
        Ok((IncomingMessage::Motors(p), 41)) => {
            assert_eq!(p.map(f32::from_bits), [0.5, -0.5, 1.0, -1.0, 0.0, 0.25, -0.25, 0.75])
        }
        _ => panic!("wrong decode"),
    }
}

#[test]
fn camera_switch_round_trip() {
    let on = IncomingMessage::BotcamOn(true).encode();
    assert_eq!(on, vec![0, 0, 0, 0, 0, 0, 0, 2, 6, 1]);
    assert!(matches!(decode_incoming(&on), Ok((IncomingMessage::BotcamOn(true), 10))));
    let off = IncomingMessage::ZedOn(false).encode();
    assert_eq!(off, vec![0, 0, 0, 0, 0, 0, 0, 2, 7, 0]);
    assert!(matches!(decode_incoming(&off), Ok((IncomingMessage::ZedOn(false), 10))));
    let odd = vec![0, 0, 0, 0, 0, 0, 0, 2, 7, 9];
    assert!(matches!(decode_incoming(&odd), Ok((IncomingMessage::ZedOn(true), 10))));
}

#[test]
fn localization_round_trip() {
    let rotation: [f32; 9] = [1.0, 0.0, 0.0, 0.0, 1.0, 0.0, 0.0, 0.0, 1.0];
    let m = IncomingMessage::LocalizationEstimate {
        rotation: rotation.map(f32::to_bits),
        position: [1.0f32, 2.0, 3.0].map(f32::to_bits),
        velocity: [0.5f32, 0.0, -0.5].map(f32::to_bits),
    };
    let bytes = m.encode();
    assert_eq!(bytes.len(), 9 + 60);
    assert_eq!(bytes[8], 8);
    match decode_incoming(&bytes) {
        Ok((IncomingMessage::LocalizationEstimate { rotation: r, position, velocity }, 69)) => {
            assert_eq!(r.map(f32::from_bits), rotation);
            assert_eq!(position.map(f32::from_bits), [1.0, 2.0, 3.0]);
            assert_eq!(velocity.map(f32::from_bits), [0.5, 0.0, -0.5]);
        }
        _ => panic!("wrong decode"),
    }
}

#[test]
fn decode_ignores_bytes_after_the_message() {
    let mut bytes = motors().encode();
    bytes.extend_from_slice(&[9, 9, 9]);
    assert!(matches!(decode_incoming(&bytes), Ok((IncomingMessage::Motors(_), 41))));
}

#[test]
fn decode_does_not_trust_the_length_field() {
    let mut bytes = IncomingMessage::BotcamOn(true).encode();
    bytes[7] = 200;
    assert!(matches!(decode_incoming(&bytes), Ok((IncomingMessage::BotcamOn(true), 10))));
}

#[test]
fn every_truncated_incoming_message_is_truncated() {
    for m in [motors(), IncomingMessage::ZedOn(true)] {
        let bytes = m.encode();
        for k in 0..bytes.len() {
            assert_eq!(decode_incoming(&bytes[..k]).err(), Some(FramingError::Truncated));
        }
    }
}

#[test]
fn every_truncated_outgoing_message_is_truncated() {
    let mut ds = Detections::new();
    ds.push(detection(MLTargetKind::GateRed, 1.0, 1.0, 2.0, 2.0));
    let messages = [
        OutgoingMessage::Sensors(sample_sensors()),
        OutgoingMessage::MlTarget(ds, [0, 0]),
        OutgoingMessage::BotcamImage(5, Image { width: 1, height: 1, buffer: vec![1, 2, 3, 4] }),
    ];
    for m in messages {
        let bytes = m.encode();
        for k in 0..bytes.len() {
            assert_eq!(decode_outgoing(&bytes[..k]).err(), Some(FramingError::Truncated));
        }
    }
}

#[test]
fn unknown_kind_is_refused() {
    let bytes = vec![0, 0, 0, 0, 0, 0, 0, 2, 42, 0];
    assert_eq!(decode_incoming(&bytes).err(), Some(FramingError::UnknownKind(42)));
    assert_eq!(decode_outgoing(&bytes).err(), Some(FramingError::UnknownKind(42)));
}

#[test]
fn kinds_from_the_wrong_side_are_refused() {
    let sensors = OutgoingMessage::Sensors(sample_sensors()).encode();
    assert_eq!(decode_incoming(&sensors).err(), Some(FramingError::UnexpectedKind(1)));
    let on = IncomingMessage::BotcamOn(true).encode();
    assert_eq!(decode_outgoing(&on).err(), Some(FramingError::UnexpectedKind(6)));
    assert_eq!(MessageKind::Motors.incoming_payload_len(), Ok(32));
    assert_eq!(MessageKind::LocalizationEstimate.incoming_payload_len(), Ok(60));
    assert_eq!(
        MessageKind::ZedImage.incoming_payload_len(),
        Err(FramingError::UnexpectedKind(3))
    );
}

#[test]
fn big_endian_helpers() {
    let mut out = Vec::new();
    subsim::push_be32(&mut out, 0x0102_0304);
    subsim::push_be64(&mut out, 0x0506_0708_090a_0b0c);
    assert_eq!(out, vec![1, 2, 3, 4, 5, 6, 7, 8, 9, 10, 11, 12]);
    assert_eq!(subsim::read_be32(&out, 0), 0x0102_0304);
    assert_eq!(subsim::read_be64(&out, 4), 0x0506_0708_090a_0b0c);
    assert_eq!(subsim::read_words(&out, 4, 2), vec![0x0506_0708, 0x090a_0b0c]);
}

#[test]
fn layout_limits() {
    let mut ds = Detections::new();
    for _ in 0..255 {
        ds.push(detection(MLTargetKind::GateRed, 0.0, 0.0, 1.0, 1.0));
    }
    let m = OutgoingMessage::MlTarget(ds, [0, 0]);
    assert!(m.fits_layout());
    assert_eq!(m.encode()[9], 255);
    let mut ds = Detections::new();
    for _ in 0..256 {
        ds.push(detection(MLTargetKind::GateRed, 0.0, 0.0, 1.0, 1.0));
    }
    assert!(!OutgoingMessage::MlTarget(ds, [0, 0]).fits_layout());
    assert!(OutgoingMessage::Sensors(sample_sensors()).fits_layout());
}
