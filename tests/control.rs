use subsim::{
    change_of_coordinates, handle_cameras, handle_thrusters, update_cam_enabled,
    update_localization_estimate, CameraEnabled, IncomingMessage, LocalizationEstimate,
    ThrusterOf, ThrusterTarget,
};

fn thrusters(ids: &[u8]) -> Vec<(ThrusterOf, ThrusterTarget)> {
    ids.iter()
        .map(|&id| (ThrusterOf { sub: 7, id }, ThrusterTarget { target_output: 0.0f32.to_bits() }))
        .collect()
}

fn targets(t: &[(ThrusterOf, ThrusterTarget)]) -> Vec<f32> {
    t.iter().map(|(_, x)| f32::from_bits(x.target_output)).collect()
}

fn motors(p: [f32; 8]) -> IncomingMessage {
    IncomingMessage::Motors(p.map(f32::to_bits))
}

#[test]
fn motors_message_sets_each_target() {
    let mut t = thrusters(&[0, 1, 2, 3, 4, 5, 6, 7]);
    let p = [0.1, -0.2, 0.3, -0.4, 0.5, -0.6, 0.7, -0.8];
    handle_thrusters(&[motors(p)], &mut t);
    assert_eq!(targets(&t), p.to_vec());
}

#[test]
fn motors_follow_thruster_ids() {
    let mut t = thrusters(&[3, 0, 9]);
    t[2].1.target_output = 0.9f32.to_bits();
    handle_thrusters(&[motors([0.1, 0.2, 0.3, 0.4, 0.5, 0.6, 0.7, 0.8])], &mut t);
    assert_eq!(targets(&t), vec![0.4, 0.1, 0.9]);
    assert_eq!(t[0].0, ThrusterOf { sub: 7, id: 3 });
}

#[test]
fn last_motors_message_wins() {
    let mut t = thrusters(&[0, 1]);
    let incoming = [
        motors([1.0; 8]),
        IncomingMessage::BotcamOn(true),
        motors([0.5; 8]),
        IncomingMessage::ZedOn(false),
    ];
    handle_thrusters(&incoming, &mut t);
    assert_eq!(targets(&t), vec![0.5, 0.5]);
}

#[test]
fn no_motors_message_keeps_targets() {
    let mut t = thrusters(&[0, 1]);
    t[1].1.target_output = 0.3f32.to_bits();
    handle_thrusters(&[IncomingMessage::ZedOn(true)], &mut t);
    assert_eq!(targets(&t), vec![0.0, 0.3]);
    handle_thrusters(&[], &mut t);
    assert_eq!(targets(&t), vec![0.0, 0.3]);
}

#[test]
fn camera_switches_apply_per_kind() {
    let mut bottom = vec![CameraEnabled(false), CameraEnabled(false)];
    let mut zed = vec![CameraEnabled(true)];
    let incoming = [
        IncomingMessage::BotcamOn(false),
        IncomingMessage::BotcamOn(true),
        IncomingMessage::ZedOn(false),
    ];
    handle_cameras(&incoming, &mut bottom, &mut zed);
    assert_eq!(bottom, vec![CameraEnabled(true), CameraEnabled(true)]);
    assert_eq!(zed, vec![CameraEnabled(false)]);
}

#[test]
fn cameras_without_a_switch_stay() {
    let mut bottom = vec![CameraEnabled(true)];
    let mut zed = vec![CameraEnabled(false)];
    handle_cameras(&[IncomingMessage::ZedOn(true)], &mut bottom, &mut zed);
    assert_eq!(bottom, vec![CameraEnabled(true)]);
    assert_eq!(zed, vec![CameraEnabled(true)]);
}

#[test]
fn camera_is_active_only_when_enabled_and_due() {
    assert!(update_cam_enabled(CameraEnabled(true), true));
    assert!(!update_cam_enabled(CameraEnabled(true), false));
    assert!(!update_cam_enabled(CameraEnabled(false), true));
    assert!(!update_cam_enabled(CameraEnabled(false), false));
}

#[test]
fn change_of_coordinates_swaps_and_negates() {
    let v = change_of_coordinates([1.0f32, 2.0, 3.0].map(f32::to_bits));
    assert_eq!(v.map(f32::from_bits), [1.0, -3.0, 2.0]);
    let w = change_of_coordinates([0.0f32, 0.0, -4.5].map(f32::to_bits));
    assert_eq!(w.map(f32::from_bits), [0.0, 4.5, 0.0]);
}

fn localization(p: [f32; 3], v: [f32; 3]) -> IncomingMessage {
    let r: [f32; 9] = [1.0, 0.0, 0.0, 0.0, 1.0, 0.0, 0.0, 0.0, 1.0];
    IncomingMessage::LocalizationEstimate {
        rotation: r.map(f32::to_bits),
        position: p.map(f32::to_bits),
        velocity: v.map(f32::to_bits),
    }
}

#[test]
fn last_localization_estimate_is_kept_in_simulator_axes() {
    let mut estimate: Option<LocalizationEstimate> = None;
    let incoming = [
        localization([9.0, 9.0, 9.0], [0.0, 0.0, 0.0]),
        localization([1.0, 2.0, 3.0], [0.5, -1.0, 2.0]),
    ];
    update_localization_estimate(&incoming, &mut estimate);
    let e = estimate.unwrap();
    assert_eq!(e.translation.map(f32::from_bits), [1.0, -3.0, 2.0]);
    assert_eq!(e.velocity.map(f32::from_bits), [0.5, -2.0, -1.0]);
    assert_eq!(f32::from_bits(e.rotation[4]), 1.0);
}

#[test]
fn no_localization_keeps_estimate() {
    let mut estimate: Option<LocalizationEstimate> = None;
    update_localization_estimate(&[IncomingMessage::BotcamOn(true)], &mut estimate);
    assert!(estimate.is_none());
}
