use subsim::{
    depth_from_height, imu_dtheta, send_sensors, zero_or_one, Imu, SensorError, SensorKind,
};

fn bits(v: [f32; 3]) -> [u32; 3] {
    v.map(f32::to_bits)
}

fn imu() -> Imu {
    Imu {
        angle: bits([0.1, 0.2, 0.3]),
        dtheta: bits([-0.01, 0.02, 0.03]),
        dvel: bits([0.0, 0.5, 0.0]),
        dt: (1.0f32 / 64.0).to_bits(),
    }
}

#[test]
fn dvl_reports_forward_velocity() {
    let message = send_sensors(
        &[(1, bits([1.0, 0.0, 0.0]))],
        &[(1, imu())],
        &[(1, 2.0f32.to_bits())],
    )
    .unwrap();
    assert_eq!(f32::from_bits(message.dvl.velocity_a), 1.0);
    assert_eq!(f32::from_bits(message.dvl.velocity_b), 0.0);
    assert_eq!(f32::from_bits(message.dvl.velocity_c), 0.0);
    assert_eq!(message.to_be_bytes()[4..8], 1.0f32.to_be_bytes());
}

#[test]
fn orientation_goes_out_as_minus_pitch_roll_yaw() {
    let message = send_sensors(&[(1, [0; 3])], &[(1, imu())], &[(1, 0)]).unwrap();
    assert_eq!(message.imu_ins.theta.map(f32::from_bits), [-0.2, 0.3, 0.1]);
    assert_eq!(message.imu_pimu.dtheta.map(f32::from_bits), [-0.01, 0.02, 0.03]);
    assert_eq!(message.imu_pimu.dvel.map(f32::from_bits), [0.0, 0.5, 0.0]);
    assert_eq!(f32::from_bits(message.imu_pimu.dt), 1.0 / 64.0);
}

#[test]
fn depth_is_minus_height() {
    assert_eq!(f32::from_bits(depth_from_height((-1.25f32).to_bits())), 1.25);
    assert_eq!(f32::from_bits(depth_from_height(3.0f32.to_bits())), -3.0);
    let message = send_sensors(&[(1, [0; 3])], &[(1, imu())], &[(1, depth_from_height((-0.2f32).to_bits()))]).unwrap();
    assert_eq!(f32::from_bits(message.depth), 0.2);
}

#[test]
fn imu_rotation_negates_the_first_angle() {
    assert_eq!(imu_dtheta(bits([0.5, -0.25, 1.0])).map(f32::from_bits), [-0.5, -0.25, 1.0]);
}

#[test]
fn each_sensor_must_be_single() {
    let two = [(1, [0; 3]), (1, [0; 3])];
    assert_eq!(
        send_sensors(&two, &[(1, imu())], &[(1, 0)]).err(),
        Some(SensorError::UnexpectedSingleton(SensorKind::Dvl))
    );
    assert_eq!(
        send_sensors(&[(1, [0; 3])], &[], &[(1, 0)]).err(),
        Some(SensorError::UnexpectedSingleton(SensorKind::Imu))
    );
    assert_eq!(
        send_sensors(&[(1, [0; 3])], &[(1, imu())], &[]).err(),
        Some(SensorError::UnexpectedSingleton(SensorKind::Depth))
    );
}

#[test]
fn sensors_must_share_a_body() {
    assert_eq!(
        send_sensors(&[(1, [0; 3])], &[(2, imu())], &[(1, 0)]).err(),
        Some(SensorError::DifferentBodies)
    );
    assert_eq!(
        send_sensors(&[(1, [0; 3])], &[(1, imu())], &[(3, 0)]).err(),
        Some(SensorError::DifferentBodies)
    );
}

#[test]
fn zero_or_one_items() {
    assert_eq!(zero_or_one::<u8>(&[]), Ok(None));
    assert_eq!(zero_or_one(&[4]), Ok(Some(4)));
    assert_eq!(zero_or_one(&[4, 5]), Err(()));
}
