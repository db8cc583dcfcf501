//! Assembly of one tick's sensor message from the readings of the vehicle's
//! sensors. The readings are computed from the rigid body's state outside
//! this library; here they are checked, reordered and negated where the
//! controller's axes require it. Negating an `f32` flips its sign bit.

use vstd::prelude::*;

use crate::control::neg_bits;
use crate::message::{Dvl, ImuINS, ImuPIMU, SensorMessage};

verus! {

/// What the inertial unit read this tick. Every `u32` holds the bits of an
/// `f32`.
#[derive(Clone, Copy, Debug)]
pub struct Imu {
    /// The body's orientation as yaw, pitch and roll (rotation order Y, Z, X).
    pub angle: [u32; 3],
    /// The rotation over the tick, in the sensor's axes.
    pub dtheta: [u32; 3],
    /// The change of velocity over the tick, in the sensor's axes.
    pub dvel: [u32; 3],
    /// The tick's length in seconds.
    pub dt: u32,
}

/// A sensor of each kind, with the entity id of the body it is mounted on.
#[derive(Clone, Copy, Debug, PartialEq, Eq, Structural)]
pub enum SensorKind {
    Dvl,
    Imu,
    Depth,
}

/// Why no sensor message is made this tick.
#[derive(Clone, Copy, Debug, PartialEq, Eq, Structural)]
pub enum SensorError {
    /// There is not exactly one sensor of this kind.
    UnexpectedSingleton(SensorKind),
    /// The sensors are mounted on different bodies.
    DifferentBodies,
}

/// Depth below the waterline at height zero: the height, negated.
pub fn depth_from_height(y: u32) -> (r: u32)
    ensures
        r == neg_bits(y),
{
    y ^ 0x8000_0000u32
}

/// The rotation over a tick as the controller reads it: the first of the
/// yaw, pitch and roll angles negated.
pub fn imu_dtheta(euler: [u32; 3]) -> (r: [u32; 3])
    ensures
        r@ == seq![neg_bits(euler[0]), euler[1], euler[2]],
{
    let mut r = euler;
    r[0] = euler[0] ^ 0x8000_0000u32;
    assert(r@ =~= seq![neg_bits(euler[0]), euler[1], euler[2]]);
    r
}

/// The one item of `items`, none when it is empty, or an error when it holds
/// several.
pub fn zero_or_one<T: Copy>(items: &[T]) -> (r: Result<Option<T>, ()>)
    ensures
        items@.len() == 0 ==> r == Ok::<Option<T>, ()>(None),
        items@.len() == 1 ==> r == Ok::<Option<T>, ()>(Some(items@[0])),
        items@.len() > 1 ==> r is Err,
{
    if items.len() == 0 {
        Ok(None)
    } else if items.len() == 1 {
        Ok(Some(items[0]))
    } else {
        Err(())
    }
}

fn exactly_one<T: Copy>(items: &[T], kind: SensorKind) -> (r: Result<T, SensorError>)
    ensures
        items@.len() == 1 ==> r == Ok::<T, SensorError>(items@[0]),
        items@.len() != 1 ==> r == Err::<T, SensorError>(SensorError::UnexpectedSingleton(kind)),
{
    match zero_or_one(items) {
        Ok(Some(item)) => Ok(item),
        _ => Err(SensorError::UnexpectedSingleton(kind)),
    }
}

/// The message of one tick, made from the vehicle's one DVL (its velocity),
/// one IMU and one depth sensor, each given with the body it is mounted on.
/// The orientation goes out as minus pitch, roll, yaw.
pub fn send_sensors(
    dvl: &[(u64, [u32; 3])],
    imu: &[(u64, Imu)],
    depth: &[(u64, u32)],
) -> (r: Result<SensorMessage, SensorError>)
    ensures
        dvl@.len() != 1 ==> r == Err::<SensorMessage, SensorError>(
            SensorError::UnexpectedSingleton(SensorKind::Dvl),
        ),
        dvl@.len() == 1 && imu@.len() != 1 ==> r == Err::<SensorMessage, SensorError>(
            SensorError::UnexpectedSingleton(SensorKind::Imu),
        ),
        dvl@.len() == 1 && imu@.len() == 1 && depth@.len() != 1 ==> r == Err::<
            SensorMessage,
            SensorError,
        >(SensorError::UnexpectedSingleton(SensorKind::Depth)),
        dvl@.len() == 1 && imu@.len() == 1 && depth@.len() == 1 ==> {
            let (b0, v) = dvl@[0];
            let (b1, m) = imu@[0];
            let (b2, d) = depth@[0];
            if b0 != b1 || b0 != b2 {
                r == Err::<SensorMessage, SensorError>(SensorError::DifferentBodies)
            } else {
                r matches Ok(s) && s.words() == seq![d] + v@ + seq![
                    neg_bits(m.angle[1]),
                    m.angle[2],
                    m.angle[0],
                ] + m.dtheta@ + m.dvel@ + seq![m.dt]
            }
        },
{
    let (b0, v) = match exactly_one(dvl, SensorKind::Dvl) {
        Ok(x) => x,
        Err(e) => return Err(e),
    };
    let (b1, m) = match exactly_one(imu, SensorKind::Imu) {
        Ok(x) => x,
        Err(e) => return Err(e),
    };
    let (b2, d) = match exactly_one(depth, SensorKind::Depth) {
        Ok(x) => x,
        Err(e) => return Err(e),
    };
    if b0 != b1 || b0 != b2 {
        return Err(SensorError::DifferentBodies);
    }
    let mut theta = m.angle;
    theta[0] = m.angle[1] ^ 0x8000_0000u32;
    theta[1] = m.angle[2];
    theta[2] = m.angle[0];
    let s = SensorMessage {
        depth: d,
        dvl: Dvl { velocity_a: v[0], velocity_b: v[1], velocity_c: v[2] },
        imu_ins: ImuINS { theta },
        imu_pimu: ImuPIMU { dtheta: m.dtheta, dvel: m.dvel, dt: m.dt },
    };
    assert(s.words() =~= seq![d] + v@ + seq![neg_bits(m.angle[1]), m.angle[2], m.angle[0]]
        + m.dtheta@ + m.dvel@ + seq![m.dt]);
    Ok(s)
}

} // verus!
