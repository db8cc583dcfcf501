//! Keyboard teleoperation: which keys drive which thrusters.

use vstd::prelude::*;

verus! {

/// Whether keyboard teleoperation drives the vehicle.
#[derive(Clone, Copy, Debug, PartialEq, Eq, Structural)]
pub enum TeleopState {
    NoTeleop,
    Teleop,
}

impl TeleopState {
    /// The state after the teleoperation key is pressed.
    pub fn toggled(self) -> (r: TeleopState)
        ensures
            r != self,
    {
        match self {
            TeleopState::NoTeleop => TeleopState::Teleop,
            TeleopState::Teleop => TeleopState::NoTeleop,
        }
    }
}

/// The teleoperation keys held down this frame.
#[derive(Clone, Copy, Debug, PartialEq, Eq, Structural)]
pub struct TeleopKeys {
    /// Surge forward (W) and back (S).
    pub forward: bool,
    pub back: bool,
    /// Sway left (A) and right (D).
    pub left: bool,
    pub right: bool,
    /// Heave down (Space) and up (left Shift).
    pub down: bool,
    pub up: bool,
    /// Yaw left (Q) and right (E).
    pub yaw_left: bool,
    pub yaw_right: bool,
}

/// One when only `pos` is held, minus one when only `neg` is, else zero.
pub open spec fn axis(pos: bool, neg: bool) -> int {
    (if pos {
        1int
    } else {
        0int
    }) - (if neg {
        1int
    } else {
        0int
    })
}

/// The command of thruster `id`, in units of the teleoperation scale: the
/// four corner thrusters mix surge, sway and yaw, the four vertical ones
/// carry heave.
pub open spec fn teleop_mix(k: TeleopKeys, id: u8) -> int {
    let x = axis(k.forward, k.back);
    let y = axis(k.up, k.down);
    let z = axis(k.right, k.left);
    let yaw = axis(k.yaw_right, k.yaw_left);
    if id == 0 {
        x - z - yaw
    } else if id == 1 {
        x + z + yaw
    } else if id == 2 {
        x + z - yaw
    } else if id == 3 {
        x - z + yaw
    } else {
        -y
    }
}

fn axis_exec(pos: bool, neg: bool) -> (r: i8)
    ensures
        r == axis(pos, neg),
{
    (if pos {
        1i8
    } else {
        0i8
    }) - (if neg {
        1i8
    } else {
        0i8
    })
}

/// The command of thruster `id` of the vehicle under teleoperation; the
/// caller scales it into a target output. Vehicles have eight thrusters.
pub fn teleop_command(keys: &TeleopKeys, id: u8) -> (r: i8)
    requires
        id < 8,
    ensures
        r == teleop_mix(*keys, id),
        -3 <= r <= 3,
{
    let x = axis_exec(keys.forward, keys.back);
    let y = axis_exec(keys.up, keys.down);
    let z = axis_exec(keys.right, keys.left);
    let yaw = axis_exec(keys.yaw_right, keys.yaw_left);
    match id {
        0 => x - z - yaw,
        1 => x + z + yaw,
        2 => x + z - yaw,
        3 => x - z + yaw,
        _ => -y,
    }
}

} // verus!
