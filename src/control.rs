//! What the simulator does with the messages that the controller sends:
//! thruster targets, camera switches and the controller's pose estimate.

use vstd::prelude::*;

use crate::incoming::IncomingMessage;

verus! {

/// Which vehicle a thruster belongs to, and its index among that vehicle's
/// thrusters. The vehicle is named by its entity id.
#[derive(Clone, Copy, Debug, PartialEq, Eq, Structural)]
pub struct ThrusterOf {
    pub sub: u64,
    pub id: u8,
}

/// The commanded output of a thruster, as the bits of an `f32`.
#[derive(Clone, Copy, Debug, PartialEq, Eq, Structural)]
pub struct ThrusterTarget {
    pub target_output: u32,
}

/// Whether a camera has been switched on by the controller.
#[derive(Clone, Copy, Debug, PartialEq, Eq, Structural)]
pub struct CameraEnabled(pub bool);

/// The thruster outputs of the last `Motors` message of `ms`.
pub open spec fn last_motors(ms: Seq<IncomingMessage>) -> Option<Seq<u32>>
    decreases ms.len(),
{
    if ms.len() == 0 {
        None
    } else {
        match ms.last() {
            IncomingMessage::Motors(p) => Some(p@),
            _ => last_motors(ms.drop_last()),
        }
    }
}

/// The switch of the last `BotcamOn` message of `ms` (of the last `ZedOn`
/// message when `zed` holds).
pub open spec fn last_switch(ms: Seq<IncomingMessage>, zed: bool) -> Option<bool>
    decreases ms.len(),
{
    if ms.len() == 0 {
        None
    } else {
        match ms.last() {
            IncomingMessage::BotcamOn(b) if !zed => Some(b),
            IncomingMessage::ZedOn(b) if zed => Some(b),
            _ => last_switch(ms.drop_last(), zed),
        }
    }
}

/// The target of a thruster after a `Motors` message with outputs `p`: the
/// output at the thruster's id, or the old target when the id is past them.
pub open spec fn motors_target(info: ThrusterOf, old_target: ThrusterTarget, p: Seq<u32>) -> ThrusterTarget {
    if (info.id as int) < p.len() {
        ThrusterTarget { target_output: p[info.id as int] }
    } else {
        old_target
    }
}

/// Applies the last `Motors` message of `incoming` to every thruster; with
/// no such message the thrusters keep their targets.
pub fn handle_thrusters(incoming: &[IncomingMessage], thrusters: &mut Vec<(ThrusterOf, ThrusterTarget)>)
    ensures
        final(thrusters)@.len() == old(thrusters)@.len(),
        last_motors(incoming@) is None ==> final(thrusters)@ == old(thrusters)@,
        forall|i: int|
            0 <= i < old(thrusters)@.len() ==> {
                &&& (#[trigger] final(thrusters)@[i]).0 == old(thrusters)@[i].0
                &&& last_motors(incoming@) matches Some(p) ==> final(thrusters)@[i].1
                    == motors_target(old(thrusters)@[i].0, old(thrusters)@[i].1, p)
            },
{
    let mut powers: Option<[u32; 8]> = None;
    let mut k: usize = 0;
    while k < incoming.len()
        invariant
            k <= incoming@.len(),
            match powers {
                Some(p) => last_motors(incoming@.take(k as int)) == Some(p@),
                None => last_motors(incoming@.take(k as int)) is None,
            },
        decreases incoming@.len() - k,
    {
        assert(incoming@.take(k + 1).drop_last() =~= incoming@.take(k as int));
        match incoming[k] {
            IncomingMessage::Motors(p) => {
                powers = Some(p);
            },
            _ => {},
        }
        k += 1;
    }
    assert(incoming@.take(k as int) =~= incoming@);
    if let Some(p) = powers {
        let ghost start = thrusters@;
        let mut i: usize = 0;
        while i < thrusters.len()
            invariant
                i <= thrusters@.len(),
                thrusters@.len() == start.len(),
                last_motors(incoming@) == Some(p@),
                forall|j: int|
                    0 <= j < thrusters@.len() ==> (#[trigger] thrusters@[j]).0 == start[j].0,
                forall|j: int|
                    0 <= j < i ==> (#[trigger] thrusters@[j]).1 == motors_target(
                        start[j].0,
                        start[j].1,
                        p@,
                    ),
                forall|j: int| i <= j < thrusters@.len() ==> (#[trigger] thrusters@[j]) == start[j],
            decreases thrusters@.len() - i,
        {
            let (info, target) = thrusters[i];
            if (info.id as usize) < 8 {
                thrusters.set(i, (info, ThrusterTarget { target_output: p[info.id as usize] }));
            }
            i += 1;
        }
    }
}

/// The last switch for one kind of camera among `incoming`.
fn last_switch_exec(incoming: &[IncomingMessage], zed: bool) -> (r: Option<bool>)
    ensures
        r == last_switch(incoming@, zed),
{
    let mut on: Option<bool> = None;
    let mut k: usize = 0;
    while k < incoming.len()
        invariant
            k <= incoming@.len(),
            on == last_switch(incoming@.take(k as int), zed),
        decreases incoming@.len() - k,
    {
        assert(incoming@.take(k + 1).drop_last() =~= incoming@.take(k as int));
        match incoming[k] {
            IncomingMessage::BotcamOn(b) => {
                if !zed {
                    on = Some(b);
                }
            },
            IncomingMessage::ZedOn(b) => {
                if zed {
                    on = Some(b);
                }
            },
            _ => {},
        }
        k += 1;
    }
    assert(incoming@.take(k as int) =~= incoming@);
    on
}

/// Sets every camera of `cameras` to `on`.
fn switch_all(cameras: &mut Vec<CameraEnabled>, on: bool)
    ensures
        final(cameras)@.len() == old(cameras)@.len(),
        forall|i: int| 0 <= i < final(cameras)@.len() ==> #[trigger] final(cameras)@[i] == CameraEnabled(on),
{
    let mut i: usize = 0;
    while i < cameras.len()
        invariant
            i <= cameras@.len(),
            cameras@.len() == old(cameras)@.len(),
            forall|j: int| 0 <= j < i ==> #[trigger] cameras@[j] == CameraEnabled(on),
        decreases cameras@.len() - i,
    {
        cameras.set(i, CameraEnabled(on));
        i += 1;
    }
}

/// Applies the last `BotcamOn` message of `incoming` to every bottom camera
/// and the last `ZedOn` message to every ZED camera. Cameras of a kind with
/// no such message stay as they are.
pub fn handle_cameras(
    incoming: &[IncomingMessage],
    bottom_cameras: &mut Vec<CameraEnabled>,
    zed_cameras: &mut Vec<CameraEnabled>,
)
    ensures
        final(bottom_cameras)@.len() == old(bottom_cameras)@.len(),
        final(zed_cameras)@.len() == old(zed_cameras)@.len(),
        match last_switch(incoming@, false) {
            Some(on) => forall|i: int|
                0 <= i < final(bottom_cameras)@.len() ==> #[trigger] final(bottom_cameras)@[i]
                    == CameraEnabled(on),
            None => final(bottom_cameras)@ == old(bottom_cameras)@,
        },
        match last_switch(incoming@, true) {
            Some(on) => forall|i: int|
                0 <= i < final(zed_cameras)@.len() ==> #[trigger] final(zed_cameras)@[i]
                    == CameraEnabled(on),
            None => final(zed_cameras)@ == old(zed_cameras)@,
        },
{
    if let Some(on) = last_switch_exec(incoming, false) {
        switch_all(bottom_cameras, on);
    }
    if let Some(on) = last_switch_exec(incoming, true) {
        switch_all(zed_cameras, on);
    }
}

/// Whether a camera captures this tick: it is switched on and its timer has
/// just elapsed.
pub fn update_cam_enabled(enabled: CameraEnabled, timer_just_finished: bool) -> (r: bool)
    ensures
        r == (enabled.0 && timer_just_finished),
{
    enabled.0 && timer_just_finished
}

/// The bits of `-x` for the `f32` whose bits are `x`: its sign bit flipped.
pub open spec fn neg_bits(x: u32) -> u32 {
    x ^ 0x8000_0000u32
}

/// A vector of the controller's axes in the simulator's axes, the product
/// with the matrix whose columns are (1, 0, 0), (0, 0, 1), (0, -1, 0): x
/// stays, the new y is the old -z and the new z the old y.
pub open spec fn spec_change_of_coordinates(v: Seq<u32>) -> Seq<u32> {
    seq![v[0], neg_bits(v[2]), v[1]]
}

pub fn change_of_coordinates(v: [u32; 3]) -> (r: [u32; 3])
    ensures
        r@ == spec_change_of_coordinates(v@),
{
    let mut r = v;
    r[1] = v[2] ^ 0x8000_0000u32;
    r[2] = v[1];
    assert(r@ =~= spec_change_of_coordinates(v@));
    r
}

/// The controller's estimate of the vehicle's pose: its rotation matrix as
/// received, column by column, and its position and velocity in the
/// simulator's axes. Every `u32` holds the bits of an `f32`.
#[derive(Clone, Copy, Debug)]
pub struct LocalizationEstimate {
    pub rotation: [u32; 9],
    pub translation: [u32; 3],
    pub velocity: [u32; 3],
}

/// Rotation, position and velocity of the last `LocalizationEstimate`
/// message of `ms`, as received.
pub open spec fn last_localization(ms: Seq<IncomingMessage>) -> Option<(Seq<u32>, Seq<u32>, Seq<u32>)>
    decreases ms.len(),
{
    if ms.len() == 0 {
        None
    } else {
        match ms.last() {
            IncomingMessage::LocalizationEstimate { rotation, position, velocity } => Some(
                (rotation@, position@, velocity@),
            ),
            _ => last_localization(ms.drop_last()),
        }
    }
}

/// Replaces the estimate with the last one that `incoming` carries, turned
/// into the simulator's axes; with none the estimate stays as it is.
pub fn update_localization_estimate(
    incoming: &[IncomingMessage],
    estimate: &mut Option<LocalizationEstimate>,
)
    ensures
        match last_localization(incoming@) {
            None => *final(estimate) == *old(estimate),
            Some((r, p, v)) => *final(estimate) matches Some(e) && e.rotation@ == r
                && e.translation@ == spec_change_of_coordinates(p) && e.velocity@
                == spec_change_of_coordinates(v),
        },
{
    let mut latest: Option<LocalizationEstimate> = None;
    let mut k: usize = 0;
    while k < incoming.len()
        invariant
            k <= incoming@.len(),
            match last_localization(incoming@.take(k as int)) {
                None => latest is None,
                Some((r, p, v)) => latest matches Some(e) && e.rotation@ == r
                    && e.translation@ == spec_change_of_coordinates(p) && e.velocity@
                    == spec_change_of_coordinates(v),
            },
        decreases incoming@.len() - k,
    {
        assert(incoming@.take(k + 1).drop_last() =~= incoming@.take(k as int));
        match incoming[k] {
            IncomingMessage::LocalizationEstimate { rotation, position, velocity } => {
                latest = Some(
                    LocalizationEstimate {
                        rotation,
                        translation: change_of_coordinates(position),
                        velocity: change_of_coordinates(velocity),
                    },
                );
            },
            _ => {},
        }
        k += 1;
    }
    assert(incoming@.take(k as int) =~= incoming@);
    if latest.is_some() {
        *estimate = latest;
    }
}

} // verus!
