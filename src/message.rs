//! The messages exchanged with the controller and their byte layouts.
//!
//! Every message on the wire is an 8-byte big-endian length, a 1-byte kind
//! tag and the kind's payload. The length counts the tag and the payload.

use vstd::prelude::*;

use crate::endian::{be64, be_words, push_words};

verus! {

/// Why a byte stream does not hold a message.
#[derive(Clone, Copy, Debug, PartialEq, Eq, Structural)]
pub enum FramingError {
    /// The stream ends before the message does.
    Truncated,
    /// The kind tag names no kind of message.
    UnknownKind(u8),
    /// The kind is known but never travels in this direction.
    UnexpectedKind(u8),
    /// A detection record carries a tag that names no target kind.
    UnknownTargetKind(u8),
}

/// The kinds of message, each with a fixed tag byte on the wire.
#[derive(Clone, Copy, Debug, PartialEq, Eq, Structural)]
pub enum MessageKind {
    Sensors,
    BotcamImage,
    ZedImage,
    MlTarget,
    Motors,
    BotcamOn,
    ZedOn,
    LocalizationEstimate,
}

impl MessageKind {
    pub open spec fn spec_tag(self) -> u8 {
        match self {
            MessageKind::Sensors => 1,
            MessageKind::BotcamImage => 2,
            MessageKind::ZedImage => 3,
            MessageKind::MlTarget => 4,
            MessageKind::Motors => 5,
            MessageKind::BotcamOn => 6,
            MessageKind::ZedOn => 7,
            MessageKind::LocalizationEstimate => 8,
        }
    }

    pub open spec fn spec_from_tag(tag: u8) -> Option<MessageKind> {
        if tag == 1 {
            Some(MessageKind::Sensors)
        } else if tag == 2 {
            Some(MessageKind::BotcamImage)
        } else if tag == 3 {
            Some(MessageKind::ZedImage)
        } else if tag == 4 {
            Some(MessageKind::MlTarget)
        } else if tag == 5 {
            Some(MessageKind::Motors)
        } else if tag == 6 {
            Some(MessageKind::BotcamOn)
        } else if tag == 7 {
            Some(MessageKind::ZedOn)
        } else if tag == 8 {
            Some(MessageKind::LocalizationEstimate)
        } else {
            None
        }
    }

    /// Kinds that the controller sends to the simulator.
    pub open spec fn is_incoming(self) -> bool {
        match self {
            MessageKind::Motors | MessageKind::BotcamOn | MessageKind::ZedOn
            | MessageKind::LocalizationEstimate => true,
            _ => false,
        }
    }

    /// The tag byte of this kind.
    pub fn tag(self) -> (r: u8)
        ensures
            r == self.spec_tag(),
    {
        match self {
            MessageKind::Sensors => 1,
            MessageKind::BotcamImage => 2,
            MessageKind::ZedImage => 3,
            MessageKind::MlTarget => 4,
            MessageKind::Motors => 5,
            MessageKind::BotcamOn => 6,
            MessageKind::ZedOn => 7,
            MessageKind::LocalizationEstimate => 8,
        }
    }

    /// The kind that `value` tags, or `UnknownKind` when it tags none.
    pub fn try_from(value: u8) -> (r: Result<MessageKind, FramingError>)
        ensures
            match MessageKind::spec_from_tag(value) {
                Some(k) => r == Ok::<MessageKind, FramingError>(k),
                None => r == Err::<MessageKind, FramingError>(FramingError::UnknownKind(value)),
            },
    {
        match value {
            1 => Ok(MessageKind::Sensors),
            2 => Ok(MessageKind::BotcamImage),
            3 => Ok(MessageKind::ZedImage),
            4 => Ok(MessageKind::MlTarget),
            5 => Ok(MessageKind::Motors),
            6 => Ok(MessageKind::BotcamOn),
            7 => Ok(MessageKind::ZedOn),
            8 => Ok(MessageKind::LocalizationEstimate),
            _ => Err(FramingError::UnknownKind(value)),
        }
    }
}

/// Velocity reported by the Doppler velocity log, in its own frame.
#[derive(Clone, Copy, Debug)]
pub struct Dvl {
    pub velocity_a: u32,
    pub velocity_b: u32,
    pub velocity_c: u32,
}

impl Dvl {
    pub open spec fn words(self) -> Seq<u32> {
        seq![self.velocity_a, self.velocity_b, self.velocity_c]
    }

    pub fn to_be_bytes(&self) -> (r: Vec<u8>)
        ensures
            r@ == be_words(self.words()),
    {
        let mut w: Vec<u32> = Vec::new();
        w.push(self.velocity_a);
        w.push(self.velocity_b);
        w.push(self.velocity_c);
        let mut r: Vec<u8> = Vec::new();
        push_words(&mut r, w.as_slice());
        assert(w@ =~= self.words());
        r
    }
}

/// Absolute orientation of the inertial unit.
#[derive(Clone, Copy, Debug)]
pub struct ImuINS {
    pub theta: [u32; 3],
}

impl ImuINS {
    pub open spec fn words(self) -> Seq<u32> {
        self.theta@
    }

    pub fn to_be_bytes(&self) -> (r: Vec<u8>)
        ensures
            r@ == be_words(self.words()),
    {
        let mut r: Vec<u8> = Vec::new();
        push_words(&mut r, self.theta.as_slice());
        r
    }
}

/// Increments of the inertial unit over one tick.
#[derive(Clone, Copy, Debug)]
pub struct ImuPIMU {
    pub dtheta: [u32; 3],
    pub dvel: [u32; 3],
    pub dt: u32,
}

impl ImuPIMU {
    pub open spec fn words(self) -> Seq<u32> {
        self.dtheta@ + self.dvel@ + seq![self.dt]
    }

    pub fn to_be_bytes(&self) -> (r: Vec<u8>)
        ensures
            r@ == be_words(self.words()),
    {
        let mut w: Vec<u32> = Vec::new();
        w.push(self.dtheta[0]);
        w.push(self.dtheta[1]);
        w.push(self.dtheta[2]);
        w.push(self.dvel[0]);
        w.push(self.dvel[1]);
        w.push(self.dvel[2]);
        w.push(self.dt);
        let mut r: Vec<u8> = Vec::new();
        push_words(&mut r, w.as_slice());
        assert(w@ =~= self.words());
        r
    }
}

/// One tick's readings of every sensor of the vehicle.
#[derive(Clone, Copy, Debug)]
pub struct SensorMessage {
    pub depth: u32,
    pub dvl: Dvl,
    pub imu_ins: ImuINS,
    pub imu_pimu: ImuPIMU,
}

impl SensorMessage {
    /// The fourteen words of the message, in wire order.
    pub open spec fn words(self) -> Seq<u32> {
        seq![self.depth] + self.dvl.words() + self.imu_ins.words() + self.imu_pimu.words()
    }

    pub fn to_be_bytes(&self) -> (r: Vec<u8>)
        ensures
            r@ == be_words(self.words()),
            r@.len() == 56,
    {
        let mut w: Vec<u32> = Vec::new();
        w.push(self.depth);
        w.push(self.dvl.velocity_a);
        w.push(self.dvl.velocity_b);
        w.push(self.dvl.velocity_c);
        w.push(self.imu_ins.theta[0]);
        w.push(self.imu_ins.theta[1]);
        w.push(self.imu_ins.theta[2]);
        w.push(self.imu_pimu.dtheta[0]);
        w.push(self.imu_pimu.dtheta[1]);
        w.push(self.imu_pimu.dtheta[2]);
        w.push(self.imu_pimu.dvel[0]);
        w.push(self.imu_pimu.dvel[1]);
        w.push(self.imu_pimu.dvel[2]);
        w.push(self.imu_pimu.dt);
        let mut r: Vec<u8> = Vec::new();
        push_words(&mut r, w.as_slice());
        assert(w@ =~= self.words());
        proof {
            crate::endian::lemma_be_words_len(w@);
        }
        r
    }
}

/// What a detection is of.
#[derive(Clone, Copy, Debug, PartialEq, Eq, Structural)]
pub enum MLTargetKind {
    GateRed,
    GateBlue,
    Unlabelled,
}

impl MLTargetKind {
    pub open spec fn spec_tag(self) -> u8 {
        match self {
            MLTargetKind::GateRed => 0,
            MLTargetKind::GateBlue => 1,
            MLTargetKind::Unlabelled => 255,
        }
    }

    pub open spec fn spec_from_tag(tag: u8) -> Option<MLTargetKind> {
        if tag == 0 {
            Some(MLTargetKind::GateRed)
        } else if tag == 1 {
            Some(MLTargetKind::GateBlue)
        } else if tag == 255 {
            Some(MLTargetKind::Unlabelled)
        } else {
            None
        }
    }

    pub fn tag(self) -> (r: u8)
        ensures
            r == self.spec_tag(),
    {
        match self {
            MLTargetKind::GateRed => 0,
            MLTargetKind::GateBlue => 1,
            MLTargetKind::Unlabelled => 255,
        }
    }

    pub fn from_tag(tag: u8) -> (r: Option<MLTargetKind>)
        ensures
            r == MLTargetKind::spec_from_tag(tag),
    {
        match tag {
            0 => Some(MLTargetKind::GateRed),
            1 => Some(MLTargetKind::GateBlue),
            255 => Some(MLTargetKind::Unlabelled),
            _ => None,
        }
    }
}

impl Default for MLTargetKind {
    fn default() -> (r: MLTargetKind)
        ensures
            r == MLTargetKind::Unlabelled,
    {
        MLTargetKind::Unlabelled
    }
}

/// One detection: its kind and its rectangle in viewport pixels.
#[derive(Clone, Copy, Debug)]
pub struct MLTargetData {
    pub kind: MLTargetKind,
    pub left: u32,
    pub top: u32,
    pub right: u32,
    pub bottom: u32,
}

impl MLTargetData {
    /// The record on the wire: the kind tag, then the four edges.
    pub open spec fn spec_bytes(self) -> Seq<u8> {
        seq![self.kind.spec_tag()] + be_words(seq![self.left, self.top, self.right, self.bottom])
    }

    pub fn push_bytes(&self, out: &mut Vec<u8>)
        ensures
            final(out)@ == old(out)@ + self.spec_bytes(),
    {
        out.push(self.kind.tag());
        let mut w: Vec<u32> = Vec::new();
        w.push(self.left);
        w.push(self.top);
        w.push(self.right);
        w.push(self.bottom);
        push_words(out, w.as_slice());
        assert(w@ =~= seq![self.left, self.top, self.right, self.bottom]);
        assert(final(out)@ =~= old(out)@ + self.spec_bytes());
    }
}

} // verus!

verus! {

/// A message on the wire: the length of tag and payload, the tag, the payload.
pub open spec fn frame(tag: u8, payload: Seq<u8>) -> Seq<u8> {
    be64((payload.len() + 1) as u64) + seq![tag] + payload
}

} // verus!
