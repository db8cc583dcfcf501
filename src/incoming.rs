//! Messages from the controller to the simulator: thruster commands, camera
//! switches and the controller's estimate of the vehicle's pose.

use vstd::prelude::*;

use crate::endian::{be_words, lemma_be_words_len, push_words, read_words, words_array, words_at};
use crate::message::{frame, FramingError, MessageKind};

verus! {

/// A message that the controller sends. Every `u32` holds the bits of an `f32`.
#[derive(Clone, Copy, Debug)]
pub enum IncomingMessage {
    /// The target output of each of the eight thrusters, by thruster id.
    Motors([u32; 8]),
    BotcamOn(bool),
    ZedOn(bool),
    /// A 3x3 rotation, column by column, then a position and a velocity,
    /// all in the controller's axes.
    LocalizationEstimate { rotation: [u32; 9], position: [u32; 3], velocity: [u32; 3] },
}

/// What an incoming message holds, as plain values.
pub enum IncomingView {
    Motors(Seq<u32>),
    BotcamOn(bool),
    ZedOn(bool),
    LocalizationEstimate(Seq<u32>, Seq<u32>, Seq<u32>),
}

impl View for IncomingMessage {
    type V = IncomingView;

    open spec fn view(&self) -> IncomingView {
        match *self {
            IncomingMessage::Motors(p) => IncomingView::Motors(p@),
            IncomingMessage::BotcamOn(b) => IncomingView::BotcamOn(b),
            IncomingMessage::ZedOn(b) => IncomingView::ZedOn(b),
            IncomingMessage::LocalizationEstimate { rotation, position, velocity } =>
                IncomingView::LocalizationEstimate(rotation@, position@, velocity@),
        }
    }
}

/// The byte of a switch: one for on, zero for off.
pub open spec fn switch_byte(on: bool) -> u8 {
    if on {
        1
    } else {
        0
    }
}

impl MessageKind {
    /// The payload size of each kind that the controller sends.
    pub open spec fn spec_incoming_payload_len(self) -> int {
        match self {
            MessageKind::Motors => 32,
            MessageKind::BotcamOn => 1,
            MessageKind::ZedOn => 1,
            _ => 60,
        }
    }

    /// How many payload bytes follow the tag of this kind, or
    /// `UnexpectedKind` for a kind that only the simulator sends.
    pub fn incoming_payload_len(self) -> (r: Result<usize, FramingError>)
        ensures
            self.is_incoming() ==> r == Ok::<usize, FramingError>(
                self.spec_incoming_payload_len() as usize,
            ),
            !self.is_incoming() ==> r == Err::<usize, FramingError>(
                FramingError::UnexpectedKind(self.spec_tag()),
            ),
    {
        match self {
            MessageKind::Motors => Ok(32),
            MessageKind::BotcamOn => Ok(1),
            MessageKind::ZedOn => Ok(1),
            MessageKind::LocalizationEstimate => Ok(60),
            _ => Err(FramingError::UnexpectedKind(self.tag())),
        }
    }
}

impl IncomingView {
    pub open spec fn kind(self) -> MessageKind {
        match self {
            IncomingView::Motors(_) => MessageKind::Motors,
            IncomingView::BotcamOn(_) => MessageKind::BotcamOn,
            IncomingView::ZedOn(_) => MessageKind::ZedOn,
            IncomingView::LocalizationEstimate(..) => MessageKind::LocalizationEstimate,
        }
    }

    pub open spec fn payload(self) -> Seq<u8> {
        match self {
            IncomingView::Motors(p) => be_words(p),
            IncomingView::BotcamOn(b) => seq![switch_byte(b)],
            IncomingView::ZedOn(b) => seq![switch_byte(b)],
            IncomingView::LocalizationEstimate(r, p, v) => be_words(r + p + v),
        }
    }

    /// The bytes of the whole message on the wire.
    pub open spec fn encode(self) -> Seq<u8> {
        frame(self.kind().spec_tag(), self.payload())
    }
}

/// The message of kind `k` whose payload starts at byte 9 of `s`.
pub open spec fn incoming_at(k: MessageKind, s: Seq<u8>) -> IncomingView {
    match k {
        MessageKind::Motors => IncomingView::Motors(words_at(s, 9, 8)),
        MessageKind::BotcamOn => IncomingView::BotcamOn(s[9] != 0),
        MessageKind::ZedOn => IncomingView::ZedOn(s[9] != 0),
        _ => IncomingView::LocalizationEstimate(
            words_at(s, 9, 9),
            words_at(s, 45, 3),
            words_at(s, 57, 3),
        ),
    }
}

/// The message at the start of `s` and the number of bytes it takes, or why
/// there is none. The length field is not read: the kind fixes the payload.
pub open spec fn parse_incoming(s: Seq<u8>) -> Result<(IncomingView, int), FramingError> {
    if s.len() < 9 {
        Err(FramingError::Truncated)
    } else {
        match MessageKind::spec_from_tag(s[8]) {
            None => Err(FramingError::UnknownKind(s[8])),
            Some(k) => if !k.is_incoming() {
                Err(FramingError::UnexpectedKind(s[8]))
            } else if s.len() < 9 + k.spec_incoming_payload_len() {
                Err(FramingError::Truncated)
            } else {
                Ok((incoming_at(k, s), 9 + k.spec_incoming_payload_len()))
            },
        }
    }
}

impl IncomingMessage {
    pub fn kind(&self) -> (r: MessageKind)
        ensures
            r == self@.kind(),
    {
        match self {
            IncomingMessage::Motors(_) => MessageKind::Motors,
            IncomingMessage::BotcamOn(_) => MessageKind::BotcamOn,
            IncomingMessage::ZedOn(_) => MessageKind::ZedOn,
            IncomingMessage::LocalizationEstimate { .. } => MessageKind::LocalizationEstimate,
        }
    }

    /// The bytes of the message on the wire, as the controller writes them.
    pub fn encode(&self) -> (r: Vec<u8>)
        ensures
            r@ == self@.encode(),
    {
        let mut payload: Vec<u8> = Vec::new();
        match self {
            IncomingMessage::Motors(p) => {
                push_words(&mut payload, p.as_slice());
            },
            IncomingMessage::BotcamOn(b) | IncomingMessage::ZedOn(b) => {
                payload.push(if *b { 1u8 } else { 0u8 });
            },
            IncomingMessage::LocalizationEstimate { rotation, position, velocity } => {
                let mut w: Vec<u32> = Vec::new();
                w.extend_from_slice(rotation.as_slice());
                w.extend_from_slice(position.as_slice());
                w.extend_from_slice(velocity.as_slice());
                assert(w@ =~= rotation@ + position@ + velocity@);
                push_words(&mut payload, w.as_slice());
            },
        }
        assert(payload@ =~= self@.payload());
        proof {
            match self@ {
                IncomingView::Motors(p) => lemma_be_words_len(p),
                IncomingView::LocalizationEstimate(r, p, v) => lemma_be_words_len(r + p + v),
                _ => {},
            }
        }
        let mut out: Vec<u8> = Vec::new();
        crate::endian::push_be64(&mut out, payload.len() as u64 + 1);
        out.push(self.kind().tag());
        out.extend_from_slice(payload.as_slice());
        assert(out@ =~= self@.encode());
        out
    }
}

/// Reads the message at the start of `bytes`: the message and the number of
/// bytes it takes, or why there is none.
pub fn decode_incoming(bytes: &[u8]) -> (r: Result<(IncomingMessage, usize), FramingError>)
    ensures
        match r {
            Ok((m, n)) => parse_incoming(bytes@) == Ok::<(IncomingView, int), FramingError>(
                (m@, n as int),
            ),
            Err(e) => parse_incoming(bytes@) == Err::<(IncomingView, int), FramingError>(e),
        },
{
    if bytes.len() < 9 {
        return Err(FramingError::Truncated);
    }
    let kind = match MessageKind::try_from(bytes[8]) {
        Ok(k) => k,
        Err(e) => return Err(e),
    };
    let len = match kind.incoming_payload_len() {
        Ok(n) => n,
        Err(e) => return Err(e),
    };
    if bytes.len() - 9 < len {
        return Err(FramingError::Truncated);
    }
    let message = match kind {
        MessageKind::Motors => {
            let w = read_words(bytes, 9, 8);
            let p: [u32; 8] = words_array(w.as_slice(), 0);
            assert(p@ =~= words_at(bytes@, 9, 8));
            IncomingMessage::Motors(p)
        },
        MessageKind::BotcamOn => IncomingMessage::BotcamOn(bytes[9] != 0),
        MessageKind::ZedOn => IncomingMessage::ZedOn(bytes[9] != 0),
        _ => {
            let w = read_words(bytes, 9, 15);
            let rotation: [u32; 9] = words_array(w.as_slice(), 0);
            let position: [u32; 3] = words_array(w.as_slice(), 9);
            let velocity: [u32; 3] = words_array(w.as_slice(), 12);
            assert(rotation@ =~= words_at(bytes@, 9, 9));
            assert(position@ =~= words_at(bytes@, 45, 3));
            assert(velocity@ =~= words_at(bytes@, 57, 3));
            IncomingMessage::LocalizationEstimate { rotation, position, velocity }
        },
    };
    Ok((message, 9 + len))
}

} // verus!
