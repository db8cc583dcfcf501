//! Messages from the simulator to the controller: sensor readings, camera
//! images and detections.

use vstd::prelude::*;

use vstd::slice::{slice_subrange, slice_to_vec};

use crate::endian::{
    be32, be64, be_words, lemma_be_words_len, push_be32, push_be64, push_words, read_be32,
    read_be64, read_words, u32_from_be, u64_from_be, words_array, words_at,
};
use crate::detections::Detections;
use crate::message::{
    frame, Dvl, FramingError, ImuINS, ImuPIMU, MLTargetData, MLTargetKind, MessageKind,
    SensorMessage,
};

verus! {

/// A camera frame: its size and its raw RGBA8 pixels.
pub struct Image {
    pub width: u32,
    pub height: u32,
    pub buffer: Vec<u8>,
}

/// A message that the simulator sends. Each image carries the bits of an
/// `f64` count of seconds since the Unix epoch; the detections carry the bits
/// of the viewport's width and height.
pub enum OutgoingMessage {
    Sensors(SensorMessage),
    BotcamImage(u64, Image),
    ZedImage(u64, Image),
    MlTarget(Detections, [u32; 2]),
}

/// What an outgoing message holds, as plain values.
pub enum OutgoingView {
    /// The fourteen words of a sensor message.
    Sensors(Seq<u32>),
    /// Timestamp, width, height and pixels.
    BotcamImage(u64, u32, u32, Seq<u8>),
    ZedImage(u64, u32, u32, Seq<u8>),
    /// The detections and the viewport size.
    MlTarget(Seq<MLTargetData>, Seq<u32>),
}

/// The detection records, one after another.
pub open spec fn detection_bytes(ds: Seq<MLTargetData>) -> Seq<u8>
    decreases ds.len(),
{
    if ds.len() == 0 {
        seq![]
    } else {
        detection_bytes(ds.drop_last()) + ds.last().spec_bytes()
    }
}

/// The payload of an image: timestamp, width, height, pixel count, pixels.
pub open spec fn image_payload(ts: u64, w: u32, h: u32, buf: Seq<u8>) -> Seq<u8> {
    be64(ts) + be32(w) + be32(h) + be64(buf.len() as u64) + buf
}

impl OutgoingView {
    pub open spec fn kind(self) -> MessageKind {
        match self {
            OutgoingView::Sensors(_) => MessageKind::Sensors,
            OutgoingView::BotcamImage(..) => MessageKind::BotcamImage,
            OutgoingView::ZedImage(..) => MessageKind::ZedImage,
            OutgoingView::MlTarget(..) => MessageKind::MlTarget,
        }
    }

    /// The message fits its layout: fourteen sensor words, a pixel count and
    /// a frame length that fit in 64 bits, at most 255 detections.
    pub open spec fn wf(self) -> bool {
        match self {
            OutgoingView::Sensors(ws) => ws.len() == 14,
            OutgoingView::BotcamImage(_, _, _, buf) => buf.len() + 25 <= u64::MAX,
            OutgoingView::ZedImage(_, _, _, buf) => buf.len() + 25 <= u64::MAX,
            OutgoingView::MlTarget(ds, size) => ds.len() <= 255 && size.len() == 2,
        }
    }

    pub open spec fn payload(self) -> Seq<u8> {
        match self {
            OutgoingView::Sensors(ws) => be_words(ws),
            OutgoingView::BotcamImage(ts, w, h, buf) => image_payload(ts, w, h, buf),
            OutgoingView::ZedImage(ts, w, h, buf) => image_payload(ts, w, h, buf),
            OutgoingView::MlTarget(ds, size) => seq![ds.len() as u8] + be_words(size)
                + detection_bytes(ds),
        }
    }

    /// The bytes of the whole message on the wire.
    pub open spec fn encode(self) -> Seq<u8> {
        frame(self.kind().spec_tag(), self.payload())
    }
}

impl View for OutgoingMessage {
    type V = OutgoingView;

    open spec fn view(&self) -> OutgoingView {
        match self {
            OutgoingMessage::Sensors(s) => OutgoingView::Sensors(s.words()),
            OutgoingMessage::BotcamImage(ts, img) => OutgoingView::BotcamImage(
                *ts,
                img.width,
                img.height,
                img.buffer@,
            ),
            OutgoingMessage::ZedImage(ts, img) => OutgoingView::ZedImage(
                *ts,
                img.width,
                img.height,
                img.buffer@,
            ),
            OutgoingMessage::MlTarget(ds, size) => OutgoingView::MlTarget(ds@, size@),
        }
    }
}

pub proof fn lemma_detection_bytes_len(ds: Seq<MLTargetData>)
    ensures
        detection_bytes(ds).len() == 17 * ds.len(),
    decreases ds.len(),
{
    if ds.len() > 0 {
        lemma_detection_bytes_len(ds.drop_last());
        lemma_be_words_len(seq![ds.last().left, ds.last().top, ds.last().right, ds.last().bottom]);
    }
}

/// Appends the pixels of `buf`.
fn push_bytes(out: &mut Vec<u8>, buf: &Vec<u8>)
    ensures
        final(out)@ == old(out)@ + buf@,
{
    let ghost start = out@;
    let mut i: usize = 0;
    while i < buf.len()
        invariant
            i <= buf@.len(),
            out@ == start + buf@.take(i as int),
        decreases buf@.len() - i,
    {
        out.push(buf[i]);
        i += 1;
        assert(out@ =~= start + buf@.take(i as int));
    }
    assert(buf@.take(i as int) =~= buf@);
}

fn push_image(out: &mut Vec<u8>, ts: u64, img: &Image)
    requires
        img.buffer@.len() + 25 <= u64::MAX,
    ensures
        final(out)@ == old(out)@ + image_payload(ts, img.width, img.height, img.buffer@),
{
    push_be64(out, ts);
    push_be32(out, img.width);
    push_be32(out, img.height);
    push_be64(out, img.buffer.len() as u64);
    push_bytes(out, &img.buffer);
    assert(final(out)@ =~= old(out)@ + image_payload(ts, img.width, img.height, img.buffer@));
}

fn push_detections(out: &mut Vec<u8>, ds: &Detections)
    ensures
        final(out)@ == old(out)@ + detection_bytes(ds@),
{
    let ghost start = out@;
    let n = ds.len();
    let mut i: usize = 0;
    assert(ds@.take(0) =~= seq![]);
    while i < n
        invariant
            n == ds@.len(),
            i <= n,
            out@ == start + detection_bytes(ds@.take(i as int)),
        decreases n - i,
    {
        let d = ds.get(i);
        d.push_bytes(out);
        proof {
            let t = ds@.take(i + 1);
            assert(t.drop_last() =~= ds@.take(i as int));
            assert(t.last() == d);
        }
        i += 1;
        assert(out@ =~= start + detection_bytes(ds@.take(i as int)));
    }
    assert(ds@.take(i as int) =~= ds@);
}

impl OutgoingMessage {
    pub fn kind(&self) -> (r: MessageKind)
        ensures
            r == self@.kind(),
    {
        match self {
            OutgoingMessage::Sensors(..) => MessageKind::Sensors,
            OutgoingMessage::BotcamImage(..) => MessageKind::BotcamImage,
            OutgoingMessage::ZedImage(..) => MessageKind::ZedImage,
            OutgoingMessage::MlTarget(..) => MessageKind::MlTarget,
        }
    }

    /// Whether the message fits its layout (`wf`): at most 255 detections, an
    /// image small enough for its length fields.
    pub fn fits_layout(&self) -> (r: bool)
        ensures
            r == self@.wf(),
    {
        match self {
            OutgoingMessage::Sensors(_) => true,
            OutgoingMessage::BotcamImage(_, image) | OutgoingMessage::ZedImage(_, image) => {
                image.buffer.len() as u64 <= u64::MAX - 25
            },
            OutgoingMessage::MlTarget(targets, _) => targets.len() <= 255,
        }
    }

    /// The value of the length field: the bytes of tag and payload.
    pub fn len(&self) -> (r: u64)
        requires
            self@.wf(),
        ensures
            r == self@.payload().len() + 1,
    {
        proof {
            match self@ {
                OutgoingView::Sensors(ws) => lemma_be_words_len(ws),
                OutgoingView::MlTarget(ds, size) => {
                    lemma_be_words_len(size);
                    lemma_detection_bytes_len(ds);
                },
                _ => {},
            }
        }
        match self {
            OutgoingMessage::Sensors(..) => 57,
            OutgoingMessage::BotcamImage(_, image) | OutgoingMessage::ZedImage(_, image) => {
                25 + image.buffer.len() as u64
            },
            OutgoingMessage::MlTarget(targets, _) => 10 + 17 * targets.len() as u64,
        }
    }

    /// The bytes of the message on the wire.
    pub fn encode(&self) -> (r: Vec<u8>)
        requires
            self@.wf(),
        ensures
            r@ == self@.encode(),
    {
        let mut out: Vec<u8> = Vec::new();
        push_be64(&mut out, self.len());
        out.push(self.kind().tag());
        let ghost head = out@;
        match self {
            OutgoingMessage::Sensors(s) => {
                let b = s.to_be_bytes();
                push_bytes(&mut out, &b);
            },
            OutgoingMessage::BotcamImage(ts, image) | OutgoingMessage::ZedImage(ts, image) => {
                push_image(&mut out, *ts, image);
            },
            OutgoingMessage::MlTarget(targets, size) => {
                out.push(targets.len() as u8);
                push_words(&mut out, size.as_slice());
                push_detections(&mut out, targets);
            },
        }
        assert(out@ =~= self@.encode());
        out
    }
}

/// The detection record at byte `at` of `s`, if its tag names a target kind.
pub open spec fn detection_at(s: Seq<u8>, at: int) -> Option<MLTargetData> {
    match MLTargetKind::spec_from_tag(s[at]) {
        None => None,
        Some(kind) => {
            let w = words_at(s, at + 1, 4);
            Some(MLTargetData { kind, left: w[0], top: w[1], right: w[2], bottom: w[3] })
        },
    }
}

/// The first `n` detection records from byte `at` of `s`, or the tag of the
/// first one that names no target kind.
pub open spec fn parse_detections(s: Seq<u8>, at: int, n: nat) -> Result<
    Seq<MLTargetData>,
    FramingError,
>
    decreases n,
{
    if n == 0 {
        Ok(seq![])
    } else {
        match parse_detections(s, at, (n - 1) as nat) {
            Err(e) => Err(e),
            Ok(ds) => match detection_at(s, at + 17 * (n - 1)) {
                None => Err(FramingError::UnknownTargetKind(s[at + 17 * (n - 1)])),
                Some(d) => Ok(ds.push(d)),
            },
        }
    }
}

/// The image message of kind `k` at the start of `s`.
pub open spec fn parse_image(k: MessageKind, s: Seq<u8>) -> Result<(OutgoingView, int), FramingError> {
    if s.len() < 33 {
        Err(FramingError::Truncated)
    } else {
        let n = u64_from_be(s.subrange(25, 33));
        if s.len() < 33 + n {
            Err(FramingError::Truncated)
        } else {
            let ts = u64_from_be(s.subrange(9, 17));
            let w = u32_from_be(s.subrange(17, 21));
            let h = u32_from_be(s.subrange(21, 25));
            let buf = s.subrange(33, 33 + n);
            if k == MessageKind::BotcamImage {
                Ok((OutgoingView::BotcamImage(ts, w, h, buf), 33 + n))
            } else {
                Ok((OutgoingView::ZedImage(ts, w, h, buf), 33 + n))
            }
        }
    }
}

/// The detections message at the start of `s`.
pub open spec fn parse_targets(s: Seq<u8>) -> Result<(OutgoingView, int), FramingError> {
    if s.len() < 18 || s.len() < 18 + 17 * s[9] {
        Err(FramingError::Truncated)
    } else {
        match parse_detections(s, 18, s[9] as nat) {
            Err(e) => Err(e),
            Ok(ds) => Ok((OutgoingView::MlTarget(ds, words_at(s, 10, 2)), 18 + 17 * s[9])),
        }
    }
}

/// The message at the start of `s` and the number of bytes it takes, or why
/// there is none. The length field is not read: the payload delimits itself.
pub open spec fn parse_outgoing(s: Seq<u8>) -> Result<(OutgoingView, int), FramingError> {
    if s.len() < 9 {
        Err(FramingError::Truncated)
    } else {
        match MessageKind::spec_from_tag(s[8]) {
            None => Err(FramingError::UnknownKind(s[8])),
            Some(k) => if k.is_incoming() {
                Err(FramingError::UnexpectedKind(s[8]))
            } else if k == MessageKind::Sensors {
                if s.len() < 65 {
                    Err(FramingError::Truncated)
                } else {
                    Ok((OutgoingView::Sensors(words_at(s, 9, 14)), 65))
                }
            } else if k == MessageKind::MlTarget {
                parse_targets(s)
            } else {
                parse_image(k, s)
            },
        }
    }
}

/// Once a record fails, every longer run of records fails with it.
pub proof fn lemma_parse_detections_err(s: Seq<u8>, at: int, i: nat, n: nat)
    requires
        i <= n,
        parse_detections(s, at, i) is Err,
    ensures
        parse_detections(s, at, n) == parse_detections(s, at, i),
    decreases n - i,
{
    if i < n {
        lemma_parse_detections_err(s, at, i, (n - 1) as nat);
    }
}

impl SensorMessage {
    /// The message whose fourteen words are `w`.
    pub fn from_words(w: &[u32]) -> (r: SensorMessage)
        requires
            w@.len() == 14,
        ensures
            r.words() == w@,
    {
        let theta: [u32; 3] = words_array(w, 4);
        let dtheta: [u32; 3] = words_array(w, 7);
        let dvel: [u32; 3] = words_array(w, 10);
        let r = SensorMessage {
            depth: w[0],
            dvl: Dvl { velocity_a: w[1], velocity_b: w[2], velocity_c: w[3] },
            imu_ins: ImuINS { theta },
            imu_pimu: ImuPIMU { dtheta, dvel, dt: w[13] },
        };
        assert(r.words() =~= w@);
        r
    }
}

fn decode_targets(bytes: &[u8]) -> (r: Result<(OutgoingMessage, usize), FramingError>)
    requires
        bytes@.len() >= 9,
    ensures
        match r {
            Ok((m, n)) => parse_targets(bytes@) == Ok::<(OutgoingView, int), FramingError>(
                (m@, n as int),
            ),
            Err(e) => parse_targets(bytes@) == Err::<(OutgoingView, int), FramingError>(e),
        },
{
    let len = bytes.len();
    if len < 18 {
        return Err(FramingError::Truncated);
    }
    let n = bytes[9] as usize;
    if len - 18 < 17 * n {
        return Err(FramingError::Truncated);
    }
    let w = read_words(bytes, 10, 2);
    let size: [u32; 2] = words_array(w.as_slice(), 0);
    let mut ds = Detections::new();
    let mut i: usize = 0;
    while i < n
        invariant
            n == bytes@[9],
            len == bytes@.len(),
            18 + 17 * n <= len,
            i <= n,
            parse_detections(bytes@, 18, i as nat) == Ok::<Seq<MLTargetData>, FramingError>(
                ds@,
            ),
            ds@.len() == i,
        decreases n - i,
    {
        let at = 18 + 17 * i;
        let tag = bytes[at];
        match MLTargetKind::from_tag(tag) {
            None => {
                proof {
                    lemma_parse_detections_err(bytes@, 18, (i + 1) as nat, n as nat);
                }
                return Err(FramingError::UnknownTargetKind(tag));
            },
            Some(kind) => {
                let e = read_words(bytes, at + 1, 4);
                ds.push(MLTargetData { kind, left: e[0], top: e[1], right: e[2], bottom: e[3] });
            },
        }
        i += 1;
    }
    assert(size@ =~= words_at(bytes@, 10, 2));
    Ok((OutgoingMessage::MlTarget(ds, size), 18 + 17 * n))
}

fn decode_image(kind: MessageKind, bytes: &[u8]) -> (r: Result<(OutgoingMessage, usize), FramingError>)
    requires
        bytes@.len() >= 9,
        kind == MessageKind::BotcamImage || kind == MessageKind::ZedImage,
    ensures
        match r {
            Ok((m, n)) => parse_image(kind, bytes@) == Ok::<(OutgoingView, int), FramingError>(
                (m@, n as int),
            ),
            Err(e) => parse_image(kind, bytes@) == Err::<(OutgoingView, int), FramingError>(e),
        },
{
    let len = bytes.len();
    if len < 33 {
        return Err(FramingError::Truncated);
    }
    let n = read_be64(bytes, 25);
    if ((len - 33) as u64) < n {
        return Err(FramingError::Truncated);
    }
    let n = n as usize;
    let ts = read_be64(bytes, 9);
    let width = read_be32(bytes, 17);
    let height = read_be32(bytes, 21);
    let buffer = slice_to_vec(slice_subrange(bytes, 33, 33 + n));
    let image = Image { width, height, buffer };
    match kind {
        MessageKind::BotcamImage => Ok((OutgoingMessage::BotcamImage(ts, image), 33 + n)),
        _ => Ok((OutgoingMessage::ZedImage(ts, image), 33 + n)),
    }
}

/// Reads the message at the start of `bytes`, as the controller does: the
/// message and the number of bytes it takes, or why there is none.
pub fn decode_outgoing(bytes: &[u8]) -> (r: Result<(OutgoingMessage, usize), FramingError>)
    ensures
        match r {
            Ok((m, n)) => parse_outgoing(bytes@) == Ok::<(OutgoingView, int), FramingError>(
                (m@, n as int),
            ),
            Err(e) => parse_outgoing(bytes@) == Err::<(OutgoingView, int), FramingError>(e),
        },
{
    if bytes.len() < 9 {
        return Err(FramingError::Truncated);
    }
    let kind = match MessageKind::try_from(bytes[8]) {
        Ok(k) => k,
        Err(e) => return Err(e),
    };
    match kind {
        MessageKind::Sensors => {
            if bytes.len() < 65 {
                return Err(FramingError::Truncated);
            }
            let w = read_words(bytes, 9, 14);
            let s = SensorMessage::from_words(w.as_slice());
            Ok((OutgoingMessage::Sensors(s), 65))
        },
        MessageKind::BotcamImage | MessageKind::ZedImage => decode_image(kind, bytes),
        MessageKind::MlTarget => decode_targets(bytes),
        _ => Err(FramingError::UnexpectedKind(bytes[8])),
    }
}

} // verus!
