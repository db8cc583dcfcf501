//! Laws of the wire codec.

use vstd::prelude::*;

use crate::endian::{
    be32, be64, be_words, lemma_be_words_append, lemma_be_words_len, lemma_u32_round_trip,
    lemma_u64_round_trip, lemma_words_at,
};
use crate::incoming::{parse_incoming, IncomingMessage, IncomingView};
use crate::message::{FramingError, MLTargetData};
use crate::outgoing::{
    detection_at, detection_bytes, lemma_detection_bytes_len, parse_detections, parse_image, parse_outgoing, parse_targets,
    OutgoingView,
};

verus! {

proof fn lemma_payload_len_incoming(m: IncomingMessage)
    ensures
        m@.payload().len() == m@.kind().spec_incoming_payload_len(),
        m@.kind().is_incoming(),
{
    match m@ {
        IncomingView::Motors(p) => lemma_be_words_len(p),
        IncomingView::LocalizationEstimate(r, p, v) => lemma_be_words_len(r + p + v),
        _ => {},
    }
}

/// Decoding the bytes of an incoming message gives the message back and takes
/// exactly its bytes, whatever follows them.
pub proof fn lemma_incoming_round_trip(m: IncomingMessage, rest: Seq<u8>)
    ensures
        parse_incoming(m@.encode() + rest) == Ok::<(IncomingView, int), FramingError>(
            (m@, m@.encode().len() as int),
        ),
{
    let s = m@.encode() + rest;
    let payload = m@.payload();
    lemma_payload_len_incoming(m);
    assert(s.subrange(9, 9 + payload.len() as int) =~= payload);
    assert(s[8] == m@.kind().spec_tag());
    match m {
        IncomingMessage::Motors(p) => {
            lemma_words_at(s, 9, p@);
        },
        IncomingMessage::LocalizationEstimate { rotation, position, velocity } => {
            lemma_be_words_append(rotation@, position@);
            lemma_be_words_append(rotation@ + position@, velocity@);
            lemma_be_words_len(rotation@);
            lemma_be_words_len(position@);
            lemma_be_words_len(velocity@);
            assert(s.subrange(9, 45) =~= be_words(rotation@));
            assert(s.subrange(45, 57) =~= be_words(position@));
            assert(s.subrange(57, 69) =~= be_words(velocity@));
            lemma_words_at(s, 9, rotation@);
            lemma_words_at(s, 45, position@);
            lemma_words_at(s, 57, velocity@);
        },
        _ => {},
    }
}

/// A stream that ends before an incoming message does decodes as
/// `Truncated`.
pub proof fn lemma_incoming_truncated(m: IncomingMessage, k: int)
    requires
        0 <= k < m@.encode().len(),
    ensures
        parse_incoming(m@.encode().take(k)) == Err::<(IncomingView, int), FramingError>(
            FramingError::Truncated,
        ),
{
    lemma_payload_len_incoming(m);
    let s = m@.encode().take(k);
    if k >= 9 {
        assert(s[8] == m@.kind().spec_tag());
    }
}

/// Record `i` of `ds` stands at bytes `17 * i .. 17 * i + 17` of their layout.
proof fn lemma_detection_bytes_index(ds: Seq<MLTargetData>, i: int)
    requires
        0 <= i < ds.len(),
    ensures
        detection_bytes(ds).subrange(17 * i, 17 * i + 17) == ds[i].spec_bytes(),
    decreases ds.len(),
{
    let init = ds.drop_last();
    lemma_detection_bytes_len(init);
    lemma_detection_bytes_len(ds);
    if i == ds.len() - 1 {
        assert(detection_bytes(ds).subrange(17 * i, 17 * i + 17) =~= ds[i].spec_bytes());
    } else {
        lemma_detection_bytes_index(init, i);
        assert(detection_bytes(ds).subrange(17 * i, 17 * i + 17) =~= detection_bytes(
            init,
        ).subrange(17 * i, 17 * i + 17));
    }
}

proof fn lemma_detection_at(s: Seq<u8>, at: int, d: MLTargetData)
    requires
        0 <= at,
        at + 17 <= s.len(),
        s.subrange(at, at + 17) == d.spec_bytes(),
    ensures
        detection_at(s, at) == Some(d),
{
    let ws = seq![d.left, d.top, d.right, d.bottom];
    lemma_be_words_len(ws);
    assert(s[at] == d.spec_bytes()[0]);
    assert(s.subrange(at + 1, at + 17) =~= d.spec_bytes().subrange(1, 17));
    assert(d.spec_bytes().subrange(1, 17) =~= be_words(ws));
    lemma_words_at(s, at + 1, ws);
}

proof fn lemma_parse_detections_ok(s: Seq<u8>, at: int, ds: Seq<MLTargetData>, i: nat)
    requires
        0 <= at,
        at + 17 * ds.len() <= s.len(),
        s.subrange(at, at + 17 * ds.len()) == detection_bytes(ds),
        i <= ds.len(),
    ensures
        parse_detections(s, at, i) == Ok::<Seq<MLTargetData>, FramingError>(ds.take(i as int)),
    decreases i,
{
    if i == 0 {
        assert(ds.take(0) =~= seq![]);
    } else {
        let j = i - 1;
        lemma_parse_detections_ok(s, at, ds, j as nat);
        lemma_detection_bytes_index(ds, j);
        lemma_detection_bytes_len(ds);
        assert(s.subrange(at + 17 * j, at + 17 * j + 17) =~= detection_bytes(ds).subrange(
            17 * j,
            17 * j + 17,
        ));
        lemma_detection_at(s, at + 17 * j, ds[j]);
        assert(ds.take(j).push(ds[j]) =~= ds.take(i as int));
    }
}

proof fn lemma_payload_len_outgoing(m: OutgoingView)
    requires
        m.wf(),
    ensures
        m.payload().len() == match m {
            OutgoingView::Sensors(_) => 56,
            OutgoingView::BotcamImage(_, _, _, buf) => 24 + buf.len(),
            OutgoingView::ZedImage(_, _, _, buf) => 24 + buf.len(),
            OutgoingView::MlTarget(ds, _) => 9 + 17 * ds.len(),
        },
{
    match m {
        OutgoingView::Sensors(ws) => lemma_be_words_len(ws),
        OutgoingView::MlTarget(ds, size) => {
            lemma_be_words_len(size);
            lemma_detection_bytes_len(ds);
        },
        _ => {},
    }
}

#[verifier::rlimit(40)]
proof fn lemma_targets_round_trip(m: OutgoingView, rest: Seq<u8>)
    requires
        m.wf(),
        m is MlTarget,
    ensures
        parse_targets(m.encode() + rest) == Ok::<(OutgoingView, int), FramingError>(
            (m, m.encode().len() as int),
        ),
{
    let ds = m->MlTarget_0;
    let size = m->MlTarget_1;
    let b = be_words(size);
    let d = detection_bytes(ds);
    let head = be64((10 + 17 * ds.len()) as u64) + seq![4u8] + seq![ds.len() as u8];
    lemma_be_words_len(size);
    lemma_detection_bytes_len(ds);
    assert(m.encode() =~= head + b + d);
    let s = head + b + d + rest;
    assert(s =~= m.encode() + rest);
    assert(s[9] == ds.len());
    assert(s.subrange(10, 18) =~= b);
    lemma_words_at(s, 10, size);
    assert(s.subrange(18, 18 + 17 * ds.len() as int) =~= d);
    lemma_parse_detections_ok(s, 18, ds, ds.len());
    assert(ds.take(ds.len() as int) =~= ds);
}

#[verifier::rlimit(40)]
proof fn lemma_image_round_trip(m: OutgoingView, rest: Seq<u8>)
    requires
        m.wf(),
        m is BotcamImage || m is ZedImage,
    ensures
        parse_image(m.kind(), m.encode() + rest) == Ok::<(OutgoingView, int), FramingError>(
            (m, m.encode().len() as int),
        ),
{
    let s = m.encode() + rest;
    lemma_payload_len_outgoing(m);
    match m {
        OutgoingView::BotcamImage(ts, w, h, buf) | OutgoingView::ZedImage(ts, w, h, buf) => {
            lemma_u64_round_trip(ts);
            lemma_u32_round_trip(w);
            lemma_u32_round_trip(h);
            lemma_u64_round_trip(buf.len() as u64);
            assert(s.subrange(9, 17) =~= be64(ts));
            assert(s.subrange(17, 21) =~= be32(w));
            assert(s.subrange(21, 25) =~= be32(h));
            assert(s.subrange(25, 33) =~= be64(buf.len() as u64));
            assert(s.subrange(33, 33 + buf.len() as int) =~= buf);
        },
        _ => {},
    }
}

/// Decoding the bytes of a well-formed outgoing message gives the message
/// back and takes exactly its bytes, whatever follows them.
pub proof fn lemma_outgoing_round_trip(m: OutgoingView, rest: Seq<u8>)
    requires
        m.wf(),
    ensures
        parse_outgoing(m.encode() + rest) == Ok::<(OutgoingView, int), FramingError>(
            (m, m.encode().len() as int),
        ),
{
    let s = m.encode() + rest;
    lemma_payload_len_outgoing(m);
    assert(s[8] == m.kind().spec_tag());
    match m {
        OutgoingView::Sensors(ws) => {
            assert(s.subrange(9, 65) =~= be_words(ws));
            lemma_words_at(s, 9, ws);
        },
        OutgoingView::MlTarget(..) => lemma_targets_round_trip(m, rest),
        _ => lemma_image_round_trip(m, rest),
    }
}

/// A stream that ends before a well-formed outgoing message does decodes as
/// `Truncated`.
#[verifier::rlimit(40)]
pub proof fn lemma_outgoing_truncated(m: OutgoingView, k: int)
    requires
        m.wf(),
        0 <= k < m.encode().len(),
    ensures
        parse_outgoing(m.encode().take(k)) == Err::<(OutgoingView, int), FramingError>(
            FramingError::Truncated,
        ),
{
    lemma_payload_len_outgoing(m);
    let e = m.encode();
    let s = e.take(k);
    if k >= 9 {
        assert(s[8] == m.kind().spec_tag());
        match m {
            OutgoingView::MlTarget(ds, _) => {
                if k >= 18 {
                    assert(s[9] == e[9]);
                }
            },
            OutgoingView::BotcamImage(_, _, _, buf) | OutgoingView::ZedImage(_, _, _, buf) => {
                if k >= 33 {
                    lemma_u64_round_trip(buf.len() as u64);
                    assert(s.subrange(25, 33) =~= e.subrange(25, 33));
                    assert(e.subrange(25, 33) =~= crate::endian::be64(buf.len() as u64));
                }
            },
            _ => {},
        }
    }
}

} // verus!
