//! Big-endian byte layouts of integers, and sequences of 32-bit words.

use vstd::prelude::*;

verus! {

/// The four bytes of `x`, most significant first.
pub open spec fn be32(x: u32) -> Seq<u8> {
    seq![(x >> 24u32) as u8, (x >> 16u32) as u8, (x >> 8u32) as u8, x as u8]
}

/// The eight bytes of `x`, most significant first.
pub open spec fn be64(x: u64) -> Seq<u8> {
    seq![
        (x >> 56u64) as u8,
        (x >> 48u64) as u8,
        (x >> 40u64) as u8,
        (x >> 32u64) as u8,
        (x >> 24u64) as u8,
        (x >> 16u64) as u8,
        (x >> 8u64) as u8,
        x as u8,
    ]
}

/// The `u32` whose big-endian bytes are `b[0..4]`.
pub open spec fn u32_from_be(b: Seq<u8>) -> u32 {
    ((b[0] as u32) << 24u32) | ((b[1] as u32) << 16u32) | ((b[2] as u32) << 8u32) | (b[3] as u32)
}

/// The `u64` whose big-endian bytes are `b[0..8]`.
pub open spec fn u64_from_be(b: Seq<u8>) -> u64 {
    ((b[0] as u64) << 56u64) | ((b[1] as u64) << 48u64) | ((b[2] as u64) << 40u64) | ((b[3] as u64)
        << 32u64) | ((b[4] as u64) << 24u64) | ((b[5] as u64) << 16u64) | ((b[6] as u64) << 8u64)
        | (b[7] as u64)
}

/// The words of `ws`, each as four big-endian bytes, one after another.
pub open spec fn be_words(ws: Seq<u32>) -> Seq<u8>
    decreases ws.len(),
{
    if ws.len() == 0 {
        seq![]
    } else {
        be_words(ws.drop_last()) + be32(ws.last())
    }
}

/// The `n` big-endian words that start at byte `at` of `s`.
pub open spec fn words_at(s: Seq<u8>, at: int, n: nat) -> Seq<u32> {
    Seq::new(n, |i: int| u32_from_be(s.subrange(at + 4 * i, at + 4 * i + 4)))
}

pub proof fn lemma_u32_round_trip(x: u32)
    ensures
        u32_from_be(be32(x)) == x,
{
    let b = be32(x);
    assert(b[0] == (x >> 24u32) as u8 && b[1] == (x >> 16u32) as u8 && b[2] == (x >> 8u32) as u8
        && b[3] == x as u8);
    assert(((((x >> 24u32) as u8) as u32) << 24u32) | ((((x >> 16u32) as u8) as u32) << 16u32) | ((((
    x >> 8u32) as u8) as u32) << 8u32) | ((x as u8) as u32) == x) by (bit_vector);
}

pub proof fn lemma_u64_round_trip(x: u64)
    ensures
        u64_from_be(be64(x)) == x,
{
    let b = be64(x);
    assert(b[0] == (x >> 56u64) as u8 && b[1] == (x >> 48u64) as u8 && b[2] == (x >> 40u64) as u8
        && b[3] == (x >> 32u64) as u8 && b[4] == (x >> 24u64) as u8 && b[5] == (x >> 16u64) as u8
        && b[6] == (x >> 8u64) as u8 && b[7] == x as u8);
    assert(((((x >> 56u64) as u8) as u64) << 56u64) | ((((x >> 48u64) as u8) as u64) << 48u64) | ((((
    x >> 40u64) as u8) as u64) << 40u64) | ((((x >> 32u64) as u8) as u64) << 32u64) | ((((x
        >> 24u64) as u8) as u64) << 24u64) | ((((x >> 16u64) as u8) as u64) << 16u64) | ((((x
        >> 8u64) as u8) as u64) << 8u64) | ((x as u8) as u64) == x) by (bit_vector);
}

pub proof fn lemma_be_words_len(ws: Seq<u32>)
    ensures
        be_words(ws).len() == 4 * ws.len(),
    decreases ws.len(),
{
    if ws.len() > 0 {
        lemma_be_words_len(ws.drop_last());
    }
}

pub proof fn lemma_be_words_push(ws: Seq<u32>, x: u32)
    ensures
        be_words(ws.push(x)) == be_words(ws) + be32(x),
{
    assert(ws.push(x).drop_last() =~= ws);
}

pub proof fn lemma_be_words_append(a: Seq<u32>, b: Seq<u32>)
    ensures
        be_words(a + b) == be_words(a) + be_words(b),
    decreases b.len(),
{
    if b.len() == 0 {
        assert(a + b =~= a);
        assert(be_words(a) + be_words(b) =~= be_words(a));
    } else {
        lemma_be_words_append(a, b.drop_last());
        assert((a + b).drop_last() =~= a + b.drop_last());
        assert((a + b).last() == b.last());
        assert(be_words(a + b) =~= be_words(a) + be_words(b));
    }
}

/// Word `i` of `ws` stands at bytes `4 * i .. 4 * i + 4` of its layout.
pub proof fn lemma_be_words_index(ws: Seq<u32>, i: int)
    requires
        0 <= i < ws.len(),
    ensures
        be_words(ws).subrange(4 * i, 4 * i + 4) == be32(ws[i]),
    decreases ws.len(),
{
    let init = ws.drop_last();
    lemma_be_words_len(init);
    if i == ws.len() - 1 {
        assert(be_words(ws).subrange(4 * i, 4 * i + 4) =~= be32(ws[i]));
    } else {
        lemma_be_words_index(init, i);
        assert(be_words(ws).subrange(4 * i, 4 * i + 4) =~= be_words(init).subrange(
            4 * i,
            4 * i + 4,
        ));
    }
}

/// Reading the words back from their layout, wherever it stands, gives them back.
pub proof fn lemma_words_at_be_words(pre: Seq<u8>, ws: Seq<u32>, post: Seq<u8>)
    ensures
        words_at(pre + be_words(ws) + post, pre.len() as int, ws.len()) == ws,
{
    let s = pre + be_words(ws) + post;
    lemma_be_words_len(ws);
    assert forall|i: int| 0 <= i < ws.len() implies #[trigger] words_at(
        s,
        pre.len() as int,
        ws.len(),
    )[i] == ws[i] by {
        lemma_be_words_index(ws, i);
        let p = pre.len() as int;
        assert(s.subrange(p + 4 * i, p + 4 * i + 4) =~= be_words(ws).subrange(4 * i, 4 * i + 4));
        lemma_u32_round_trip(ws[i]);
    }
    assert(words_at(s, pre.len() as int, ws.len()) =~= ws);
}

/// Where the layout of `ws` stands at byte `at` of `s`, the words read there are `ws`.
pub proof fn lemma_words_at(s: Seq<u8>, at: int, ws: Seq<u32>)
    requires
        0 <= at,
        at + 4 * ws.len() <= s.len(),
        s.subrange(at, at + 4 * ws.len()) == be_words(ws),
    ensures
        words_at(s, at, ws.len()) == ws,
{
    lemma_words_at_be_words(s.take(at), ws, s.skip(at + 4 * ws.len()));
    assert(s =~= s.take(at) + be_words(ws) + s.skip(at + 4 * ws.len()));
}

/// Appends the big-endian bytes of `x`.
pub fn push_be32(out: &mut Vec<u8>, x: u32)
    ensures
        final(out)@ == old(out)@ + be32(x),
{
    out.push((x >> 24u32) as u8);
    out.push((x >> 16u32) as u8);
    out.push((x >> 8u32) as u8);
    out.push(x as u8);
    assert(final(out)@ =~= old(out)@ + be32(x));
}

/// Appends the big-endian bytes of `x`.
pub fn push_be64(out: &mut Vec<u8>, x: u64)
    ensures
        final(out)@ == old(out)@ + be64(x),
{
    out.push((x >> 56u64) as u8);
    out.push((x >> 48u64) as u8);
    out.push((x >> 40u64) as u8);
    out.push((x >> 32u64) as u8);
    out.push((x >> 24u64) as u8);
    out.push((x >> 16u64) as u8);
    out.push((x >> 8u64) as u8);
    out.push(x as u8);
    assert(final(out)@ =~= old(out)@ + be64(x));
}

/// Appends the big-endian bytes of each word of `ws`, in order.
pub fn push_words(out: &mut Vec<u8>, ws: &[u32])
    ensures
        final(out)@ == old(out)@ + be_words(ws@),
{
    let ghost start = out@;
    let mut i: usize = 0;
    assert(ws@.take(0) =~= seq![]);
    while i < ws.len()
        invariant
            i <= ws.len(),
            out@ == start + be_words(ws@.take(i as int)),
        decreases ws.len() - i,
    {
        proof {
            lemma_be_words_push(ws@.take(i as int), ws[i as int]);
            assert(ws@.take(i as int).push(ws[i as int]) =~= ws@.take(i + 1));
        }
        push_be32(out, ws[i]);
        i += 1;
    }
    assert(ws@.take(i as int) =~= ws@);
}

/// The big-endian `u32` at bytes `at .. at + 4` of `b`.
pub fn read_be32(b: &[u8], at: usize) -> (r: u32)
    requires
        at + 4 <= b@.len(),
    ensures
        r == u32_from_be(b@.subrange(at as int, at + 4)),
{
    ((b[at] as u32) << 24u32) | ((b[at + 1] as u32) << 16u32) | ((b[at + 2] as u32) << 8u32) | (b[at
        + 3] as u32)
}

/// The big-endian `u64` at bytes `at .. at + 8` of `b`.
pub fn read_be64(b: &[u8], at: usize) -> (r: u64)
    requires
        at + 8 <= b@.len(),
    ensures
        r == u64_from_be(b@.subrange(at as int, at + 8)),
{
    ((b[at] as u64) << 56u64) | ((b[at + 1] as u64) << 48u64) | ((b[at + 2] as u64) << 40u64) | ((b[at
        + 3] as u64) << 32u64) | ((b[at + 4] as u64) << 24u64) | ((b[at + 5] as u64) << 16u64) | ((b[at
        + 6] as u64) << 8u64) | (b[at + 7] as u64)
}

/// The `n` big-endian words that start at byte `at` of `b`.
pub fn read_words(b: &[u8], at: usize, n: usize) -> (r: Vec<u32>)
    requires
        at + 4 * n <= b@.len(),
    ensures
        r@ == words_at(b@, at as int, n as nat),
{
    let len = b.len();
    let mut r: Vec<u32> = Vec::new();
    let mut i: usize = 0;
    while i < n
        invariant
            i <= n,
            at + 4 * n <= b@.len(),
            len == b@.len(),
            r@ == words_at(b@, at as int, i as nat),
        decreases n - i,
    {
        let w = read_be32(b, at + 4 * i);
        r.push(w);
        i += 1;
        assert(r@ =~= words_at(b@, at as int, i as nat));
    }
    r
}

/// The `N` words of `w` from index `at` on, as an array.
pub fn words_array<const N: usize>(w: &[u32], at: usize) -> (r: [u32; N])
    requires
        at + N <= w@.len(),
    ensures
        r@ == w@.subrange(at as int, at + N),
{
    let len = w.len();
    let mut r = [0u32; N];
    let mut i: usize = 0;
    while i < N
        invariant
            i <= N,
            at + N <= w@.len(),
            len == w@.len(),
            forall|j: int| 0 <= j < i ==> r[j] == w@[at + j],
        decreases N - i,
    {
        r[i] = w[at + i];
        i += 1;
    }
    assert(r@ =~= w@.subrange(at as int, at + N));
    r
}

} // verus!
