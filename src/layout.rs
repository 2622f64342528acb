use vstd::prelude::*;

verus! {

/// The bit pattern of the binary32 value 1.0.
pub const ONE_BITS: u32 = 0x3F80_0000;

/// The bit pattern of the binary32 value -1.0.
pub const MINUS_ONE_BITS: u32 = 0xBF80_0000;

/// The four little-endian bytes of `w`.
pub open spec fn le_bytes(w: u32) -> Seq<u8> {
    seq![
        (w % 256) as u8,
        ((w / 0x100) % 256) as u8,
        ((w / 0x1_0000) % 256) as u8,
        ((w / 0x100_0000) % 256) as u8,
    ]
}

/// The word that the four little-endian bytes at `at` in `b` stand for.
pub open spec fn le_word(b: Seq<u8>, at: int) -> int {
    b[at] + 0x100 * b[at + 1] + 0x1_0000 * b[at + 2] + 0x100_0000 * b[at + 3]
}

/// The little-endian bytes of each word of `ws`, in order.
pub open spec fn words_bytes(ws: Seq<u32>) -> Seq<u8>
    decreases ws.len(),
{
    if ws.len() == 0 {
        Seq::empty()
    } else {
        words_bytes(ws.drop_last()) + le_bytes(ws.last())
    }
}

proof fn lemma_le_round_trip(w: u32)
    ensures
        le_word(le_bytes(w), 0) == w,
{
    let b = le_bytes(w);
    assert(b[0] == w % 256);
    assert(b[1] == (w / 0x100) % 256);
    assert(b[2] == (w / 0x1_0000) % 256);
    assert(b[3] == (w / 0x100_0000) % 256);
    assert(w % 256 + 0x100 * ((w / 0x100) % 256) + 0x1_0000 * ((w / 0x1_0000) % 256)
        + 0x100_0000 * ((w / 0x100_0000) % 256) == w) by (nonlinear_arith);
}

proof fn lemma_words_bytes_len(ws: Seq<u32>)
    ensures
        words_bytes(ws).len() == 4 * ws.len(),
    decreases ws.len(),
{
    if ws.len() > 0 {
        lemma_words_bytes_len(ws.drop_last());
    }
}

/// The bytes of word `i` of `ws` stand at `4 * i` in its encoding.
proof fn lemma_words_bytes_at(ws: Seq<u32>, i: int)
    requires
        0 <= i < ws.len(),
    ensures
        words_bytes(ws).subrange(4 * i, 4 * i + 4) == le_bytes(ws[i]),
    decreases ws.len(),
{
    lemma_words_bytes_len(ws.drop_last());
    lemma_words_bytes_len(ws);
    let pre = words_bytes(ws.drop_last());
    if i == ws.len() - 1 {
        assert(words_bytes(ws).subrange(4 * i, 4 * i + 4) =~= le_bytes(ws[i]));
    } else {
        lemma_words_bytes_at(ws.drop_last(), i);
        assert(words_bytes(ws).subrange(4 * i, 4 * i + 4) =~= pre.subrange(4 * i, 4 * i + 4));
    }
}

/// Every word of `ws` is read back from its encoding.
pub proof fn lemma_words_bytes_decode(ws: Seq<u32>, i: int)
    requires
        0 <= i < ws.len(),
    ensures
        words_bytes(ws).len() == 4 * ws.len(),
        le_word(words_bytes(ws), 4 * i) == ws[i],
{
    lemma_words_bytes_len(ws);
    lemma_words_bytes_at(ws, i);
    lemma_le_round_trip(ws[i]);
    let s = words_bytes(ws).subrange(4 * i, 4 * i + 4);
    assert(s[0] == words_bytes(ws)[4 * i]);
    assert(s[1] == words_bytes(ws)[4 * i + 1]);
    assert(s[2] == words_bytes(ws)[4 * i + 2]);
    assert(s[3] == words_bytes(ws)[4 * i + 3]);
}

/// Appends the four little-endian bytes of `w` to `out`.
pub fn push_le_word(out: &mut Vec<u8>, w: u32)
    ensures
        final(out)@ == old(out)@ + le_bytes(w),
{
    out.push((w % 256) as u8);
    out.push(((w / 0x100) % 256) as u8);
    out.push(((w / 0x1_0000) % 256) as u8);
    out.push(((w / 0x100_0000) % 256) as u8);
    assert(final(out)@ =~= old(out)@ + le_bytes(w));
}

/// Reads the little-endian word whose four bytes start at `at`.
pub fn read_le_word(b: &[u8], at: usize) -> (w: u32)
    requires
        at + 4 <= b@.len(),
    ensures
        w == le_word(b@, at as int),
{
    let b0 = b[at] as u32;
    let b1 = b[at + 1] as u32;
    let b2 = b[at + 2] as u32;
    let b3 = b[at + 3] as u32;
    b0 + 0x100 * b1 + 0x1_0000 * b2 + 0x100_0000 * b3
}

/// Encodes each word of `ws` as four little-endian bytes, in order.
pub fn encode_words(ws: &[u32]) -> (r: Vec<u8>)
    requires
        4 * ws@.len() <= usize::MAX,
    ensures
        r@ == words_bytes(ws@),
        r@.len() == 4 * ws@.len(),
{
    let mut r: Vec<u8> = Vec::new();
    let mut i: usize = 0;
    while i < ws.len()
        invariant
            i <= ws@.len(),
            r@ == words_bytes(ws@.subrange(0, i as int)),
        decreases ws@.len() - i,
    {
        push_le_word(&mut r, ws[i]);
        proof {
            let next = ws@.subrange(0, i + 1);
            assert(next.drop_last() =~= ws@.subrange(0, i as int));
        }
        i = i + 1;
    }
    assert(ws@.subrange(0, ws@.len() as int) =~= ws@);
    proof {
        lemma_words_bytes_len(ws@);
    }
    r
}

} // verus!
