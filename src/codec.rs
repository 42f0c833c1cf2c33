//! Little-endian encoding of 32-bit words, the byte order of host-shareable
//! GPU buffer memory.
use vstd::prelude::*;

verus! {

/// Byte `k` (0 = least significant) of the word `w`.
pub open spec fn byte_of(w: u32, k: int) -> u8 {
    if k == 0 {
        (w % 256) as u8
    } else if k == 1 {
        ((w / 256) % 256) as u8
    } else if k == 2 {
        ((w / 65536) % 256) as u8
    } else {
        ((w / 16777216) % 256) as u8
    }
}

/// The word whose little-endian bytes are `b0, b1, b2, b3`.
pub open spec fn word_of(b0: u8, b1: u8, b2: u8, b3: u8) -> u32 {
    (b0 as int + 256 * (b1 as int) + 65536 * (b2 as int) + 16777216 * (b3 as int)) as u32
}

/// The bytes of `ws`, each word in little-endian order, words in sequence.
pub open spec fn words_to_bytes(ws: Seq<u32>) -> Seq<u8> {
    Seq::new((4 * ws.len()) as nat, |i: int| byte_of(ws[i / 4], i % 4))
}

/// The words read from `bs`, four bytes each; trailing bytes that do not make
/// a whole word are not read.
pub open spec fn bytes_to_words(bs: Seq<u8>) -> Seq<u32> {
    Seq::new(
        bs.len() / 4,
        |i: int| word_of(bs[4 * i], bs[4 * i + 1], bs[4 * i + 2], bs[4 * i + 3]),
    )
}

/// Reading back the four bytes of a word gives the word.
pub proof fn lemma_word_round_trip(w: u32)
    ensures
        word_of(byte_of(w, 0), byte_of(w, 1), byte_of(w, 2), byte_of(w, 3)) == w,
{
    let b0 = w % 256;
    let b1 = (w / 256) % 256;
    let b2 = (w / 65536) % 256;
    let b3 = (w / 16777216) % 256;
    assert(b0 + 256 * b1 + 65536 * b2 + 16777216 * b3 == w) by (bit_vector)
        requires
            b0 == w % 256,
            b1 == (w / 256) % 256,
            b2 == (w / 65536) % 256,
            b3 == (w / 16777216) % 256,
    ;
}

/// Splitting the word made of four bytes gives back those bytes.
pub proof fn lemma_bytes_round_trip(b0: u8, b1: u8, b2: u8, b3: u8)
    ensures
        byte_of(word_of(b0, b1, b2, b3), 0) == b0,
        byte_of(word_of(b0, b1, b2, b3), 1) == b1,
        byte_of(word_of(b0, b1, b2, b3), 2) == b2,
        byte_of(word_of(b0, b1, b2, b3), 3) == b3,
{
    let x0 = b0 as u32;
    let x1 = b1 as u32;
    let x2 = b2 as u32;
    let x3 = b3 as u32;
    let w: u32 = (x0 + 256 * x1 + 65536 * x2 + 16777216 * x3) as u32;
    assert(x0 + 256 * x1 + 65536 * x2 + 16777216 * x3 < 0x1_0000_0000) by (nonlinear_arith)
        requires
            x0 < 256,
            x1 < 256,
            x2 < 256,
            x3 < 256,
    ;
    assert(w % 256 == x0 && (w / 256) % 256 == x1 && (w / 65536) % 256 == x2 && (w / 16777216)
        % 256 == x3) by (bit_vector)
        requires
            x0 < 256,
            x1 < 256,
            x2 < 256,
            x3 < 256,
            w == x0 + 256 * x1 + 65536 * x2 + 16777216 * x3,
    ;
}

/// Decoding the encoding of any words gives the same words.
pub proof fn lemma_words_round_trip(ws: Seq<u32>)
    ensures
        bytes_to_words(words_to_bytes(ws)) == ws,
{
    let bs = words_to_bytes(ws);
    let r = bytes_to_words(bs);
    assert forall|i: int| 0 <= i < ws.len() implies r[i] == ws[i] by {
        assert((4 * i) / 4 == i && (4 * i + 1) / 4 == i && (4 * i + 2) / 4 == i && (4 * i + 3) / 4
            == i);
        assert((4 * i) % 4 == 0 && (4 * i + 1) % 4 == 1 && (4 * i + 2) % 4 == 2 && (4 * i + 3) % 4
            == 3);
        lemma_word_round_trip(ws[i]);
    }
    assert(r =~= ws);
}

/// Encoding the words read from a whole number of words' bytes gives the same
/// bytes.
pub proof fn lemma_bytes_seq_round_trip(bs: Seq<u8>)
    requires
        bs.len() % 4 == 0,
    ensures
        words_to_bytes(bytes_to_words(bs)) == bs,
{
    let ws = bytes_to_words(bs);
    let r = words_to_bytes(ws);
    assert forall|i: int| 0 <= i < bs.len() implies r[i] == bs[i] by {
        let j = i / 4;
        assert(4 * j <= i < 4 * j + 4);
        lemma_bytes_round_trip(bs[4 * j], bs[4 * j + 1], bs[4 * j + 2], bs[4 * j + 3]);
    }
    assert(r =~= bs);
}

/// The little-endian bytes of `ws`.
pub fn encode_words(ws: &[u32]) -> (r: Vec<u8>)
    requires
        4 * ws@.len() <= usize::MAX,
    ensures
        r@ == words_to_bytes(ws@),
{
    let mut r: Vec<u8> = Vec::new();
    let mut i: usize = 0;
    while i < ws.len()
        invariant
            i <= ws@.len(),
            4 * ws@.len() <= usize::MAX,
            r@ =~= words_to_bytes(ws@.subrange(0, i as int)),
        decreases ws@.len() - i,
    {
        let w = ws[i];
        r.push((w % 256) as u8);
        r.push(((w / 256) % 256) as u8);
        r.push(((w / 65536) % 256) as u8);
        r.push(((w / 16777216) % 256) as u8);
        i = i + 1;
        assert(r@ =~= words_to_bytes(ws@.subrange(0, i as int)));
    }
    assert(ws@.subrange(0, ws@.len() as int) =~= ws@);
    r
}

/// The words read from `bs`, four little-endian bytes each.
pub fn decode_words(bs: &[u8]) -> (r: Vec<u32>)
    ensures
        r@ == bytes_to_words(bs@),
{
    let len = bs.len();
    let n = len / 4;
    let mut r: Vec<u32> = Vec::new();
    let mut i: usize = 0;
    while i < n
        invariant
            len == bs@.len(),
            n == bs@.len() / 4,
            i <= n,
            r@ =~= bytes_to_words(bs@).subrange(0, i as int),
        decreases n - i,
    {
        assert(4 * i + 3 < bs@.len()) by (nonlinear_arith)
            requires
                i < n,
                n == bs@.len() / 4,
        ;
        let b0 = bs[4 * i] as u32;
        let b1 = bs[4 * i + 1] as u32;
        let b2 = bs[4 * i + 2] as u32;
        let b3 = bs[4 * i + 3] as u32;
        r.push(b0 + 256 * b1 + 65536 * b2 + 16777216 * b3);
        i = i + 1;
        assert(r@ =~= bytes_to_words(bs@).subrange(0, i as int));
    }
    r
}

} // verus!
