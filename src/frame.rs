//! Packing of decoded nibbles into records and of records into the 4-byte
//! payloads that go on the wire.
use vstd::prelude::*;
use crate::hex::{decode_nibbles, nibbles};

verus! {

/// The byte made of two nibbles, `(hi << 4) + lo` in 8-bit arithmetic. For
/// nibbles below 16 this is `16 * hi + lo`; larger ones wrap, as the decoder
/// does not reject them.
pub open spec fn pack(hi: u8, lo: u8) -> u8 {
    ((hi as int * 16 + lo as int) % 256) as u8
}

/// The wire payload of one record: counter high byte, counter low byte, then
/// the two data bytes.
pub open spec fn frame_bytes(count: u16, byte1: u8, byte2: u8) -> Seq<u8> {
    seq![(count / 256) as u8, (count % 256) as u8, byte1, byte2]
}

/// The number of complete records in an image: one per four nibbles; a
/// trailing group of fewer than four is dropped.
pub open spec fn record_count(image: Seq<u8>) -> nat {
    nibbles(image).len() / 4
}

/// Whether every record counter of the image fits in 16 bits.
pub open spec fn image_fits(image: Seq<u8>) -> bool {
    record_count(image) <= u16::MAX
}

/// The first data byte of record `i` (counted from 0) of a nibble sequence.
pub open spec fn record_byte1(n: Seq<u8>, i: int) -> u8 {
    pack(n[4 * i], n[4 * i + 1])
}

/// The second data byte of record `i` (counted from 0) of a nibble sequence.
pub open spec fn record_byte2(n: Seq<u8>, i: int) -> u8 {
    pack(n[4 * i + 2], n[4 * i + 3])
}

/// The payloads of an image's records in transmission order; the record at
/// position `i` carries counter `i + 1`.
pub open spec fn frames(image: Seq<u8>) -> Seq<Seq<u8>> {
    let n = nibbles(image);
    Seq::new(
        record_count(image),
        |i: int| frame_bytes((i + 1) as u16, record_byte1(n, i), record_byte2(n, i)),
    )
}

/// Packs two nibbles into a data byte.
pub fn pack_byte(hi: u8, lo: u8) -> (r: u8)
    ensures
        r == pack(hi, lo),
        hi < 16 && lo < 16 ==> r == 16 * hi + lo,
{
    let wide: u16 = (hi as u16) * 16 + (lo as u16);
    (wide % 256) as u8
}

/// Builds the 4-byte payload of the record with counter `count`.
pub fn build_frame(count: u16, byte1: u8, byte2: u8) -> (r: [u8; 4])
    ensures
        r@ == frame_bytes(count, byte1, byte2),
{
    let high = (count / 256) as u8;
    let low = (count % 256) as u8;
    let r = [high, low, byte1, byte2];
    assert(r@ =~= frame_bytes(count, byte1, byte2));
    r
}

/// The payloads of every complete record of an image, in counter order
/// from 1; `None` where an image has more records than a 16-bit counter can
/// number.
pub fn frames_of(image: &[u8]) -> (r: Option<Vec<[u8; 4]>>)
    ensures
        r is Some <==> image_fits(image@),
        image@.len() < 4 * (u16::MAX + 1) ==> r is Some,
        r matches Some(v) ==> v@.len() == record_count(image@) && forall|i: int|
            0 <= i < v@.len() ==> (#[trigger] v@[i])@ == frames(image@)[i],
{
    proof {
        if image@.len() < 4 * (u16::MAX + 1) {
            lemma_short_image_fits(image@);
        }
    }
    let n = decode_nibbles(image);
    let k: usize = n.len() / 4;
    if k > 65535 {
        return None;
    }
    let mut out: Vec<[u8; 4]> = Vec::new();
    let mut i: usize = 0;
    while i < k
        invariant
            n@ == nibbles(image@),
            k == n@.len() / 4,
            k <= u16::MAX,
            i <= k,
            out@.len() == i,
            forall|j: int| 0 <= j < i ==> (#[trigger] out@[j])@ == frames(image@)[j],
        decreases k - i,
    {
        assert(4 * i + 3 < n@.len()) by (nonlinear_arith)
            requires
                i < k,
                k == n@.len() / 4,
        ;
        let at: usize = 4 * i;
        let byte1 = pack_byte(n[at], n[at + 1]);
        let byte2 = pack_byte(n[at + 2], n[at + 3]);
        let f = build_frame((i + 1) as u16, byte1, byte2);
        out.push(f);
        i = i + 1;
    }
    Some(out)
}

/// An image short enough that it cannot hold more than `u16::MAX` records
/// always fits.
pub proof fn lemma_short_image_fits(image: Seq<u8>)
    requires
        image.len() < 4 * (u16::MAX + 1),
    ensures
        image_fits(image),
{
    crate::hex::lemma_nibbles_len(image);
}

/// The record at position `i` carries counter `i + 1` in its first two bytes.
pub proof fn lemma_frame_counter(image: Seq<u8>, i: int)
    requires
        image_fits(image),
        0 <= i < record_count(image),
    ensures
        frames(image)[i].len() == 4,
        frames(image)[i][0] as int * 256 + frames(image)[i][1] as int == i + 1,
{
    let c = (i + 1) as u16;
    assert(c as int == i + 1);
    assert((c / 256) as int * 256 + (c % 256) as int == c as int);
}

/// An image whose non-marker bytes number exactly `4 * k` gives `k` records
/// with counters `1..=k` in order, each payload four bytes holding the
/// counter's high byte, its low byte, and the two packed data bytes.
pub proof fn lemma_whole_records(image: Seq<u8>, k: nat)
    requires
        nibbles(image).len() == 4 * k,
    ensures
        frames(image).len() == k,
        forall|i: int|
            0 <= i < k ==> {
                let f = #[trigger] frames(image)[i];
                let n = nibbles(image);
                &&& f.len() == 4
                &&& i + 1 <= u16::MAX ==> f[0] as int * 256 + f[1] as int == i + 1
                &&& f[2] == pack(n[4 * i], n[4 * i + 1])
                &&& f[3] == pack(n[4 * i + 2], n[4 * i + 3])
            },
{
    assert(4 * k / 4 == k) by (nonlinear_arith);
    assert forall|i: int| 0 <= i < k && i + 1 <= u16::MAX implies {
        let f = #[trigger] frames(image)[i];
        f[0] as int * 256 + f[1] as int == i + 1
    } by {
        let c = (i + 1) as u16;
        assert(c as int == i + 1);
        assert((c / 256) as int * 256 + (c % 256) as int == c as int);
    }
}

/// A trailing group of one to three non-marker bytes yields no record: the
/// frames are those of the image without it.
pub proof fn lemma_partial_group_dropped(image: Seq<u8>, tail: Seq<u8>)
    requires
        nibbles(image).len() % 4 == 0,
        1 <= nibbles(tail).len() <= 3,
    ensures
        frames(image + tail) == frames(image),
{
    crate::hex::lemma_nibbles_concat(image, tail);
    let n = nibbles(image);
    let m = nibbles(image + tail);
    assert(record_count(image + tail) == record_count(image));
    assert forall|i: int| 0 <= i < record_count(image) implies #[trigger] frames(image + tail)[i]
        == frames(image)[i] by {
        assert(4 * i + 3 < n.len()) by (nonlinear_arith)
            requires
                0 <= i < n.len() / 4,
        ;
        assert(m[4 * i] == n[4 * i]);
        assert(m[4 * i + 1] == n[4 * i + 1]);
        assert(m[4 * i + 2] == n[4 * i + 2]);
        assert(m[4 * i + 3] == n[4 * i + 3]);
    }
    assert(frames(image + tail) =~= frames(image));
}

} // verus!
