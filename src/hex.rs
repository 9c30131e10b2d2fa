//! Decoding of an ASCII hex image into nibbles.
use vstd::prelude::*;

verus! {

/// Bytes below this value are framing markers (STX, ETX, spaces, line
/// breaks) and are skipped by the decoder.
pub const MARKER_LIMIT: u8 = 48;

/// A byte that the decoder skips without using a nibble slot.
pub open spec fn is_marker(b: u8) -> bool {
    b < MARKER_LIMIT
}

/// The nibble that a non-marker byte decodes to: `b - 55` above `'@'`
/// (upper-case letters), `b - 48` otherwise (digits). Out-of-range bytes are
/// not rejected: `'G'` decodes to 16.
pub open spec fn nibble_value(b: u8) -> u8
    recommends
        !is_marker(b),
{
    if b > 64 {
        (b - 55) as u8
    } else {
        (b - 48) as u8
    }
}

/// Decodes one non-marker byte.
pub fn convert_ascii_to_hex(ascii_char: u8) -> (r: u8)
    requires
        !is_marker(ascii_char),
    ensures
        r == nibble_value(ascii_char),
        65 <= ascii_char <= 70 ==> r == ascii_char - 55,
        48 <= ascii_char <= 57 ==> r == ascii_char - 48,
        48 <= ascii_char <= 57 || 65 <= ascii_char <= 70 ==> r < 16,
{
    if ascii_char > 64 {
        ascii_char - 55
    } else {
        ascii_char - 48
    }
}

/// The nibbles that an image decodes to, in order: every non-marker byte
/// gives one, every marker none.
pub open spec fn nibbles(image: Seq<u8>) -> Seq<u8>
    decreases image.len(),
{
    if image.len() == 0 {
        Seq::empty()
    } else {
        let rest = nibbles(image.drop_last());
        if is_marker(image.last()) {
            rest
        } else {
            rest.push(nibble_value(image.last()))
        }
    }
}

/// Decoding distributes over concatenation of images.
pub proof fn lemma_nibbles_concat(a: Seq<u8>, b: Seq<u8>)
    ensures
        nibbles(a + b) == nibbles(a) + nibbles(b),
    decreases b.len(),
{
    if b.len() == 0 {
        assert(a + b =~= a);
        assert(nibbles(a) + nibbles(b) =~= nibbles(a));
    } else {
        lemma_nibbles_concat(a, b.drop_last());
        assert((a + b).drop_last() =~= a + b.drop_last());
        assert((a + b).last() == b.last());
        if is_marker(b.last()) {
        } else {
            assert(nibbles(a) + nibbles(b) =~= (nibbles(a) + nibbles(b.drop_last())).push(
                nibble_value(b.last()),
            ));
        }
    }
}

/// A marker byte anywhere in an image is skipped: removing it changes
/// neither the nibbles nor their number.
pub proof fn lemma_marker_skipped(before: Seq<u8>, b: u8, after: Seq<u8>)
    requires
        is_marker(b),
    ensures
        nibbles(before + seq![b] + after) == nibbles(before + after),
        nibbles(before + seq![b] + after).len() == nibbles(before).len() + nibbles(after).len(),
{
    lemma_nibbles_concat(before + seq![b], after);
    lemma_nibbles_concat(before, seq![b]);
    lemma_nibbles_concat(before, after);
    assert(seq![b].drop_last() =~= Seq::<u8>::empty());
    assert(nibbles(Seq::<u8>::empty()) == Seq::<u8>::empty());
    assert(nibbles(seq![b]) =~= Seq::<u8>::empty());
    assert(nibbles(before) + nibbles(seq![b]) =~= nibbles(before));
}

/// A non-marker byte takes exactly one nibble slot, holding its value.
pub proof fn lemma_digit_decoded(before: Seq<u8>, b: u8, after: Seq<u8>)
    requires
        !is_marker(b),
    ensures
        nibbles(before + seq![b] + after) == nibbles(before).push(nibble_value(b)) + nibbles(
            after,
        ),
{
    lemma_nibbles_concat(before + seq![b], after);
    lemma_nibbles_concat(before, seq![b]);
    assert(seq![b].drop_last() =~= Seq::<u8>::empty());
    assert(nibbles(Seq::<u8>::empty()) == Seq::<u8>::empty());
    assert(nibbles(seq![b]) =~= seq![nibble_value(b)]);
    assert(nibbles(before) + nibbles(seq![b]) =~= nibbles(before).push(nibble_value(b)));
}

/// An image decodes to at most one nibble per byte.
pub proof fn lemma_nibbles_len(image: Seq<u8>)
    ensures
        nibbles(image).len() <= image.len(),
    decreases image.len(),
{
    if image.len() > 0 {
        lemma_nibbles_len(image.drop_last());
    }
}

/// Decodes a whole image into its nibbles, skipping markers.
pub fn decode_nibbles(image: &[u8]) -> (r: Vec<u8>)
    ensures
        r@ == nibbles(image@),
        r@.len() <= image@.len(),
{
    let mut out: Vec<u8> = Vec::new();
    let mut i: usize = 0;
    while i < image.len()
        invariant
            i <= image@.len(),
            out@ == nibbles(image@.take(i as int)),
            out@.len() <= i,
        decreases image@.len() - i,
    {
        let b = image[i];
        assert(image@.take(i + 1).drop_last() =~= image@.take(i as int));
        if b >= MARKER_LIMIT {
            out.push(convert_ascii_to_hex(b));
        }
        i = i + 1;
    }
    assert(image@.take(i as int) =~= image@);
    out
}

} // verus!
