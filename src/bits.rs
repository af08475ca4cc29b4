use vstd::prelude::*;

use crate::error::ControlError;

verus! {

/// Bit `k` (0 = least significant) of a byte.
pub open spec fn byte_bit(b: u8, k: u8) -> bool {
    (b >> k) & 1u8 == 1u8
}

/// Bit `i` of a raw process data buffer: bytes in order, each byte least
/// significant bit first.
pub open spec fn bit_of(buf: Seq<u8>, i: int) -> bool {
    byte_bit(buf[i / 8], (i % 8) as u8)
}

/// The number of bits a buffer holds.
pub open spec fn bit_len(buf: Seq<u8>) -> int {
    (buf.len() * 8) as int
}

/// The first `image.len()` bits of `buf` hold `image`.
pub open spec fn encodes(buf: Seq<u8>, image: Seq<bool>) -> bool {
    &&& image.len() <= bit_len(buf)
    &&& forall|k: int| 0 <= k < image.len() ==> bit_of(buf, k) == #[trigger] image[k]
}

/// The first `n` bits of `buf`.
pub open spec fn decoded(buf: Seq<u8>, n: nat) -> Seq<bool> {
    Seq::new(n, |k: int| bit_of(buf, k))
}

/// `after` differs from `before` in no bit at or past `from`.
pub open spec fn bits_kept_from(before: Seq<u8>, after: Seq<u8>, from: int) -> bool {
    &&& after.len() == before.len()
    &&& forall|k: int| from <= k < bit_len(before) ==> #[trigger] bit_of(after, k) == bit_of(before, k)
}

proof fn lemma_byte_update(b: u8, k: u8, m: u8)
    requires
        k < 8,
        m < 8,
    ensures
        byte_bit(b | (1u8 << k), m) == (m == k || byte_bit(b, m)),
        byte_bit(b & !(1u8 << k), m) == (m != k && byte_bit(b, m)),
{
    assert(((b | (1u8 << k)) >> m) & 1u8 == 1u8 <==> (m == k || (b >> m) & 1u8 == 1u8))
        by (bit_vector)
        requires
            k < 8,
            m < 8,
    ;
    assert(((b & !(1u8 << k)) >> m) & 1u8 == 1u8 <==> (m != k && (b >> m) & 1u8 == 1u8))
        by (bit_vector)
        requires
            k < 8,
            m < 8,
    ;
}

/// Reads bit `i` of a buffer.
pub fn get_bit(buf: &Vec<u8>, i: usize) -> (r: bool)
    requires
        i < bit_len(buf@),
    ensures
        r == bit_of(buf@, i as int),
{
    let b = buf[i / 8];
    let k = (i % 8) as u8;
    (b >> k) & 1u8 == 1u8
}

/// Writes bit `i` of a buffer and leaves every other bit as it was.
pub fn set_bit(buf: &mut Vec<u8>, i: usize, value: bool)
    requires
        i < bit_len(old(buf)@),
    ensures
        final(buf)@.len() == old(buf)@.len(),
        bit_of(final(buf)@, i as int) == value,
        forall|j: int|
            0 <= j < bit_len(old(buf)@) && j != i ==> #[trigger] bit_of(final(buf)@, j) == bit_of(
                old(buf)@,
                j,
            ),
{
    let ghost before = buf@;
    let idx = i / 8;
    let k = (i % 8) as u8;
    let b = buf[idx];
    let nb = if value {
        b | (1u8 << k)
    } else {
        b & !(1u8 << k)
    };
    buf.set(idx, nb);
    proof {
        assert forall|j: int| 0 <= j < bit_len(before) && j != i implies #[trigger] bit_of(buf@, j)
            == bit_of(before, j) by {
            if j / 8 == idx as int {
                lemma_byte_update(b, k, (j % 8) as u8);
            }
        }
        lemma_byte_update(b, k, k);
    }
}

/// Writes `image` into the first bits of `buf`, keeping the bits after it.
/// Fails with `ShortBuffer`, and leaves `buf` untouched, when the buffer holds
/// fewer bits than the image.
pub fn write_image(buf: &mut Vec<u8>, image: &Vec<bool>) -> (r: Result<(), ControlError>)
    ensures
        (r is Ok) <==> image@.len() <= bit_len(old(buf)@),
        r is Err ==> r == Err::<(), ControlError>(ControlError::ShortBuffer) && final(buf)@ == old(
            buf,
        )@,
        r is Ok ==> encodes(final(buf)@, image@) && bits_kept_from(
            old(buf)@,
            final(buf)@,
            image@.len() as int,
        ),
{
    if buf.len() < image.len() / 8 + if image.len() % 8 == 0 {
        0
    } else {
        1
    } {
        return Err(ControlError::ShortBuffer);
    }
    let ghost before = buf@;
    let mut k: usize = 0;
    while k < image.len()
        invariant
            image@.len() <= bit_len(before),
            buf@.len() == before.len(),
            0 <= k <= image@.len(),
            forall|j: int| 0 <= j < k ==> bit_of(buf@, j) == #[trigger] image@[j],
            forall|j: int| k <= j < bit_len(before) ==> #[trigger] bit_of(buf@, j) == bit_of(before, j),
        decreases image@.len() - k,
    {
        set_bit(buf, k, image[k]);
        k += 1;
    }
    Ok(())
}

/// Reads the first `n` bits of `buf`. Fails with `ShortBuffer` when the buffer
/// holds fewer than `n` bits.
pub fn read_image(buf: &Vec<u8>, n: usize) -> (r: Result<Vec<bool>, ControlError>)
    ensures
        (r is Ok) <==> n <= bit_len(buf@),
        r is Err ==> r == Err::<Vec<bool>, ControlError>(ControlError::ShortBuffer),
        r is Ok ==> r->Ok_0@ == decoded(buf@, n as nat),
{
    if buf.len() < n / 8 + if n % 8 == 0 {
        0
    } else {
        1
    } {
        return Err(ControlError::ShortBuffer);
    }
    let mut out: Vec<bool> = Vec::new();
    let mut k: usize = 0;
    while k < n
        invariant
            n <= bit_len(buf@),
            0 <= k <= n,
            out@ == decoded(buf@, k as nat),
        decreases n - k,
    {
        let b = get_bit(buf, k);
        out.push(b);
        k += 1;
        assert(out@ =~= decoded(buf@, k as nat));
    }
    Ok(out)
}

} // verus!
