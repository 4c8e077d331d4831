//! Byte-level primitives shared by every layer of the codec: the error
//! taxonomy, little-endian integer encodings, and small helpers for reading
//! from and appending to byte buffers.

use vstd::prelude::*;

verus! {

/// Why a decode failed.  Each variant names the field whose bytes were wrong
/// and, where useful, carries the offending raw value.
#[derive(Debug, Clone, Copy, PartialEq, Eq)]
pub enum CodecError {
    /// The buffer ended, or the declared byte budget ran out, before the
    /// field could be read in full.
    Truncated,
    /// The encapsulation header's command word matched no known command.
    UnknownCommand(u16),
    /// The encapsulation header's status word matched no known status.
    UnknownEncapsStatus(u32),
    /// A common-packet item's type id matched no known item id.
    UnknownItemId(u16),
    /// A path segment's two format bits named neither the 8-bit nor the
    /// 16-bit data format.
    UnknownSegmentFormat(u8),
    /// A message-router response's general status byte matched no known
    /// response status.
    UnknownResponseStatus(u8),
    /// A message-router response's service container byte did not have its
    /// response bit set.
    ResponseBitNotSet(u8),
}

/// How an executable decoder's result must relate to a spec-level parser's
/// outcome: on success the decoded value is the parsed one and the new
/// position advances by the consumed count; on failure the errors agree.
pub open spec fn resolves_exact<T>(
    r: Result<(T, usize), CodecError>,
    pos: int,
    p: Result<(T, int), CodecError>,
) -> bool {
    match p {
        Ok((m, n)) => r matches Ok((v, np)) && v == m && np == pos + n,
        Err(e) => r == Err::<(T, usize), CodecError>(e),
    }
}

/// As `resolves_exact`, but for decoded types whose mathematical model is a
/// view: the decoded value's view is the parsed model.
pub open spec fn resolves<T: View>(
    r: Result<(T, usize), CodecError>,
    pos: int,
    p: Result<(T::V, int), CodecError>,
) -> bool {
    match p {
        Ok((m, n)) => r matches Ok((v, np)) && v@ == m && np == pos + n,
        Err(e) => r == Err::<(T, usize), CodecError>(e),
    }
}

/// The two bytes of `v` in little-endian order.
pub open spec fn le16(v: u16) -> Seq<u8> {
    seq![(v % 256) as u8, (v / 256) as u8]
}

/// The `u16` read from two little-endian bytes.
pub open spec fn le16_val(b0: u8, b1: u8) -> u16 {
    (b0 + b1 * 256) as u16
}

/// The four bytes of `v` in little-endian order.
pub open spec fn le32(v: u32) -> Seq<u8> {
    seq![
        (v % 256) as u8,
        ((v / 256) % 256) as u8,
        ((v / 65536) % 256) as u8,
        (v / 16777216) as u8,
    ]
}

/// The `u32` read from four little-endian bytes.
pub open spec fn le32_val(b0: u8, b1: u8, b2: u8, b3: u8) -> u32 {
    (b0 + b1 * 256 + b2 * 65536 + b3 * 16777216) as u32
}

/// Dropping `a` bytes and then `b` more is dropping `a + b` at once.
pub proof fn lemma_skip_skip(s: Seq<u8>, a: int, b: int)
    requires
        0 <= a,
        0 <= b,
        a + b <= s.len(),
    ensures
        s.skip(a).skip(b) =~= s.skip(a + b),
{
}

/// Reading back the two little-endian bytes of `v` yields `v`.
pub proof fn lemma_le16_roundtrip(v: u16)
    ensures
        le16_val(le16(v)[0], le16(v)[1]) == v,
{
}

/// Encoding the `u16` read from two bytes yields the same two bytes.
pub proof fn lemma_le16_bytes_roundtrip(b0: u8, b1: u8)
    ensures
        le16(le16_val(b0, b1)) =~= seq![b0, b1],
{
}

/// Reading back the four little-endian bytes of `v` yields `v`.
pub proof fn lemma_le32_roundtrip(v: u32)
    ensures
        le32_val(le32(v)[0], le32(v)[1], le32(v)[2], le32(v)[3]) == v,
{
    let x = v as int;
    assert(x % 256 + ((x / 256) % 256) * 256 + ((x / 65536) % 256) * 65536 + (x / 16777216)
        * 16777216 == x) by (nonlinear_arith)
        requires
            0 <= x < 4294967296,
    ;
}

/// Encoding the `u32` read from four bytes yields the same four bytes.
pub proof fn lemma_le32_bytes_roundtrip(b0: u8, b1: u8, b2: u8, b3: u8)
    ensures
        le32(le32_val(b0, b1, b2, b3)) =~= seq![b0, b1, b2, b3],
{
    let x = b0 + b1 * 256 + b2 * 65536 + b3 * 16777216;
    assert(x % 256 == b0 && (x / 256) % 256 == b1 && (x / 65536) % 256 == b2 && x / 16777216
        == b3) by (nonlinear_arith)
        requires
            x == b0 + b1 * 256 + b2 * 65536 + b3 * 16777216,
            0 <= b0 < 256,
            0 <= b1 < 256,
            0 <= b2 < 256,
            0 <= b3 < 256,
    ;
}

/// Appends the two little-endian bytes of `v`.
pub fn push_le16(out: &mut Vec<u8>, v: u16)
    ensures
        final(out)@ == old(out)@ + le16(v),
{
    out.push((v % 256) as u8);
    out.push((v / 256) as u8);
    proof {
        assert(out@ =~= old(out)@ + le16(v));
    }
}

/// Appends the four little-endian bytes of `v`.
pub fn push_le32(out: &mut Vec<u8>, v: u32)
    ensures
        final(out)@ == old(out)@ + le32(v),
{
    out.push((v % 256) as u8);
    out.push(((v / 256) % 256) as u8);
    out.push(((v / 65536) % 256) as u8);
    out.push((v / 16777216) as u8);
    proof {
        assert(out@ =~= old(out)@ + le32(v));
    }
}

/// Appends every byte of `data`.
pub fn push_bytes(out: &mut Vec<u8>, data: &[u8])
    ensures
        final(out)@ == old(out)@ + data@,
{
    let mut i: usize = 0;
    while i < data.len()
        invariant
            i <= data@.len(),
            out@ == old(out)@ + data@.take(i as int),
        decreases data@.len() - i,
    {
        out.push(data[i]);
        i = i + 1;
        proof {
            assert(old(out)@ + data@.take(i - 1) + seq![data@[i - 1]] =~= old(out)@ + data@.take(
                i as int,
            ));
        }
    }
    proof {
        assert(data@.take(data@.len() as int) =~= data@);
    }
}

/// Reads the `u16` stored at `pos` in little-endian order.
pub fn read_le16(buf: &[u8], pos: usize) -> (r: u16)
    requires
        pos + 2 <= buf@.len(),
    ensures
        r == le16_val(buf@[pos as int], buf@[pos + 1]),
{
    let b0 = buf[pos];
    let b1 = buf[pos + 1];
    b0 as u16 + (b1 as u16) * 256
}

/// Reads the `u32` stored at `pos` in little-endian order.
pub fn read_le32(buf: &[u8], pos: usize) -> (r: u32)
    requires
        pos + 4 <= buf@.len(),
    ensures
        r == le32_val(buf@[pos as int], buf@[pos + 1], buf@[pos + 2], buf@[pos + 3]),
{
    let b0 = buf[pos];
    let b1 = buf[pos + 1];
    let b2 = buf[pos + 2];
    let b3 = buf[pos + 3];
    b0 as u32 + (b1 as u32) * 256 + (b2 as u32) * 65536 + (b3 as u32) * 16777216
}

/// Copies the `n` bytes starting at `pos` into a fresh buffer.
pub fn read_bytes(buf: &[u8], pos: usize, n: usize) -> (r: Vec<u8>)
    requires
        pos + n <= buf@.len(),
    ensures
        r@ == buf@.subrange(pos as int, pos + n),
{
    let total = buf.len();
    let mut r: Vec<u8> = Vec::new();
    let mut i: usize = 0;
    while i < n
        invariant
            i <= n,
            pos + n <= total == buf@.len(),
            r@ == buf@.subrange(pos as int, pos + i),
        decreases n - i,
    {
        r.push(buf[pos + i]);
        i = i + 1;
        proof {
            assert(buf@.subrange(pos as int, pos + i - 1) + seq![buf@[pos + i - 1]]
                =~= buf@.subrange(pos as int, pos + i));
        }
    }
    r
}

/// Whether two byte buffers hold the same bytes.
pub fn bytes_eq(a: &Vec<u8>, b: &Vec<u8>) -> (r: bool)
    ensures
        r == (a@ =~= b@),
{
    if a.len() != b.len() {
        return false;
    }
    let mut i: usize = 0;
    while i < a.len()
        invariant
            i <= a@.len(),
            a@.len() == b@.len(),
            forall|j: int| 0 <= j < i ==> a@[j] == b@[j],
        decreases a@.len() - i,
    {
        if a[i] != b[i] {
            return false;
        }
        i = i + 1;
    }
    true
}

} // verus!
