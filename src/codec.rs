use vstd::prelude::*;
use vstd::utf8::*;

verus! {

/// The eight little-endian bytes of `n`.
pub open spec fn le_bytes(n: u64) -> Seq<u8> {
    seq![
        (n & 0xff) as u8,
        ((n >> 8u64) & 0xff) as u8,
        ((n >> 16u64) & 0xff) as u8,
        ((n >> 24u64) & 0xff) as u8,
        ((n >> 32u64) & 0xff) as u8,
        ((n >> 40u64) & 0xff) as u8,
        ((n >> 48u64) & 0xff) as u8,
        ((n >> 56u64) & 0xff) as u8,
    ]
}

pub open spec fn le_value8(b0: u8, b1: u8, b2: u8, b3: u8, b4: u8, b5: u8, b6: u8, b7: u8) -> u64 {
    (b0 as u64) | ((b1 as u64) << 8u64) | ((b2 as u64) << 16u64) | ((b3 as u64) << 24u64) | ((
    b4 as u64) << 32u64) | ((b5 as u64) << 40u64) | ((b6 as u64) << 48u64) | ((b7 as u64)
        << 56u64)
}

/// The number whose little-endian bytes open `b` (which holds at least eight).
pub open spec fn le_value(b: Seq<u8>) -> u64 {
    le_value8(b[0], b[1], b[2], b[3], b[4], b[5], b[6], b[7])
}

pub proof fn lemma_le_round_trip(n: u64)
    ensures
        le_value(le_bytes(n)) == n,
{
    assert(le_value8(
        (n & 0xff) as u8,
        ((n >> 8u64) & 0xff) as u8,
        ((n >> 16u64) & 0xff) as u8,
        ((n >> 24u64) & 0xff) as u8,
        ((n >> 32u64) & 0xff) as u8,
        ((n >> 40u64) & 0xff) as u8,
        ((n >> 48u64) & 0xff) as u8,
        ((n >> 56u64) & 0xff) as u8,
    ) == n) by (bit_vector);
}


/// Bytes framed by their length: eight length bytes, then the bytes.
pub open spec fn framed(b: Seq<u8>) -> Seq<u8> {
    le_bytes(b.len() as u64) + b
}

/// Reads eight length bytes and that many bytes more; yields them and what follows.
pub open spec fn take_framed(b: Seq<u8>) -> Option<(Seq<u8>, Seq<u8>)> {
    if b.len() < 8 {
        None
    } else {
        let n = le_value(b);
        let r = b.skip(8);
        if n <= r.len() {
            Some((r.take(n as int), r.skip(n as int)))
        } else {
            None
        }
    }
}

pub proof fn lemma_take_framed(b: Seq<u8>, rest: Seq<u8>)
    requires
        b.len() <= u64::MAX,
    ensures
        take_framed(framed(b) + rest) == Some((b, rest)),
{
    lemma_le_round_trip(b.len() as u64);
    let w = framed(b) + rest;
    assert(w.take(8) =~= le_bytes(b.len() as u64));
    assert(le_value(w) == le_value(le_bytes(b.len() as u64)));
    assert(w.skip(8) =~= b + rest);
    assert((b + rest).take(b.len() as int) =~= b);
    assert((b + rest).skip(b.len() as int) =~= rest);
}

/// Appends the eight little-endian bytes of `n`.
pub fn put_u64(out: &mut Vec<u8>, n: u64)
    ensures
        final(out)@ == old(out)@ + le_bytes(n),
{
    out.push((n & 0xff) as u8);
    out.push(((n >> 8u64) & 0xff) as u8);
    out.push(((n >> 16u64) & 0xff) as u8);
    out.push(((n >> 24u64) & 0xff) as u8);
    out.push(((n >> 32u64) & 0xff) as u8);
    out.push(((n >> 40u64) & 0xff) as u8);
    out.push(((n >> 48u64) & 0xff) as u8);
    out.push(((n >> 56u64) & 0xff) as u8);
    assert(out@ =~= old(out)@ + le_bytes(n));
}

/// Reads the eight little-endian bytes at `pos`.
pub fn get_u64(b: &Vec<u8>, pos: usize) -> (r: u64)
    requires
        pos + 8 <= b@.len(),
    ensures
        r == le_value(b@.skip(pos as int)),
{
    let len: usize = b.len();
    let b0: u8 = b[pos];
    let b1: u8 = b[pos + 1];
    let b2: u8 = b[pos + 2];
    let b3: u8 = b[pos + 3];
    let b4: u8 = b[pos + 4];
    let b5: u8 = b[pos + 5];
    let b6: u8 = b[pos + 6];
    let b7: u8 = b[pos + 7];
    let v: u64 = (b0 as u64) | ((b1 as u64) << 8u64) | ((b2 as u64) << 16u64) | ((b3 as u64)
        << 24u64) | ((b4 as u64) << 32u64) | ((b5 as u64) << 40u64) | ((b6 as u64) << 48u64) | ((
    b7 as u64) << 56u64);
    assert(v == le_value8(b0, b1, b2, b3, b4, b5, b6, b7));
    v
}

/// Appends the bytes of `src`.
pub fn put_raw(out: &mut Vec<u8>, src: &[u8])
    ensures
        final(out)@ == old(out)@ + src@,
{
    let mut i: usize = 0;
    while i < src.len()
        invariant
            i <= src@.len(),
            out@ == old(out)@ + src@.take(i as int),
        decreases src@.len() - i,
    {
        out.push(src[i]);
        assert(src@.take(i + 1) =~= src@.take(i as int).push(src@[i as int]));
        i = i + 1;
    }
    assert(src@.take(src@.len() as int) =~= src@);
}

/// Appends `src` framed by its length.
pub fn put_framed(out: &mut Vec<u8>, src: &[u8])
    ensures
        final(out)@ == old(out)@ + framed(src@),
        src@.len() <= u64::MAX,
{
    let n: usize = src.len();
    put_u64(out, n as u64);
    put_raw(out, src);
    assert(old(out)@ + le_bytes(n as u64) + src@ =~= old(out)@ + framed(src@));
}

/// Copies `b[from..to]` into a vector of its own.
pub fn copy_range(b: &Vec<u8>, from: usize, to: usize) -> (r: Vec<u8>)
    requires
        from <= to <= b@.len(),
    ensures
        r@ == b@.subrange(from as int, to as int),
{
    let mut r: Vec<u8> = Vec::new();
    let mut i: usize = from;
    while i < to
        invariant
            from <= i <= to <= b@.len(),
            r@ == b@.subrange(from as int, i as int),
        decreases to - i,
    {
        r.push(b[i]);
        assert(b@.subrange(from as int, i + 1) =~= b@.subrange(from as int, i as int).push(
            b@[i as int],
        ));
        i = i + 1;
    }
    r
}

/// Reads a framed byte string at `pos`: its bytes and the position after it.
pub fn get_framed(b: &Vec<u8>, pos: usize) -> (r: Option<(Vec<u8>, usize)>)
    requires
        pos <= b@.len(),
    ensures
        match r {
            Some((x, p)) => pos <= p <= b@.len() && take_framed(b@.skip(pos as int)) == Some(
                (x@, b@.skip(p as int)),
            ),
            None => take_framed(b@.skip(pos as int)) is None,
        },
{
    if b.len() - pos < 8 {
        return None;
    }
    let n: u64 = get_u64(b, pos);
    let start: usize = pos + 8;
    assert(b@.skip(pos as int).skip(8) =~= b@.skip(start as int));
    if n > (b.len() - start) as u64 {
        return None;
    }
    let end: usize = start + n as usize;
    let x = copy_range(b, start, end);
    assert(b@.skip(start as int).take(n as int) =~= x@);
    assert(b@.skip(start as int).skip(n as int) =~= b@.skip(end as int));
    Some((x, end))
}

} // verus!
