//! Fixed-width integers as bytes, in either byte order.
use vstd::prelude::*;

verus! {

/// The order in which the bytes of a multi-byte integer are laid out.
#[derive(PartialEq, Eq, Structural, Clone, Copy, Debug)]
pub enum ByteOrder {
    Little,
    Big,
}

pub open spec fn u16_le(x: u16) -> Seq<u8> {
    seq![(x & 0xff) as u8, ((x >> 8u16) & 0xff) as u8]
}

pub open spec fn u32_le(x: u32) -> Seq<u8> {
    seq![
        (x & 0xff) as u8,
        ((x >> 8u32) & 0xff) as u8,
        ((x >> 16u32) & 0xff) as u8,
        ((x >> 24u32) & 0xff) as u8,
    ]
}

pub open spec fn u64_le(x: u64) -> Seq<u8> {
    seq![
        (x & 0xff) as u8,
        ((x >> 8u64) & 0xff) as u8,
        ((x >> 16u64) & 0xff) as u8,
        ((x >> 24u64) & 0xff) as u8,
        ((x >> 32u64) & 0xff) as u8,
        ((x >> 40u64) & 0xff) as u8,
        ((x >> 48u64) & 0xff) as u8,
        ((x >> 56u64) & 0xff) as u8,
    ]
}

/// Lays out `le` (least significant byte first) in the given order.
pub open spec fn ordered(le: Seq<u8>, order: ByteOrder) -> Seq<u8> {
    match order {
        ByteOrder::Little => le,
        ByteOrder::Big => le.reverse(),
    }
}

#[verifier::opaque]
pub open spec fn u16_bytes(x: u16, order: ByteOrder) -> Seq<u8> {
    ordered(u16_le(x), order)
}

#[verifier::opaque]
pub open spec fn u32_bytes(x: u32, order: ByteOrder) -> Seq<u8> {
    ordered(u32_le(x), order)
}

#[verifier::opaque]
pub open spec fn u64_bytes(x: u64, order: ByteOrder) -> Seq<u8> {
    ordered(u64_le(x), order)
}

#[verifier::opaque]
pub open spec fn i32_bytes(x: i32, order: ByteOrder) -> Seq<u8> {
    u32_bytes(#[verifier::truncate] (x as u32), order)
}

pub open spec fn u16_of_le(b: Seq<u8>) -> u16 {
    (b[0] as u16) | ((b[1] as u16) << 8u16)
}

pub open spec fn u32_of_le(b: Seq<u8>) -> u32 {
    (b[0] as u32) | ((b[1] as u32) << 8u32) | ((b[2] as u32) << 16u32) | ((b[3] as u32) << 24u32)
}

pub open spec fn u64_of_le(b: Seq<u8>) -> u64 {
    (b[0] as u64) | ((b[1] as u64) << 8u64) | ((b[2] as u64) << 16u64) | ((b[3] as u64)
        << 24u64) | ((b[4] as u64) << 32u64) | ((b[5] as u64) << 40u64) | ((b[6] as u64)
        << 48u64) | ((b[7] as u64) << 56u64)
}

/// The integer that the first two bytes of `b` hold in the given order.
#[verifier::opaque]
pub open spec fn u16_of(b: Seq<u8>, order: ByteOrder) -> u16 {
    u16_of_le(ordered(b.take(2), order))
}

/// The integer that the first four bytes of `b` hold in the given order.
#[verifier::opaque]
pub open spec fn u32_of(b: Seq<u8>, order: ByteOrder) -> u32 {
    u32_of_le(ordered(b.take(4), order))
}

/// The integer that the first eight bytes of `b` hold in the given order.
#[verifier::opaque]
pub open spec fn u64_of(b: Seq<u8>, order: ByteOrder) -> u64 {
    u64_of_le(ordered(b.take(8), order))
}

#[verifier::opaque]
pub open spec fn i32_of(b: Seq<u8>, order: ByteOrder) -> i32 {
    #[verifier::truncate] (u32_of(b, order) as i32)
}

proof fn lemma_ordered_involutive(le: Seq<u8>, order: ByteOrder)
    ensures
        ordered(ordered(le, order), order) =~= le,
        ordered(le, order).len() == le.len(),
{
}

pub proof fn lemma_u16_round_trip(x: u16, order: ByteOrder, rest: Seq<u8>)
    ensures
        u16_bytes(x, order).len() == 2,
        u16_of(u16_bytes(x, order) + rest, order) == x,
{
    reveal(u16_bytes);
    reveal(u32_bytes);
    reveal(u64_bytes);
    reveal(i32_bytes);
    reveal(u16_of);
    reveal(u32_of);
    reveal(u64_of);
    reveal(i32_of);
    let b = u16_bytes(x, order);
    lemma_ordered_involutive(u16_le(x), order);
    assert((b + rest).take(2) =~= b);
    assert(((x & 0xff) as u8 as u16) | ((((x >> 8u16) & 0xff) as u8 as u16) << 8u16) == x)
        by (bit_vector);
}

pub proof fn lemma_u32_round_trip(x: u32, order: ByteOrder, rest: Seq<u8>)
    ensures
        u32_bytes(x, order).len() == 4,
        u32_of(u32_bytes(x, order) + rest, order) == x,
{
    reveal(u16_bytes);
    reveal(u32_bytes);
    reveal(u64_bytes);
    reveal(i32_bytes);
    reveal(u16_of);
    reveal(u32_of);
    reveal(u64_of);
    reveal(i32_of);
    let b = u32_bytes(x, order);
    lemma_ordered_involutive(u32_le(x), order);
    assert((b + rest).take(4) =~= b);
    assert(((x & 0xff) as u8 as u32) | ((((x >> 8u32) & 0xff) as u8 as u32) << 8u32) | ((((x
        >> 16u32) & 0xff) as u8 as u32) << 16u32) | ((((x >> 24u32) & 0xff) as u8 as u32)
        << 24u32) == x) by (bit_vector);
}

pub proof fn lemma_i32_round_trip(x: i32, order: ByteOrder, rest: Seq<u8>)
    ensures
        i32_bytes(x, order).len() == 4,
        i32_of(i32_bytes(x, order) + rest, order) == x,
{
    reveal(u16_bytes);
    reveal(u32_bytes);
    reveal(u64_bytes);
    reveal(i32_bytes);
    reveal(u16_of);
    reveal(u32_of);
    reveal(u64_of);
    reveal(i32_of);
    lemma_u32_round_trip(#[verifier::truncate] (x as u32), order, rest);
    assert(((#[verifier::truncate] (x as u32)) as i32) == x) by (bit_vector);
}

pub proof fn lemma_u64_round_trip(x: u64, order: ByteOrder, rest: Seq<u8>)
    ensures
        u64_bytes(x, order).len() == 8,
        u64_of(u64_bytes(x, order) + rest, order) == x,
{
    reveal(u16_bytes);
    reveal(u32_bytes);
    reveal(u64_bytes);
    reveal(i32_bytes);
    reveal(u16_of);
    reveal(u32_of);
    reveal(u64_of);
    reveal(i32_of);
    let b = u64_bytes(x, order);
    lemma_ordered_involutive(u64_le(x), order);
    assert((b + rest).take(8) =~= b);
    assert(((x & 0xff) as u8 as u64) | ((((x >> 8u64) & 0xff) as u8 as u64) << 8u64) | ((((x
        >> 16u64) & 0xff) as u8 as u64) << 16u64) | ((((x >> 24u64) & 0xff) as u8 as u64)
        << 24u64) | ((((x >> 32u64) & 0xff) as u8 as u64) << 32u64) | ((((x >> 40u64) & 0xff)
        as u8 as u64) << 40u64) | ((((x >> 48u64) & 0xff) as u8 as u64) << 48u64) | ((((x
        >> 56u64) & 0xff) as u8 as u64) << 56u64) == x) by (bit_vector);
}

/// Appends the two bytes of `x` in the given order.
pub fn push_u16(out: &mut Vec<u8>, x: u16, order: ByteOrder)
    ensures
        final(out)@ == old(out)@ + u16_bytes(x, order),
{
    reveal(u16_bytes);
    reveal(u32_bytes);
    reveal(u64_bytes);
    reveal(i32_bytes);
    reveal(u16_of);
    reveal(u32_of);
    reveal(u64_of);
    reveal(i32_of);
    let b0 = (x & 0xff) as u8;
    let b1 = ((x >> 8u16) & 0xff) as u8;
    match order {
        ByteOrder::Little => {
            out.push(b0);
            out.push(b1);
        },
        ByteOrder::Big => {
            out.push(b1);
            out.push(b0);
        },
    }
    assert(final(out)@ =~= old(out)@ + u16_bytes(x, order));
}

/// Appends the four bytes of `x` in the given order.
pub fn push_u32(out: &mut Vec<u8>, x: u32, order: ByteOrder)
    ensures
        final(out)@ == old(out)@ + u32_bytes(x, order),
{
    reveal(u16_bytes);
    reveal(u32_bytes);
    reveal(u64_bytes);
    reveal(i32_bytes);
    reveal(u16_of);
    reveal(u32_of);
    reveal(u64_of);
    reveal(i32_of);
    let b0 = (x & 0xff) as u8;
    let b1 = ((x >> 8u32) & 0xff) as u8;
    let b2 = ((x >> 16u32) & 0xff) as u8;
    let b3 = ((x >> 24u32) & 0xff) as u8;
    match order {
        ByteOrder::Little => {
            out.push(b0);
            out.push(b1);
            out.push(b2);
            out.push(b3);
        },
        ByteOrder::Big => {
            out.push(b3);
            out.push(b2);
            out.push(b1);
            out.push(b0);
        },
    }
    assert(final(out)@ =~= old(out)@ + u32_bytes(x, order));
}

/// Appends the four bytes of `x` in the given order.
pub fn push_i32(out: &mut Vec<u8>, x: i32, order: ByteOrder)
    ensures
        final(out)@ == old(out)@ + i32_bytes(x, order),
{
    reveal(u16_bytes);
    reveal(u32_bytes);
    reveal(u64_bytes);
    reveal(i32_bytes);
    reveal(u16_of);
    reveal(u32_of);
    reveal(u64_of);
    reveal(i32_of);
    push_u32(out, #[verifier::truncate] (x as u32), order);
}

/// The eight bytes of `x` in the given order.
pub fn u64_to_bytes(x: u64, order: ByteOrder) -> (r: Vec<u8>)
    ensures
        r@ == u64_bytes(x, order),
{
    reveal(u16_bytes);
    reveal(u32_bytes);
    reveal(u64_bytes);
    reveal(i32_bytes);
    reveal(u16_of);
    reveal(u32_of);
    reveal(u64_of);
    reveal(i32_of);
    let mut le: Vec<u8> = Vec::new();
    le.push((x & 0xff) as u8);
    le.push(((x >> 8u64) & 0xff) as u8);
    le.push(((x >> 16u64) & 0xff) as u8);
    le.push(((x >> 24u64) & 0xff) as u8);
    le.push(((x >> 32u64) & 0xff) as u8);
    le.push(((x >> 40u64) & 0xff) as u8);
    le.push(((x >> 48u64) & 0xff) as u8);
    le.push(((x >> 56u64) & 0xff) as u8);
    assert(le@ =~= u64_le(x));
    match order {
        ByteOrder::Little => le,
        ByteOrder::Big => {
            let mut r: Vec<u8> = Vec::new();
            let mut i: usize = 8;
            while i > 0
                invariant
                    i <= 8,
                    le@ == u64_le(x),
                    r@ =~= u64_le(x).reverse().take(8 - i),
                decreases i,
            {
                i = i - 1;
                r.push(le[i]);
            }
            r
        },
    }
}

/// The integer held by the two bytes at `pos`, in the given order.
pub fn read_u16_at(b: &[u8], pos: usize, order: ByteOrder) -> (r: u16)
    requires
        pos + 2 <= b@.len(),
    ensures
        r == u16_of(b@.skip(pos as int), order),
{
    reveal(u16_bytes);
    reveal(u32_bytes);
    reveal(u64_bytes);
    reveal(i32_bytes);
    reveal(u16_of);
    reveal(u32_of);
    reveal(u64_of);
    reveal(i32_of);
    let n = b.len();
    let (b0, b1) = match order {
        ByteOrder::Little => (b[pos], b[pos + 1]),
        ByteOrder::Big => (b[pos + 1], b[pos]),
    };
    let ghost le = ordered(b@.skip(pos as int).take(2), order);
    assert(le[0] == b0 && le[1] == b1);
    (b0 as u16) | ((b1 as u16) << 8u16)
}

/// The integer held by the four bytes at `pos`, in the given order.
pub fn read_u32_at(b: &[u8], pos: usize, order: ByteOrder) -> (r: u32)
    requires
        pos + 4 <= b@.len(),
    ensures
        r == u32_of(b@.skip(pos as int), order),
{
    reveal(u16_bytes);
    reveal(u32_bytes);
    reveal(u64_bytes);
    reveal(i32_bytes);
    reveal(u16_of);
    reveal(u32_of);
    reveal(u64_of);
    reveal(i32_of);
    let n = b.len();
    let (b0, b1, b2, b3) = match order {
        ByteOrder::Little => (b[pos], b[pos + 1], b[pos + 2], b[pos + 3]),
        ByteOrder::Big => (b[pos + 3], b[pos + 2], b[pos + 1], b[pos]),
    };
    let ghost le = ordered(b@.skip(pos as int).take(4), order);
    assert(le[0] == b0 && le[1] == b1 && le[2] == b2 && le[3] == b3);
    (b0 as u32) | ((b1 as u32) << 8u32) | ((b2 as u32) << 16u32) | ((b3 as u32) << 24u32)
}

/// The integer held by the eight bytes at `pos`, in the given order.
pub fn read_u64_at(b: &[u8], pos: usize, order: ByteOrder) -> (r: u64)
    requires
        pos + 8 <= b@.len(),
    ensures
        r == u64_of(b@.skip(pos as int), order),
{
    reveal(u16_bytes);
    reveal(u32_bytes);
    reveal(u64_bytes);
    reveal(i32_bytes);
    reveal(u16_of);
    reveal(u32_of);
    reveal(u64_of);
    reveal(i32_of);
    let n = b.len();
    let mut le: Vec<u8> = Vec::new();
    let mut i: usize = 0;
    while i < 8
        invariant
            i <= 8,
            le@.len() == i,
            n == b@.len(),
            pos + 8 <= b@.len(),
            forall|k: int|
                0 <= k < i ==> le@[k] == #[trigger] ordered(b@.skip(pos as int).take(8), order)[k],
        decreases 8 - i,
    {
        let v = match order {
            ByteOrder::Little => b[pos + i],
            ByteOrder::Big => b[pos + 7 - i],
        };
        le.push(v);
        i = i + 1;
    }
    let ghost s = ordered(b@.skip(pos as int).take(8), order);
    assert(le@[0] == s[0] && le@[1] == s[1] && le@[2] == s[2] && le@[3] == s[3]);
    assert(le@[4] == s[4] && le@[5] == s[5] && le@[6] == s[6] && le@[7] == s[7]);
    (le[0] as u64) | ((le[1] as u64) << 8u64) | ((le[2] as u64) << 16u64) | ((le[3] as u64)
        << 24u64) | ((le[4] as u64) << 32u64) | ((le[5] as u64) << 40u64) | ((le[6] as u64)
        << 48u64) | ((le[7] as u64) << 56u64)
}

} // verus!
