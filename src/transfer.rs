//! The buffer in which the payload hands the console log over to the host.
//!
//! Layout, every integer in the target's byte order:
//! `byte_length: u64`, then `byte_length` bytes: `version: i32` (always 1),
//! four strings (editor version, OS description, build target, working
//! directory), `entry_count: i32`, and that many entries, each a string
//! (the message) followed by `mode: i32`. A string is an `i32` count of
//! UTF-16 code units followed by the units. On the producing side the
//! region starts with one more `u64`, the number of bytes reserved for the
//! whole region, which only the producer's own release routine reads.
use crate::wire::{
    u32_of,
    i32_bytes, i32_of, lemma_i32_round_trip, lemma_u16_round_trip, lemma_u64_round_trip,
    push_i32, push_u16, read_u16_at, read_u32_at, read_u64_at, u16_bytes, u16_of,
    u64_bytes, u64_of, u64_to_bytes, ByteOrder,
};
use vstd::prelude::*;

verus! {

/// The only version of the layout.
pub const FORMAT_VERSION: i32 = 1;

/// The largest count that an `i32` length field can hold.
pub const MAX_FIELD_COUNT: usize = 0x7fff_ffff;

/// One record of the console log as it crosses the process boundary.
pub struct LogRecord {
    /// The message, as UTF-16 code units.
    pub message: Vec<u16>,
    /// The record's severity and category bits, passed on unread.
    pub mode: i32,
}

/// Everything the payload reports: four environment strings and the log.
pub struct TransferData {
    pub unity_version: Vec<u16>,
    pub os_description: Vec<u16>,
    pub build_target: Vec<u16>,
    pub current_directory: Vec<u16>,
    pub entries: Vec<LogRecord>,
}

/// The mathematical value of a [`TransferData`].
pub struct TransferModel {
    pub unity_version: Seq<u16>,
    pub os_description: Seq<u16>,
    pub build_target: Seq<u16>,
    pub current_directory: Seq<u16>,
    pub entries: Seq<(Seq<u16>, i32)>,
}

impl View for LogRecord {
    type V = (Seq<u16>, i32);

    open spec fn view(&self) -> (Seq<u16>, i32) {
        (self.message@, self.mode)
    }
}

impl View for TransferData {
    type V = TransferModel;

    open spec fn view(&self) -> TransferModel {
        TransferModel {
            unity_version: self.unity_version@,
            os_description: self.os_description@,
            build_target: self.build_target@,
            current_directory: self.current_directory@,
            entries: self.entries@.map_values(|r: LogRecord| r@),
        }
    }
}

/// Why a buffer was refused.
#[derive(PartialEq, Eq, Structural, Clone, Copy, Debug)]
pub enum Corruption {
    /// A field runs past the end of the buffer.
    Truncated,
    /// A string length or the entry count is negative.
    NegativeLength,
    /// The version field is not [`FORMAT_VERSION`].
    UnsupportedVersion,
    /// `byte_length` differs from the number of bytes that the fields take.
    LengthMismatch,
}

pub open spec fn fits_field(n: nat) -> bool {
    n <= MAX_FIELD_COUNT
}

impl TransferModel {
    /// Every string length and the entry count fit their `i32` fields.
    pub open spec fn well_formed(self) -> bool {
        &&& fits_field(self.unity_version.len())
        &&& fits_field(self.os_description.len())
        &&& fits_field(self.build_target.len())
        &&& fits_field(self.current_directory.len())
        &&& fits_field(self.entries.len())
        &&& forall|i: int| 0 <= i < self.entries.len() ==> fits_field(#[trigger] self.entries[i].0.len())
    }
}

// ----- encoding -----

pub open spec fn units_bytes(s: Seq<u16>, order: ByteOrder) -> Seq<u8> {
    Seq::new(2 * s.len(), |k: int| u16_bytes(s[k / 2], order)[k % 2])
}

pub open spec fn string_bytes(s: Seq<u16>, order: ByteOrder) -> Seq<u8> {
    i32_bytes(s.len() as i32, order) + units_bytes(s, order)
}

pub open spec fn entry_bytes(e: (Seq<u16>, i32), order: ByteOrder) -> Seq<u8> {
    string_bytes(e.0, order) + i32_bytes(e.1, order)
}

pub open spec fn entries_bytes(es: Seq<(Seq<u16>, i32)>, order: ByteOrder) -> Seq<u8>
    decreases es.len(),
{
    if es.len() == 0 {
        Seq::empty()
    } else {
        entry_bytes(es[0], order) + entries_bytes(es.drop_first(), order)
    }
}

/// The bytes that follow the `byte_length` field.
pub open spec fn body_bytes(m: TransferModel, order: ByteOrder) -> Seq<u8> {
    i32_bytes(FORMAT_VERSION, order) + string_bytes(m.unity_version, order) + string_bytes(
        m.os_description,
        order,
    ) + string_bytes(m.build_target, order) + string_bytes(m.current_directory, order)
        + i32_bytes(m.entries.len() as i32, order) + entries_bytes(m.entries, order)
}

/// The buffer as the host reads it: `byte_length`, then the body.
pub open spec fn transfer_bytes(m: TransferModel, order: ByteOrder) -> Seq<u8> {
    u64_bytes(body_bytes(m, order).len() as u64, order) + body_bytes(m, order)
}

// ----- decoding -----

pub open spec fn parse_i32(b: Seq<u8>, order: ByteOrder) -> Result<(i32, Seq<u8>), Corruption> {
    if b.len() >= 4 {
        Ok((i32_of(b, order), b.skip(4)))
    } else {
        Err(Corruption::Truncated)
    }
}

pub open spec fn units_of(b: Seq<u8>, n: nat, order: ByteOrder) -> Seq<u16> {
    Seq::new(n, |i: int| u16_of(b.skip(2 * i), order))
}

pub open spec fn parse_string(b: Seq<u8>, order: ByteOrder) -> Result<
    (Seq<u16>, Seq<u8>),
    Corruption,
> {
    match parse_i32(b, order) {
        Err(e) => Err(e),
        Ok((n, r)) => if n < 0 {
            Err(Corruption::NegativeLength)
        } else if r.len() < 2 * n {
            Err(Corruption::Truncated)
        } else {
            Ok((units_of(r, n as nat, order), r.skip(2 * n)))
        },
    }
}

pub open spec fn parse_entries(b: Seq<u8>, n: nat, order: ByteOrder) -> Result<
    (Seq<(Seq<u16>, i32)>, Seq<u8>),
    Corruption,
>
    decreases n,
{
    if n == 0 {
        Ok((Seq::empty(), b))
    } else {
        match parse_string(b, order) {
            Err(e) => Err(e),
            Ok((s, r1)) => match parse_i32(r1, order) {
                Err(e) => Err(e),
                Ok((mode, r2)) => match parse_entries(r2, (n - 1) as nat, order) {
                    Err(e) => Err(e),
                    Ok((es, r3)) => Ok((seq![(s, mode)] + es, r3)),
                },
            },
        }
    }
}

/// What the bytes after `byte_length` hold. The version is checked first,
/// before any string is read.
pub open spec fn parse_body(b: Seq<u8>, order: ByteOrder) -> Result<TransferModel, Corruption> {
    match parse_i32(b, order) {
        Err(e) => Err(e),
        Ok((version, r0)) => if version != FORMAT_VERSION {
            Err(Corruption::UnsupportedVersion)
        } else {
            match parse_string(r0, order) {
                Err(e) => Err(e),
                Ok((uv, r1)) => match parse_string(r1, order) {
                    Err(e) => Err(e),
                    Ok((os, r2)) => match parse_string(r2, order) {
                        Err(e) => Err(e),
                        Ok((bt, r3)) => match parse_string(r3, order) {
                            Err(e) => Err(e),
                            Ok((cd, r4)) => parse_log(uv, os, bt, cd, r4, order),
                        },
                    },
                },
            }
        },
    }
}

/// The entry count, the entries, and nothing after them.
pub open spec fn parse_log(
    uv: Seq<u16>,
    os: Seq<u16>,
    bt: Seq<u16>,
    cd: Seq<u16>,
    b: Seq<u8>,
    order: ByteOrder,
) -> Result<TransferModel, Corruption> {
    match parse_i32(b, order) {
        Err(e) => Err(e),
        Ok((count, r5)) => if count < 0 {
            Err(Corruption::NegativeLength)
        } else {
            match parse_entries(r5, count as nat, order) {
                Err(e) => Err(e),
                Ok((es, r6)) => if r6.len() != 0 {
                    Err(Corruption::LengthMismatch)
                } else {
                    Ok(
                        TransferModel {
                            unity_version: uv,
                            os_description: os,
                            build_target: bt,
                            current_directory: cd,
                            entries: es,
                        },
                    )
                },
            }
        },
    }
}

/// What a buffer that starts at the `byte_length` field holds.
pub open spec fn parse_transfer(b: Seq<u8>, order: ByteOrder) -> Result<TransferModel, Corruption> {
    if b.len() < 8 {
        Err(Corruption::Truncated)
    } else if u64_of(b, order) as int != b.len() - 8 {
        Err(Corruption::LengthMismatch)
    } else {
        parse_body(b.skip(8), order)
    }
}

// ----- laws -----

proof fn lemma_units_round_trip(s: Seq<u16>, order: ByteOrder, rest: Seq<u8>)
    ensures
        units_bytes(s, order).len() == 2 * s.len(),
        units_of(units_bytes(s, order) + rest, s.len(), order) =~= s,
        (units_bytes(s, order) + rest).skip(2 * s.len() as int) =~= rest,
{
    let r = units_bytes(s, order) + rest;
    assert forall|i: int| 0 <= i < s.len() implies #[trigger] u16_of(r.skip(2 * i), order)
        == s[i] by {
        lemma_u16_round_trip(s[i], order, r.skip(2 * i + 2));
        assert forall|k: int| 0 <= k < r.skip(2 * i).len() implies #[trigger] r.skip(2 * i)[k] == (
        u16_bytes(s[i], order) + r.skip(2 * i + 2))[k] by {
            if k < 2 {
                assert((2 * i + k) / 2 == i);
                assert((2 * i + k) % 2 == k);
            }
        }
        assert(r.skip(2 * i) =~= u16_bytes(s[i], order) + r.skip(2 * i + 2));
    }
}

proof fn lemma_string_round_trip(s: Seq<u16>, order: ByteOrder, rest: Seq<u8>)
    requires
        fits_field(s.len()),
    ensures
        parse_string(string_bytes(s, order) + rest, order) == Ok::<_, Corruption>((s, rest)),
        string_bytes(s, order).len() == 4 + 2 * s.len(),
{
    let u = units_bytes(s, order) + rest;
    lemma_i32_round_trip(s.len() as i32, order, u);
    lemma_units_round_trip(s, order, rest);
    assert(string_bytes(s, order) + rest =~= i32_bytes(s.len() as i32, order) + u);
    assert((i32_bytes(s.len() as i32, order) + u).skip(4) =~= u);
}

proof fn lemma_entries_round_trip(es: Seq<(Seq<u16>, i32)>, order: ByteOrder, rest: Seq<u8>)
    requires
        forall|i: int| 0 <= i < es.len() ==> fits_field(#[trigger] es[i].0.len()),
    ensures
        parse_entries(entries_bytes(es, order) + rest, es.len(), order) == Ok::<_, Corruption>(
            (es, rest),
        ),
    decreases es.len(),
{
    if es.len() == 0 {
        assert(entries_bytes(es, order) + rest =~= rest);
        assert(es =~= Seq::<(Seq<u16>, i32)>::empty());
    } else {
        let e = es[0];
        let tail = es.drop_first();
        let r2 = entries_bytes(tail, order) + rest;
        let r1 = i32_bytes(e.1, order) + r2;
        assert(fits_field(es[0].0.len()));
        assert forall|i: int| 0 <= i < tail.len() implies fits_field(#[trigger] tail[i].0.len()) by {
            assert(tail[i] == es[i + 1]);
        }
        lemma_entries_round_trip(tail, order, rest);
        lemma_string_round_trip(e.0, order, r1);
        lemma_i32_round_trip(e.1, order, r2);
        assert(entries_bytes(es, order) + rest =~= string_bytes(e.0, order) + r1);
        assert((i32_bytes(e.1, order) + r2).skip(4) =~= r2);
        assert(seq![e] + tail =~= es);
    }
}

/// Decoding the body of an encoded model gives the model back, empty
/// strings and an empty log included.
pub proof fn lemma_body_round_trip(m: TransferModel, order: ByteOrder)
    requires
        m.well_formed(),
    ensures
        parse_body(body_bytes(m, order), order) == Ok::<_, Corruption>(m),
{
    let n = m.entries.len() as i32;
    let r5 = entries_bytes(m.entries, order);
    let r4 = i32_bytes(n, order) + r5;
    let r3 = string_bytes(m.current_directory, order) + r4;
    let r2 = string_bytes(m.build_target, order) + r3;
    let r1 = string_bytes(m.os_description, order) + r2;
    let r0 = string_bytes(m.unity_version, order) + r1;
    assert(body_bytes(m, order) =~= i32_bytes(FORMAT_VERSION, order) + r0);
    lemma_i32_round_trip(FORMAT_VERSION, order, r0);
    assert((i32_bytes(FORMAT_VERSION, order) + r0).skip(4) =~= r0);
    lemma_string_round_trip(m.unity_version, order, r1);
    lemma_string_round_trip(m.os_description, order, r2);
    lemma_string_round_trip(m.build_target, order, r3);
    lemma_string_round_trip(m.current_directory, order, r4);
    lemma_i32_round_trip(n, order, r5);
    assert(r4.skip(4) =~= r5 + Seq::<u8>::empty());
    lemma_entries_round_trip(m.entries, order, Seq::empty());
}

/// Encoding a model and decoding the buffer gives the model back, empty
/// strings and an empty log included.
pub proof fn lemma_round_trip(m: TransferModel, order: ByteOrder)
    requires
        m.well_formed(),
        body_bytes(m, order).len() <= u64::MAX,
    ensures
        parse_transfer(transfer_bytes(m, order), order) == Ok::<_, Corruption>(m),
{
    let body = body_bytes(m, order);
    lemma_u64_round_trip(body.len() as u64, order, body);
    assert(transfer_bytes(m, order).skip(8) =~= body);
    lemma_body_round_trip(m, order);
}

/// In an encoded buffer `byte_length` is exactly the number of bytes that
/// follow it.
pub proof fn lemma_byte_length_exact(m: TransferModel, order: ByteOrder)
    requires
        body_bytes(m, order).len() <= u64::MAX,
    ensures
        transfer_bytes(m, order).len() >= 8,
        u64_of(transfer_bytes(m, order), order) == transfer_bytes(m, order).len() - 8,
{
    let body = body_bytes(m, order);
    lemma_u64_round_trip(body.len() as u64, order, body);
}

/// A buffer whose `byte_length` is not the number of bytes that follow it
/// is refused.
pub proof fn lemma_length_field_checked(b: Seq<u8>, order: ByteOrder)
    requires
        b.len() >= 8,
        u64_of(b, order) != b.len() - 8,
    ensures
        parse_transfer(b, order) == Err::<TransferModel, _>(Corruption::LengthMismatch),
{
}

/// Bytes after the final entry, that `byte_length` counts but no field
/// takes, make the buffer refused.
pub proof fn lemma_trailing_bytes_refused(m: TransferModel, order: ByteOrder, extra: Seq<u8>)
    requires
        m.well_formed(),
        extra.len() > 0,
    ensures
        parse_body(body_bytes(m, order) + extra, order) == Err::<TransferModel, _>(
            Corruption::LengthMismatch,
        ),
{
    let n = m.entries.len() as i32;
    let r5 = entries_bytes(m.entries, order) + extra;
    let r4 = i32_bytes(n, order) + r5;
    let r3 = string_bytes(m.current_directory, order) + r4;
    let r2 = string_bytes(m.build_target, order) + r3;
    let r1 = string_bytes(m.os_description, order) + r2;
    let r0 = string_bytes(m.unity_version, order) + r1;
    assert(body_bytes(m, order) + extra =~= i32_bytes(FORMAT_VERSION, order) + r0);
    lemma_i32_round_trip(FORMAT_VERSION, order, r0);
    assert((i32_bytes(FORMAT_VERSION, order) + r0).skip(4) =~= r0);
    lemma_string_round_trip(m.unity_version, order, r1);
    lemma_string_round_trip(m.os_description, order, r2);
    lemma_string_round_trip(m.build_target, order, r3);
    lemma_string_round_trip(m.current_directory, order, r4);
    lemma_i32_round_trip(n, order, r5);
    assert(r4.skip(4) =~= r5);
    lemma_entries_round_trip(m.entries, order, extra);
}

/// A body whose version field is not [`FORMAT_VERSION`] is refused before
/// any string is read, whatever follows it.
pub proof fn lemma_version_gate(b: Seq<u8>, order: ByteOrder)
    requires
        b.len() >= 4,
        i32_of(b, order) != FORMAT_VERSION,
    ensures
        parse_body(b, order) == Err::<TransferModel, _>(Corruption::UnsupportedVersion),
        forall|rest: Seq<u8>|
            parse_body(#[trigger] (b.take(4) + rest), order) == Err::<TransferModel, _>(
                Corruption::UnsupportedVersion,
            ),
{
    assert forall|rest: Seq<u8>|
        parse_body(#[trigger] (b.take(4) + rest), order) == Err::<TransferModel, _>(
            Corruption::UnsupportedVersion,
        ) by {
        reveal(i32_of);
        reveal(u32_of);
        assert((b.take(4) + rest).take(4) =~= b.take(4));
    }
}

/// Appending an entry appends its bytes.
pub proof fn lemma_entries_bytes_push(es: Seq<(Seq<u16>, i32)>, e: (Seq<u16>, i32), order: ByteOrder)
    ensures
        entries_bytes(es.push(e), order) =~= entries_bytes(es, order) + entry_bytes(e, order),
    decreases es.len(),
{
    if es.len() == 0 {
        assert(es.push(e).drop_first() =~= Seq::<(Seq<u16>, i32)>::empty());
        assert(es.push(e)[0] == e);
        assert(es.push(e).drop_first().len() == 0);
        assert(entries_bytes(es.push(e).drop_first(), order) =~= Seq::<u8>::empty());
        assert(entries_bytes(es, order) =~= Seq::<u8>::empty());
        assert(entries_bytes(es.push(e), order) =~= entry_bytes(e, order) + Seq::<u8>::empty());
    } else {
        assert(es.push(e).drop_first() =~= es.drop_first().push(e));
        assert(es.push(e)[0] == es[0]);
        lemma_entries_bytes_push(es.drop_first(), e, order);
        assert(entries_bytes(es.push(e), order) =~= entry_bytes(es[0], order) + entries_bytes(
            es.drop_first().push(e),
            order,
        ));
    }
}

// ----- the producing side -----

/// Relies on `u16::to_ne_bytes`: the two bytes of 1 in the machine's own
/// byte order.
#[verifier::external_body]
fn native_bytes_of_one() -> (r: [u8; 2])
    ensures
        r@ == seq![1u8, 0u8] || r@ == seq![0u8, 1u8],
{
    1u16.to_ne_bytes()
}

/// The byte order of the machine this runs on.
pub fn current_byte_order() -> ByteOrder {
    let one = native_bytes_of_one();
    if one[0] == 1 {
        ByteOrder::Little
    } else {
        ByteOrder::Big
    }
}

/// Collects the body of a transfer buffer, then lays out the whole region.
pub struct TransferDataBuilder {
    body: Vec<u8>,
    order: ByteOrder,
}

impl TransferDataBuilder {
    /// The body bytes written so far.
    pub closed spec fn written(&self) -> Seq<u8> {
        self.body@
    }

    pub closed spec fn byte_order(&self) -> ByteOrder {
        self.order
    }

    /// An empty builder that writes in the machine's own byte order.
    pub fn new() -> (r: Self)
        ensures
            r.written() == Seq::<u8>::empty(),
    {
        Self::with_byte_order(current_byte_order())
    }

    /// An empty builder that writes in the given byte order.
    pub fn with_byte_order(order: ByteOrder) -> (r: Self)
        ensures
            r.written() == Seq::<u8>::empty(),
            r.byte_order() == order,
    {
        TransferDataBuilder { body: Vec::new(), order }
    }

    pub fn write_i32(&mut self, value: i32)
        ensures
            final(self).byte_order() == old(self).byte_order(),
            final(self).written() == old(self).written() + i32_bytes(value, old(self).byte_order()),
    {
        push_i32(&mut self.body, value, self.order);
    }

    /// Writes the unit count, then the units.
    pub fn write_string(&mut self, chars: &[u16])
        requires
            chars@.len() <= MAX_FIELD_COUNT,
        ensures
            final(self).byte_order() == old(self).byte_order(),
            final(self).written() == old(self).written() + string_bytes(
                chars@,
                old(self).byte_order(),
            ),
    {
        let ghost start = self.body@;
        let ghost order = self.order;
        self.write_i32(chars.len() as i32);
        let ghost with_len = self.body@;
        let mut i: usize = 0;
        while i < chars.len()
            invariant
                i <= chars@.len(),
                self.order == order,
                self.body@ =~= with_len + units_bytes(chars@.take(i as int), order),
            decreases chars@.len() - i,
        {
            proof {
                lemma_u16_round_trip(chars@[i as int], order, Seq::empty());
            }
            push_u16(&mut self.body, chars[i], self.order);
            proof {
                let t = chars@.take(i as int + 1);
                let p = chars@.take(i as int);
                assert forall|k: int| 0 <= k < units_bytes(t, order).len() implies #[trigger] units_bytes(t, order)[k]
                    == (units_bytes(p, order) + u16_bytes(chars@[i as int], order))[k] by {
                    if k >= 2 * i {
                        assert(k / 2 == i);
                        assert(k % 2 == k - 2 * i);
                    } else {
                        assert(k / 2 < i);
                    }
                }
                assert(units_bytes(t, order) =~= units_bytes(p, order) + u16_bytes(chars@[i as int], order));
            }
            i = i + 1;
        }
        assert(chars@.take(chars@.len() as int) =~= chars@);
    }

    /// The whole region: the number of bytes reserved for it, `byte_length`,
    /// then the body. The host reads from the second field on.
    pub fn build(self) -> (r: Vec<u8>)
        requires
            self.written().len() + 16 <= u64::MAX,
        ensures
            r@ == u64_bytes((self.written().len() + 16) as u64, self.byte_order()) + u64_bytes(
                self.written().len() as u64,
                self.byte_order(),
            ) + self.written(),
            u64_of(r@, self.byte_order()) == r@.len(),
    {
        proof {
            lemma_u64_round_trip(
                (self.written().len() + 16) as u64,
                self.order,
                u64_bytes(self.written().len() as u64, self.order) + self.written(),
            );
            lemma_u64_round_trip(self.written().len() as u64, self.order, self.written());
        }
        let mut body = self.body;
        let len = body.len() as u64;
        let mut r = u64_to_bytes(len + 16, self.order);
        let mut length_field = u64_to_bytes(len, self.order);
        r.append(&mut length_field);
        r.append(&mut body);
        assert(r@ =~= u64_bytes((len + 16) as u64, self.order) + (u64_bytes(len, self.order)
            + self.body@));
        r
    }
}

/// The size of a whole region, as its first field records it; the
/// producer's release routine reads it to give the region back.
pub fn reserved_size(region: &[u8], order: ByteOrder) -> (r: u64)
    requires
        region@.len() >= 8,
    ensures
        r == u64_of(region@, order),
{
    assert(region@.skip(0) =~= region@);
    read_u64_at(region, 0, order)
}

/// Where the bytes after `byte_length` lie in target memory, for a buffer
/// whose address is `address` and whose `byte_length` is `length`; `None`
/// when they would run past the end of the address space.
pub fn body_range(address: u64, length: u64) -> (r: Option<(u64, u64)>)
    ensures
        address + 8 + length <= u64::MAX ==> r == Some(((address + 8) as u64, length)),
        address + 8 + length > u64::MAX ==> r is None,
{
    if address > u64::MAX - 8 || length > u64::MAX - 8 - address {
        None
    } else {
        Some((address + 8, length))
    }
}

/// Lays out `data` as a transfer region: the reserved size, then the buffer
/// that the host reads.
pub fn encode_transfer(data: &TransferData, order: ByteOrder) -> (r: Vec<u8>)
    requires
        data@.well_formed(),
        body_bytes(data@, order).len() + 16 <= u64::MAX,
    ensures
        r@ == u64_bytes((body_bytes(data@, order).len() + 16) as u64, order) + transfer_bytes(
            data@,
            order,
        ),
        u64_of(r@, order) == r@.len(),
{
    let mut builder = TransferDataBuilder::with_byte_order(order);
    builder.write_i32(FORMAT_VERSION);
    builder.write_string(data.unity_version.as_slice());
    builder.write_string(data.os_description.as_slice());
    builder.write_string(data.build_target.as_slice());
    builder.write_string(data.current_directory.as_slice());
    builder.write_i32(data.entries.len() as i32);
    let ghost head = builder.written();
    let ghost es = data@.entries;
    let mut i: usize = 0;
    while i < data.entries.len()
        invariant
            i <= data.entries@.len(),
            es == data@.entries,
            data@.well_formed(),
            builder.byte_order() == order,
            builder.written() =~= head + entries_bytes(es.take(i as int), order),
        decreases data.entries@.len() - i,
    {
        let record = &data.entries[i];
        assert(es[i as int] == record@);
        assert(fits_field(es[i as int].0.len()));
        builder.write_string(record.message.as_slice());
        builder.write_i32(record.mode);
        proof {
            assert(es.take(i as int + 1) =~= es.take(i as int).push(es[i as int]));
            lemma_entries_bytes_push(es.take(i as int), es[i as int], order);
        }
        i = i + 1;
    }
    assert(es.take(es.len() as int) =~= es);
    assert(builder.written() =~= body_bytes(data@, order));
    builder.build()
}

// ----- the consuming side -----

/// Reads the fields of a transfer buffer one after another.
pub struct TransferDataReader {
    data: Vec<u8>,
    pos: usize,
    order: ByteOrder,
}

impl TransferDataReader {
    /// The bytes not read yet.
    pub closed spec fn rest(&self) -> Seq<u8> {
        self.data@.skip(self.pos as int)
    }

    pub closed spec fn byte_order(&self) -> ByteOrder {
        self.order
    }

    pub closed spec fn well_formed(&self) -> bool {
        self.pos <= self.data@.len()
    }

    /// A reader over `data` in the machine's own byte order.
    pub fn new(data: Vec<u8>) -> (r: Self)
        ensures
            r.well_formed(),
            r.rest() == data@,
    {
        Self::with_byte_order(data, current_byte_order())
    }

    /// A reader over `data` in the given byte order.
    pub fn with_byte_order(data: Vec<u8>, order: ByteOrder) -> (r: Self)
        ensures
            r.well_formed(),
            r.rest() == data@,
            r.byte_order() == order,
    {
        let r = TransferDataReader { data, pos: 0, order };
        assert(r.data@.skip(0) =~= r.data@);
        r
    }

    /// The number of bytes not read yet.
    pub fn remaining(&self) -> (r: usize)
        requires
            self.well_formed(),
        ensures
            r == self.rest().len(),
    {
        self.data.len() - self.pos
    }

    /// Reads a `u64`.
    pub fn read_u64(&mut self) -> (r: Result<u64, Corruption>)
        requires
            old(self).well_formed(),
        ensures
            final(self).well_formed(),
            final(self).byte_order() == old(self).byte_order(),
            old(self).rest().len() >= 8 ==> r == Ok::<u64, Corruption>(
                u64_of(old(self).rest(), old(self).byte_order()),
            ) && final(self).rest() == old(self).rest().skip(8),
            old(self).rest().len() < 8 ==> r == Err::<u64, Corruption>(Corruption::Truncated),
    {
        if self.data.len() - self.pos < 8 {
            return Err(Corruption::Truncated);
        }
        let v = read_u64_at(self.data.as_slice(), self.pos, self.order);
        let ghost before = self.rest();
        self.pos = self.pos + 8;
        assert(self.rest() =~= before.skip(8));
        Ok(v)
    }

    /// Reads an `i32`.
    pub fn read_i32(&mut self) -> (r: Result<i32, Corruption>)
        requires
            old(self).well_formed(),
        ensures
            final(self).well_formed(),
            final(self).byte_order() == old(self).byte_order(),
            match parse_i32(old(self).rest(), old(self).byte_order()) {
                Ok((v, rest)) => r == Ok::<i32, Corruption>(v) && final(self).rest() == rest,
                Err(e) => r == Err::<i32, Corruption>(e),
            },
    {
        if self.data.len() - self.pos < 4 {
            return Err(Corruption::Truncated);
        }
        let v = read_u32_at(self.data.as_slice(), self.pos, self.order);
        let ghost before = self.rest();
        self.pos = self.pos + 4;
        assert(self.rest() =~= before.skip(4));
        proof {
            reveal(i32_of);
        }
        Ok(#[verifier::truncate] (v as i32))
    }

    /// Reads a string: its unit count, then its UTF-16 units.
    pub fn read_string(&mut self) -> (r: Result<Vec<u16>, Corruption>)
        requires
            old(self).well_formed(),
        ensures
            final(self).well_formed(),
            final(self).byte_order() == old(self).byte_order(),
            match parse_string(old(self).rest(), old(self).byte_order()) {
                Ok((s, rest)) => r is Ok && r->Ok_0@ == s && final(self).rest() == rest,
                Err(e) => r is Err && r->Err_0 == e,
            },
    {
        let n = match self.read_i32() {
            Ok(n) => n,
            Err(e) => return Err(e),
        };
        if n < 0 {
            return Err(Corruption::NegativeLength);
        }
        let count = n as usize;
        if (self.data.len() - self.pos) / 2 < count {
            return Err(Corruption::Truncated);
        }
        let ghost r = self.rest();
        let total = self.data.len();
        let start = self.pos;
        let mut units: Vec<u16> = Vec::new();
        let mut i: usize = 0;
        while i < count
            invariant
                i <= count,
                self.well_formed(),
                self.pos == start,
                r == self.rest(),
                start + 2 * count <= self.data@.len(),
                total == self.data@.len(),
                2 * count <= r.len(),
                units@.len() == i,
                forall|k: int| 0 <= k < i ==> units@[k] == #[trigger] u16_of(r.skip(2 * k), self.order),
            decreases count - i,
        {
            let u = read_u16_at(self.data.as_slice(), start + 2 * i, self.order);
            assert(self.data@.skip(start + 2 * i) =~= r.skip(2 * i));
            units.push(u);
            i = i + 1;
        }
        self.pos = start + 2 * count;
        assert(self.rest() =~= r.skip(2 * count));
        assert(units@ =~= units_of(r, count as nat, self.order));
        Ok(units)
    }
}

proof fn lemma_entries_step(
    b: Seq<u8>,
    n: nat,
    order: ByteOrder,
    s: Seq<u16>,
    r1: Seq<u8>,
    mode: i32,
    r2: Seq<u8>,
)
    requires
        n > 0,
        parse_string(b, order) == Ok::<_, Corruption>((s, r1)),
        parse_i32(r1, order) == Ok::<_, Corruption>((mode, r2)),
    ensures
        parse_entries(b, n, order) == match parse_entries(r2, (n - 1) as nat, order) {
            Ok((es, r3)) => Ok::<_, Corruption>((seq![(s, mode)] + es, r3)),
            Err(e) => Err(e),
        },
{
}

/// Reads the fields that follow `byte_length`, and requires that nothing
/// follows the final entry.
fn read_fields(reader: &mut TransferDataReader) -> (r: Result<TransferData, Corruption>)
    requires
        old(reader).well_formed(),
    ensures
        match parse_body(old(reader).rest(), old(reader).byte_order()) {
            Ok(m) => r is Ok && r->Ok_0@ == m,
            Err(e) => r is Err && r->Err_0 == e,
        },
{
    let ghost order = reader.order;
    let ghost start_rest = reader.rest();
    let version = match reader.read_i32() {
        Ok(v) => v,
        Err(e) => return Err(e),
    };
    if version != FORMAT_VERSION {
        return Err(Corruption::UnsupportedVersion);
    }
    let unity_version = match reader.read_string() {
        Ok(s) => s,
        Err(e) => return Err(e),
    };
    let os_description = match reader.read_string() {
        Ok(s) => s,
        Err(e) => return Err(e),
    };
    let build_target = match reader.read_string() {
        Ok(s) => s,
        Err(e) => return Err(e),
    };
    let current_directory = match reader.read_string() {
        Ok(s) => s,
        Err(e) => return Err(e),
    };
    let ghost r4 = reader.rest();
    assert(parse_body(start_rest, order) == parse_log(
        unity_version@,
        os_description@,
        build_target@,
        current_directory@,
        r4,
        order,
    ));
    let count = match reader.read_i32() {
        Ok(v) => v,
        Err(e) => return Err(e),
    };
    if count < 0 {
        return Err(Corruption::NegativeLength);
    }
    let ghost r5 = reader.rest();
    assert(parse_i32(r4, order) == Ok::<_, Corruption>((count, r5)));
    let mut entries: Vec<LogRecord> = Vec::new();
    let mut i: i32 = 0;
    while i < count
        invariant
            0 <= i <= count,
            reader.well_formed(),
            reader.byte_order() == order,
            start_rest == old(reader).rest(),
            order == old(reader).byte_order(),
            parse_i32(r4, order) == Ok::<_, Corruption>((count, r5)),
            parse_body(start_rest, order) == parse_log(
                unity_version@,
                os_description@,
                build_target@,
                current_directory@,
                r4,
                order,
            ),
            parse_entries(r5, count as nat, order) == match parse_entries(
                reader.rest(),
                (count - i) as nat,
                order,
            ) {
                Ok((es, r3)) => Ok::<_, Corruption>(
                    (entries@.map_values(|e: LogRecord| e@) + es, r3),
                ),
                Err(e) => Err(e),
            },
        decreases count - i,
    {
        let ghost b = reader.rest();
        let message = match reader.read_string() {
            Ok(s) => s,
            Err(e) => {
                assert(parse_entries(b, (count - i) as nat, order) == Err::<
                    (Seq<(Seq<u16>, i32)>, Seq<u8>),
                    _,
                >(e));
                assert(parse_entries(r5, count as nat, order) == Err::<
                    (Seq<(Seq<u16>, i32)>, Seq<u8>),
                    _,
                >(e));
                assert(parse_log(
                    unity_version@,
                    os_description@,
                    build_target@,
                    current_directory@,
                    r4,
                    order,
                ) == Err::<TransferModel, Corruption>(e));
                return Err(e);
            },
        };
        let ghost r1 = reader.rest();
        let mode = match reader.read_i32() {
            Ok(v) => v,
            Err(e) => {
                assert(parse_entries(b, (count - i) as nat, order) == Err::<
                    (Seq<(Seq<u16>, i32)>, Seq<u8>),
                    _,
                >(e));
                assert(parse_entries(r5, count as nat, order) == Err::<
                    (Seq<(Seq<u16>, i32)>, Seq<u8>),
                    _,
                >(e));
                assert(parse_log(
                    unity_version@,
                    os_description@,
                    build_target@,
                    current_directory@,
                    r4,
                    order,
                ) == Err::<TransferModel, Corruption>(e));
                return Err(e);
            },
        };
        proof {
            lemma_entries_step(b, (count - i) as nat, order, message@, r1, mode, reader.rest());
        }
        let ghost before = entries@.map_values(|e: LogRecord| e@);
        entries.push(LogRecord { message, mode });
        proof {
            let after = entries@.map_values(|e: LogRecord| e@);
            assert(after =~= before.push((message@, mode)));
            match parse_entries(reader.rest(), (count - i - 1) as nat, order) {
                Ok((es, r3)) => {
                    assert(before + (seq![(message@, mode)] + es) =~= after + es);
                },
                Err(e) => {},
            }
        }
        i = i + 1;
    }
    let ghost done = entries@.map_values(|e: LogRecord| e@);
    assert(parse_entries(reader.rest(), 0, order) == Ok::<_, Corruption>(
        (Seq::<(Seq<u16>, i32)>::empty(), reader.rest()),
    ));
    assert(done + Seq::<(Seq<u16>, i32)>::empty() =~= done);
    if reader.remaining() != 0 {
        return Err(Corruption::LengthMismatch);
    }
    Ok(
        TransferData {
            unity_version,
            os_description,
            build_target,
            current_directory,
            entries,
        },
    )
}

/// Decodes the bytes that follow `byte_length`.
pub fn decode_body(body: Vec<u8>, order: ByteOrder) -> (r: Result<TransferData, Corruption>)
    ensures
        match parse_body(body@, order) {
            Ok(m) => r is Ok && r->Ok_0@ == m,
            Err(e) => r is Err && r->Err_0 == e,
        },
{
    let mut reader = TransferDataReader::with_byte_order(body, order);
    read_fields(&mut reader)
}

/// Decodes a buffer that starts at the `byte_length` field.
pub fn decode_transfer(buffer: Vec<u8>, order: ByteOrder) -> (r: Result<TransferData, Corruption>)
    ensures
        match parse_transfer(buffer@, order) {
            Ok(m) => r is Ok && r->Ok_0@ == m,
            Err(e) => r is Err && r->Err_0 == e,
        },
{
    let total = buffer.len();
    let mut reader = TransferDataReader::with_byte_order(buffer, order);
    let byte_length = match reader.read_u64() {
        Ok(v) => v,
        Err(e) => return Err(e),
    };
    if byte_length as u128 != (total - 8) as u128 {
        return Err(Corruption::LengthMismatch);
    }
    read_fields(&mut reader)
}

} // verus!
