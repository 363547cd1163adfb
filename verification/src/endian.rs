//! The arithmetic meaning of byte sequences in either byte order, and the
//! trusted bridge to the `byteorder` crate that decodes them at run time.

use vstd::prelude::*;

use byteorder::ByteOrder;

use crate::RafByteOrder;

verus! {

/// The integer a byte sequence denotes in little-endian order: the first
/// byte is the least significant.
pub open spec fn le_val(s: Seq<u8>) -> int
    decreases s.len(),
{
    if s.len() == 0 {
        0
    } else {
        s[0] + 256 * le_val(s.subrange(1, s.len() as int))
    }
}

/// The integer a byte sequence denotes in big-endian order: the first byte
/// is the most significant.
pub open spec fn be_val(s: Seq<u8>) -> int {
    le_val(s.reverse())
}

/// The integer a byte sequence denotes in the given byte order.
pub open spec fn order_val(bo: RafByteOrder, s: Seq<u8>) -> int {
    match bo {
        RafByteOrder::BE => be_val(s),
        RafByteOrder::LE => le_val(s),
    }
}

/// 256 to the power `n`: the number of values `n` bytes can denote.
pub open spec fn pow256(n: nat) -> int
    decreases n,
{
    if n == 0 {
        1
    } else {
        256 * pow256((n - 1) as nat)
    }
}

/// A sequence of `n` bytes denotes, in little-endian order, a value in
/// `[0, 256^n)`.
pub proof fn lemma_le_val_bound(s: Seq<u8>)
    ensures
        0 <= le_val(s) < pow256(s.len()),
    decreases s.len(),
{
    if s.len() > 0 {
        lemma_le_val_bound(s.subrange(1, s.len() as int));
    }
}

/// A sequence of `n` bytes denotes, in big-endian order, a value in
/// `[0, 256^n)`.
pub proof fn lemma_be_val_bound(s: Seq<u8>)
    ensures
        0 <= be_val(s) < pow256(s.len()),
{
    lemma_le_val_bound(s.reverse());
}

/// A sequence of `n` bytes denotes, in either byte order, a value in
/// `[0, 256^n)`.
pub proof fn lemma_order_val_bound(bo: RafByteOrder, s: Seq<u8>)
    ensures
        0 <= order_val(bo, s) < pow256(s.len()),
{
    match bo {
        RafByteOrder::BE => lemma_be_val_bound(s),
        RafByteOrder::LE => lemma_le_val_bound(s),
    }
}

/// The `n`-byte little-endian encoding of `u`: least significant byte first.
pub open spec fn le_enc(u: int, n: nat) -> Seq<u8>
    decreases n,
{
    if n == 0 {
        Seq::empty()
    } else {
        seq![((u % 256) as u8)] + le_enc(u / 256, (n - 1) as nat)
    }
}

/// The `n`-byte big-endian encoding of `u`: most significant byte first.
pub open spec fn be_enc(u: int, n: nat) -> Seq<u8> {
    le_enc(u, n).reverse()
}

/// The `n`-byte encoding of `u` in the given byte order.
pub open spec fn order_enc(bo: RafByteOrder, u: int, n: nat) -> Seq<u8> {
    match bo {
        RafByteOrder::BE => be_enc(u, n),
        RafByteOrder::LE => le_enc(u, n),
    }
}

/// An `n`-byte encoding is `n` bytes long.
pub proof fn lemma_le_enc_len(u: int, n: nat)
    ensures
        le_enc(u, n).len() == n,
    decreases n,
{
    if n > 0 {
        lemma_le_enc_len(u / 256, (n - 1) as nat);
    }
}

/// Decoding inverts encoding: the `n` little-endian bytes of a value in
/// `[0, 256^n)` denote that value again.
pub proof fn lemma_le_round_trip(u: int, n: nat)
    requires
        0 <= u < pow256(n),
    ensures
        le_val(le_enc(u, n)) == u,
    decreases n,
{
    if n > 0 {
        let s = le_enc(u, n);
        let rest = le_enc(u / 256, (n - 1) as nat);
        lemma_le_enc_len(u / 256, (n - 1) as nat);
        assert(s.subrange(1, s.len() as int) =~= rest);
        assert(0 <= u / 256 < pow256((n - 1) as nat)) by {
            assert(pow256(n) == 256 * pow256((n - 1) as nat));
        };
        lemma_le_round_trip(u / 256, (n - 1) as nat);
    }
}

/// Decoding inverts encoding in big-endian order as well.
pub proof fn lemma_be_round_trip(u: int, n: nat)
    requires
        0 <= u < pow256(n),
    ensures
        be_val(be_enc(u, n)) == u,
{
    assert(le_enc(u, n).reverse().reverse() =~= le_enc(u, n));
    lemma_le_round_trip(u, n);
}

/// Decoding inverts encoding in either byte order.
pub proof fn lemma_order_round_trip(bo: RafByteOrder, u: int, n: nat)
    requires
        0 <= u < pow256(n),
    ensures
        order_val(bo, order_enc(bo, u, n)) == u,
        order_enc(bo, u, n).len() == n,
{
    lemma_le_enc_len(u, n);
    match bo {
        RafByteOrder::BE => lemma_be_round_trip(u, n),
        RafByteOrder::LE => lemma_le_round_trip(u, n),
    }
}

/// Relies on `byteorder::LittleEndian::read_u16`: reassembles two bytes,
/// least significant first; panics only on fewer than two bytes.
#[verifier::external_body]
pub(crate) fn le_read_u16(b: &Vec<u8>) -> (r: u16)
    requires
        b@.len() == 2,
    ensures
        r as int == le_val(b@),
{
    byteorder::LittleEndian::read_u16(b)
}

/// Relies on `byteorder::BigEndian::read_u16`: reassembles two bytes, most
/// significant first; panics only on fewer than two bytes.
#[verifier::external_body]
pub(crate) fn be_read_u16(b: &Vec<u8>) -> (r: u16)
    requires
        b@.len() == 2,
    ensures
        r as int == be_val(b@),
{
    byteorder::BigEndian::read_u16(b)
}

/// Relies on `byteorder::LittleEndian::read_u32`: reassembles four bytes,
/// least significant first; panics only on fewer than four bytes.
#[verifier::external_body]
pub(crate) fn le_read_u32(b: &Vec<u8>) -> (r: u32)
    requires
        b@.len() == 4,
    ensures
        r as int == le_val(b@),
{
    byteorder::LittleEndian::read_u32(b)
}

/// Relies on `byteorder::BigEndian::read_u32`: reassembles four bytes, most
/// significant first; panics only on fewer than four bytes.
#[verifier::external_body]
pub(crate) fn be_read_u32(b: &Vec<u8>) -> (r: u32)
    requires
        b@.len() == 4,
    ensures
        r as int == be_val(b@),
{
    byteorder::BigEndian::read_u32(b)
}

/// Relies on `byteorder::LittleEndian::read_u64`: reassembles eight bytes,
/// least significant first; panics only on fewer than eight bytes.
#[verifier::external_body]
pub(crate) fn le_read_u64(b: &Vec<u8>) -> (r: u64)
    requires
        b@.len() == 8,
    ensures
        r as int == le_val(b@),
{
    byteorder::LittleEndian::read_u64(b)
}

/// Relies on `byteorder::BigEndian::read_u64`: reassembles eight bytes, most
/// significant first; panics only on fewer than eight bytes.
#[verifier::external_body]
pub(crate) fn be_read_u64(b: &Vec<u8>) -> (r: u64)
    requires
        b@.len() == 8,
    ensures
        r as int == be_val(b@),
{
    byteorder::BigEndian::read_u64(b)
}

} // verus!
