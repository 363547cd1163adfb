//! The library's laws: how construction, seeking and the typed readers
//! compose, proved over the reader model that every contract speaks of.

use vstd::prelude::*;

use crate::endian::lemma_order_round_trip;
use crate::endian::order_enc;
use crate::reads::lemma_pow256_widths;
use crate::reads::spec_read_i16;
use crate::reads::spec_read_i32;
use crate::reads::spec_read_i64;
use crate::reads::spec_read_i8;
use crate::reads::spec_read_u16;
use crate::reads::spec_read_u32;
use crate::reads::spec_read_u64;
use crate::reads::spec_read_u8;
use crate::spec_read_byte;
use crate::spec_read_bytes;
use crate::spec_seek;
use crate::RafByteOrder;
use crate::RafError;
use crate::RafModel;

verus! {

/// Law: reading `n` bytes right after construction from `b` yields exactly
/// the first `n` bytes of `b` and leaves the cursor at `n`, whenever `n`
/// is within the data.
pub proof fn lemma_from_bytes_then_read_bytes(b: Seq<u8>, bo: RafByteOrder, n: int)
    requires
        0 <= n <= b.len(),
    ensures
        ({
            let m = (RafModel { data: b, pos: 0, bo });
            &&& spec_read_bytes(m, n).1 == Ok::<Seq<u8>, RafError>(b.subrange(0, n))
            &&& spec_read_bytes(m, n).0 == (RafModel { data: b, pos: n, bo })
        }),
{
}

/// Law: a 32-bit value encoded in a byte order and decoded by the reader
/// configured with that same order comes back bit for bit, whichever the
/// order, the cursor moved exactly past the four bytes.
pub proof fn lemma_u32_round_trip(u: u32, bo: RafByteOrder)
    ensures
        ({
            let m = (RafModel { data: order_enc(bo, u as int, 4), pos: 0, bo });
            &&& spec_read_u32(m).1 == Ok::<u32, RafError>(u)
            &&& spec_read_u32(m).0 == (RafModel { data: m.data, pos: 4, bo })
        }),
{
    lemma_pow256_widths();
    lemma_order_round_trip(bo, u as int, 4);
    let m = (RafModel { data: order_enc(bo, u as int, 4), pos: 0, bo });
    assert(m.data.subrange(0, 4) =~= m.data);
}

/// Law: over the same bytes, the unsigned and the signed 32-bit readers
/// move the cursor alike and return the same bits, the signed value being
/// the unsigned one reinterpreted, and conversely.
pub proof fn lemma_u32_i32_same_bits(m: RafModel)
    ensures
        spec_read_i32(m).0 == spec_read_u32(m).0,
        (match (spec_read_u32(m).1, spec_read_i32(m).1) {
            (Ok(u), Ok(i)) => i == u as i32 && u == i as u32,
            (Err(e1), Err(e2)) => e1 == e2,
            _ => false,
        }),
{
    if spec_read_u32(m).1 is Ok {
        let u = spec_read_u32(m).1->Ok_0;
        assert(u as i32 as u32 == u) by (bit_vector);
    }
}

/// Law: after `seek(p)` a read starts exactly at `p`: a byte-range read in
/// range returns the bytes there and leaves the cursor at `p + n`; one past
/// the end fails with `BufferOverflow`, and a single-byte read at or past
/// the end fails with `StartOutOfRange`, the reader untouched either way.
pub proof fn lemma_seek_then_read(m: RafModel, p: usize, n: int)
    requires
        0 <= n,
    ensures
        ({
            let m1 = spec_seek(m, p as int);
            &&& (p + n <= m.data.len() ==> spec_read_bytes(m1, n) == (
                (RafModel { data: m.data, pos: p + n, bo: m.bo }),
                Ok::<Seq<u8>, RafError>(m.data.subrange(p as int, p + n)),
            ))
            &&& (p + n > m.data.len() ==> spec_read_bytes(m1, n) == (
                m1,
                Err::<Seq<u8>, RafError>(RafError::BufferOverflow),
            ))
            &&& (p >= m.data.len() ==> spec_read_byte(m1) == (
                m1,
                Err::<u8, RafError>(RafError::StartOutOfRange),
            ))
        }),
{
}

/// Law: on an empty buffer, every primitive reader fails with its
/// out-of-range kind — `StartOutOfRange` for the single-byte readers,
/// `BufferOverflow` for the multi-byte ones — and moves nothing.
pub proof fn lemma_empty_buffer_reads_fail(m: RafModel)
    requires
        m.data.len() == 0,
    ensures
        spec_read_u8(m) == (m, Err::<u8, RafError>(RafError::StartOutOfRange)),
        spec_read_i8(m) == (m, Err::<i8, RafError>(RafError::StartOutOfRange)),
        spec_read_u16(m) == (m, Err::<u16, RafError>(RafError::BufferOverflow)),
        spec_read_i16(m) == (m, Err::<i16, RafError>(RafError::BufferOverflow)),
        spec_read_u32(m) == (m, Err::<u32, RafError>(RafError::BufferOverflow)),
        spec_read_i32(m) == (m, Err::<i32, RafError>(RafError::BufferOverflow)),
        spec_read_u64(m) == (m, Err::<u64, RafError>(RafError::BufferOverflow)),
        spec_read_i64(m) == (m, Err::<i64, RafError>(RafError::BufferOverflow)),
{
}

} // verus!
