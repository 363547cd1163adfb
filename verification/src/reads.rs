//! Fixed-width integer decoders: each reads exactly its width through the
//! raw byte reader, then reassembles the value in the reader's byte order.

use vstd::prelude::*;

use crate::endian::be_read_u16;
use crate::endian::be_read_u32;
use crate::endian::be_read_u64;
use crate::endian::le_read_u16;
use crate::endian::le_read_u32;
use crate::endian::le_read_u64;
use crate::endian::lemma_order_val_bound;
use crate::endian::order_val;
use crate::endian::pow256;
use crate::spec_read_byte;
use crate::spec_read_bytes;
use crate::Raf;
use crate::RafByteOrder;
use crate::RafError;
use crate::RafModel;

verus! {

/// What `read_u16` does: two bytes reassembled in the reader's byte order.
pub open spec fn spec_read_u16(m: RafModel) -> (RafModel, Result<u16, RafError>) {
    let (m2, r) = spec_read_bytes(m, 2);
    match r {
        Ok(s) => (m2, Ok((order_val(m.bo, s) as u16))),
        Err(e) => (m2, Err(e)),
    }
}

/// What `read_i16` does: the `read_u16` value reinterpreted, bit for bit,
/// as a signed integer.
pub open spec fn spec_read_i16(m: RafModel) -> (RafModel, Result<i16, RafError>) {
    let (m2, r) = spec_read_u16(m);
    match r {
        Ok(u) => (m2, Ok((u as i16))),
        Err(e) => (m2, Err(e)),
    }
}

/// What `read_u32` does: four bytes reassembled in the reader's byte order.
pub open spec fn spec_read_u32(m: RafModel) -> (RafModel, Result<u32, RafError>) {
    let (m2, r) = spec_read_bytes(m, 4);
    match r {
        Ok(s) => (m2, Ok((order_val(m.bo, s) as u32))),
        Err(e) => (m2, Err(e)),
    }
}

/// What `read_i32` does: the `read_u32` value reinterpreted, bit for bit,
/// as a signed integer.
pub open spec fn spec_read_i32(m: RafModel) -> (RafModel, Result<i32, RafError>) {
    let (m2, r) = spec_read_u32(m);
    match r {
        Ok(u) => (m2, Ok((u as i32))),
        Err(e) => (m2, Err(e)),
    }
}

/// What `read_u64` does: eight bytes reassembled in the reader's byte order.
pub open spec fn spec_read_u64(m: RafModel) -> (RafModel, Result<u64, RafError>) {
    let (m2, r) = spec_read_bytes(m, 8);
    match r {
        Ok(s) => (m2, Ok((order_val(m.bo, s) as u64))),
        Err(e) => (m2, Err(e)),
    }
}

/// What `read_i64` does: the `read_u64` value reinterpreted, bit for bit,
/// as a signed integer.
pub open spec fn spec_read_i64(m: RafModel) -> (RafModel, Result<i64, RafError>) {
    let (m2, r) = spec_read_u64(m);
    match r {
        Ok(u) => (m2, Ok((u as i64))),
        Err(e) => (m2, Err(e)),
    }
}

/// What `read_u8` does: the single byte under the cursor.
pub open spec fn spec_read_u8(m: RafModel) -> (RafModel, Result<u8, RafError>) {
    spec_read_byte(m)
}

/// What `read_i8` does: the byte under the cursor reinterpreted, bit for
/// bit, as a signed integer.
pub open spec fn spec_read_i8(m: RafModel) -> (RafModel, Result<i8, RafError>) {
    let (m2, r) = spec_read_byte(m);
    match r {
        Ok(u) => (m2, Ok((u as i8))),
        Err(e) => (m2, Err(e)),
    }
}

/// `256^2`, `256^4` and `256^8` written out, so that decoded values are
/// known to fit their width.
pub proof fn lemma_pow256_widths()
    ensures
        pow256(2) == 0x1_0000,
        pow256(4) == 0x1_0000_0000,
        pow256(8) == 0x1_0000_0000_0000_0000,
{
    assert(pow256(0) == 1);
    assert(pow256(1) == 256);
    assert(pow256(2) == 0x1_0000);
    assert(pow256(3) == 0x100_0000);
    assert(pow256(4) == 0x1_0000_0000);
    assert(pow256(5) == 0x100_0000_0000);
    assert(pow256(6) == 0x1_0000_0000_0000);
    assert(pow256(7) == 0x100_0000_0000_0000);
    assert(pow256(8) == 0x1_0000_0000_0000_0000);
}

impl Raf {
    /// Reads a `u16` at the cursor in the reader's byte order.
    pub fn read_u16(&mut self) -> (r: Result<u16, RafError>)
        requires
            old(self).wf(),
        ensures
            final(self).wf(),
            (final(self)@, r) == spec_read_u16(old(self)@),
    {
        let ghost m0 = self@;
        let bytes = match self.read_bytes(2) {
            Ok(b) => b,
            Err(e) => {
                return Err(e);
            },
        };
        proof {
            lemma_order_val_bound(m0.bo, bytes@);
            lemma_pow256_widths();
        }
        let v = match self.bo {
            RafByteOrder::BE => be_read_u16(&bytes),
            RafByteOrder::LE => le_read_u16(&bytes),
        };
        Ok(v)
    }

    /// Reads an `i16` at the cursor: the `u16` bits reinterpreted as signed.
    pub fn read_i16(&mut self) -> (r: Result<i16, RafError>)
        requires
            old(self).wf(),
        ensures
            final(self).wf(),
            (final(self)@, r) == spec_read_i16(old(self)@),
    {
        match self.read_u16() {
            Ok(u) => Ok(#[verifier::truncate] (u as i16)),
            Err(e) => Err(e),
        }
    }

    /// Reads a `u32` at the cursor in the reader's byte order.
    pub fn read_u32(&mut self) -> (r: Result<u32, RafError>)
        requires
            old(self).wf(),
        ensures
            final(self).wf(),
            (final(self)@, r) == spec_read_u32(old(self)@),
    {
        let ghost m0 = self@;
        let bytes = match self.read_bytes(4) {
            Ok(b) => b,
            Err(e) => {
                return Err(e);
            },
        };
        proof {
            lemma_order_val_bound(m0.bo, bytes@);
            lemma_pow256_widths();
        }
        let v = match self.bo {
            RafByteOrder::BE => be_read_u32(&bytes),
            RafByteOrder::LE => le_read_u32(&bytes),
        };
        Ok(v)
    }

    /// Reads an `i32` at the cursor: the `u32` bits reinterpreted as signed.
    pub fn read_i32(&mut self) -> (r: Result<i32, RafError>)
        requires
            old(self).wf(),
        ensures
            final(self).wf(),
            (final(self)@, r) == spec_read_i32(old(self)@),
    {
        match self.read_u32() {
            Ok(u) => Ok(#[verifier::truncate] (u as i32)),
            Err(e) => Err(e),
        }
    }

    /// Reads a `u64` at the cursor in the reader's byte order.
    pub fn read_u64(&mut self) -> (r: Result<u64, RafError>)
        requires
            old(self).wf(),
        ensures
            final(self).wf(),
            (final(self)@, r) == spec_read_u64(old(self)@),
    {
        let ghost m0 = self@;
        let bytes = match self.read_bytes(8) {
            Ok(b) => b,
            Err(e) => {
                return Err(e);
            },
        };
        proof {
            lemma_order_val_bound(m0.bo, bytes@);
            lemma_pow256_widths();
        }
        let v = match self.bo {
            RafByteOrder::BE => be_read_u64(&bytes),
            RafByteOrder::LE => le_read_u64(&bytes),
        };
        Ok(v)
    }

    /// Reads an `i64` at the cursor: the `u64` bits reinterpreted as signed.
    pub fn read_i64(&mut self) -> (r: Result<i64, RafError>)
        requires
            old(self).wf(),
        ensures
            final(self).wf(),
            (final(self)@, r) == spec_read_i64(old(self)@),
    {
        match self.read_u64() {
            Ok(u) => Ok(#[verifier::truncate] (u as i64)),
            Err(e) => Err(e),
        }
    }

    /// Reads a `u8` at the cursor.
    pub fn read_u8(&mut self) -> (r: Result<u8, RafError>)
        requires
            old(self).wf(),
        ensures
            final(self).wf(),
            (final(self)@, r) == spec_read_u8(old(self)@),
    {
        self.read_byte()
    }

    /// Reads an `i8` at the cursor: the byte reinterpreted as signed.
    pub fn read_i8(&mut self) -> (r: Result<i8, RafError>)
        requires
            old(self).wf(),
        ensures
            final(self).wf(),
            (final(self)@, r) == spec_read_i8(old(self)@),
    {
        match self.read_byte() {
            Ok(u) => Ok(#[verifier::truncate] (u as i8)),
            Err(e) => Err(e),
        }
    }
}

} // verus!
