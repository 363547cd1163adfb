//! The seek-then-read protocol: a decoder is any capability that reads one
//! typed value from the reader, and `seek_read` jumps to an offset and runs
//! one there in a single step.

use vstd::prelude::*;

use crate::reads::spec_read_i16;
use crate::reads::spec_read_i32;
use crate::reads::spec_read_i64;
use crate::reads::spec_read_i8;
use crate::reads::spec_read_u16;
use crate::reads::spec_read_u32;
use crate::reads::spec_read_u64;
use crate::reads::spec_read_u8;
use crate::spec_seek;
use crate::Raf;
use crate::RafError;
use crate::RafModel;

verus! {

/// One typed read against the reader, together with a spec-level
/// description of exactly what it does to the reader and what it returns.
pub trait Decode: Sized {
    /// The decoded value's type.
    type Out;

    /// What the decode does to a reader model and what it returns.
    spec fn decoded(m: RafModel) -> (RafModel, Result<Self::Out, RafError>);

    /// Performs the decode at the current cursor.
    fn decode(self, raf: &mut Raf) -> (r: Result<Self::Out, RafError>)
        requires
            old(raf).wf(),
        ensures
            final(raf).wf(),
            (final(raf)@, r) == Self::decoded(old(raf)@),
    ;
}

/// Decodes a `u8`.
pub struct ReadU8;

/// Decodes an `i8`.
pub struct ReadI8;

/// Decodes a `u16` in the reader's byte order.
pub struct ReadU16;

/// Decodes an `i16` in the reader's byte order.
pub struct ReadI16;

/// Decodes a `u32` in the reader's byte order.
pub struct ReadU32;

/// Decodes an `i32` in the reader's byte order.
pub struct ReadI32;

/// Decodes a `u64` in the reader's byte order.
pub struct ReadU64;

/// Decodes an `i64` in the reader's byte order.
pub struct ReadI64;

impl Decode for ReadU8 {
    type Out = u8;

    open spec fn decoded(m: RafModel) -> (RafModel, Result<u8, RafError>) {
        spec_read_u8(m)
    }

    fn decode(self, raf: &mut Raf) -> (r: Result<u8, RafError>) {
        raf.read_u8()
    }
}

impl Decode for ReadI8 {
    type Out = i8;

    open spec fn decoded(m: RafModel) -> (RafModel, Result<i8, RafError>) {
        spec_read_i8(m)
    }

    fn decode(self, raf: &mut Raf) -> (r: Result<i8, RafError>) {
        raf.read_i8()
    }
}

impl Decode for ReadU16 {
    type Out = u16;

    open spec fn decoded(m: RafModel) -> (RafModel, Result<u16, RafError>) {
        spec_read_u16(m)
    }

    fn decode(self, raf: &mut Raf) -> (r: Result<u16, RafError>) {
        raf.read_u16()
    }
}

impl Decode for ReadI16 {
    type Out = i16;

    open spec fn decoded(m: RafModel) -> (RafModel, Result<i16, RafError>) {
        spec_read_i16(m)
    }

    fn decode(self, raf: &mut Raf) -> (r: Result<i16, RafError>) {
        raf.read_i16()
    }
}

impl Decode for ReadU32 {
    type Out = u32;

    open spec fn decoded(m: RafModel) -> (RafModel, Result<u32, RafError>) {
        spec_read_u32(m)
    }

    fn decode(self, raf: &mut Raf) -> (r: Result<u32, RafError>) {
        raf.read_u32()
    }
}

impl Decode for ReadI32 {
    type Out = i32;

    open spec fn decoded(m: RafModel) -> (RafModel, Result<i32, RafError>) {
        spec_read_i32(m)
    }

    fn decode(self, raf: &mut Raf) -> (r: Result<i32, RafError>) {
        raf.read_i32()
    }
}

impl Decode for ReadU64 {
    type Out = u64;

    open spec fn decoded(m: RafModel) -> (RafModel, Result<u64, RafError>) {
        spec_read_u64(m)
    }

    fn decode(self, raf: &mut Raf) -> (r: Result<u64, RafError>) {
        raf.read_u64()
    }
}

impl Decode for ReadI64 {
    type Out = i64;

    open spec fn decoded(m: RafModel) -> (RafModel, Result<i64, RafError>) {
        spec_read_i64(m)
    }

    fn decode(self, raf: &mut Raf) -> (r: Result<i64, RafError>) {
        raf.read_i64()
    }
}

impl Raf {
    /// Seeks to `pos`, then runs the given decoder there: by its contract
    /// this returns the very value, and leaves the very cursor, that
    /// `seek(pos)` followed by the decoder's own read would.
    pub fn seek_read<D: Decode>(&mut self, pos: usize, func: D) -> (r: Result<D::Out, RafError>)
        requires
            old(self).wf(),
        ensures
            final(self).wf(),
            (final(self)@, r) == D::decoded(spec_seek(old(self)@, pos as int)),
    {
        self.seek(pos);
        func.decode(self)
    }
}

} // verus!
