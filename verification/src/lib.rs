//! A random-access binary reader: a cursor over an owned byte buffer with
//! byte-order-aware decoding of fixed-width integers and strings.

use vstd::prelude::*;

pub mod decode;
pub mod endian;
pub mod laws;
pub mod reads;
pub mod strings;

verus! {

/// Byte order used to reassemble multi-byte values.
#[derive(Debug)]
pub enum RafByteOrder {
    /// Big endian: most significant byte first.
    BE,
    /// Little endian: least significant byte first.
    LE,
}

/// Errors returned by read and positioning operations.
#[derive(Debug)]
pub enum RafError {
    /// The end of a requested byte range exceeds the buffer's length.
    BufferOverflow,
    /// The cursor itself is out of range, or a relative advance would push it out.
    StartOutOfRange,
    /// Bytes were read but are not valid UTF-8 text.
    StrParseError,
}

/// Random-access reader: an owned byte buffer, a cursor, and a byte order.
#[derive(Debug)]
pub struct Raf {
    /// The owned bytes.
    data: Vec<u8>,
    /// Cached length of `data`.
    size: usize,
    /// Current cursor position; sequential reads start here.
    pub pos: usize,
    /// Byte order for multi-byte decodes, fixed at construction.
    bo: RafByteOrder,
}

/// Mathematical model of a reader: its bytes, its cursor, and its byte order.
pub ghost struct RafModel {
    pub data: Seq<u8>,
    pub pos: int,
    pub bo: RafByteOrder,
}

impl View for Raf {
    type V = RafModel;

    closed spec fn view(&self) -> RafModel {
        RafModel { data: self.data@, pos: self.pos as int, bo: self.bo }
    }
}

/// What `read_bytes(n)` does to a reader: on success the next `n` bytes and a
/// cursor moved past them; the reader is unchanged on failure.
pub open spec fn spec_read_bytes(m: RafModel, n: int) -> (RafModel, Result<Seq<u8>, RafError>) {
    if 0 <= m.pos && m.pos + n <= m.data.len() {
        (
            (RafModel { pos: m.pos + n, ..m }),
            Ok(m.data.subrange(m.pos, m.pos + n)),
        )
    } else {
        (m, Err(RafError::BufferOverflow))
    }
}

/// What `read_byte` does to a reader: on success the byte under the cursor
/// and a cursor moved one past it; the reader is unchanged on failure.
pub open spec fn spec_read_byte(m: RafModel) -> (RafModel, Result<u8, RafError>) {
    if 0 <= m.pos < m.data.len() {
        ((RafModel { pos: m.pos + 1, ..m }), Ok(m.data[m.pos]))
    } else {
        (m, Err(RafError::StartOutOfRange))
    }
}

/// What `seek(p)` does to a reader: the cursor moves unconditionally.
pub open spec fn spec_seek(m: RafModel, p: int) -> RafModel {
    RafModel { pos: p, ..m }
}

/// What `adv(d)` does to a reader: the cursor moves forward by `d` if that
/// stays within the buffer, and is untouched otherwise.
pub open spec fn spec_adv(m: RafModel, d: int) -> (RafModel, Result<(), RafError>) {
    if 0 <= m.pos && m.pos + d <= m.data.len() {
        ((RafModel { pos: m.pos + d, ..m }), Ok(()))
    } else {
        (m, Err(RafError::StartOutOfRange))
    }
}

/// Declares `std::io::Error`, the failure a byte source reports while being
/// drained; it is passed through unchanged and nothing is assumed of it.
#[verifier::external_type_specification]
#[verifier::external_body]
pub struct ExIoError(std::io::Error);

/// The modelled cursor is never negative: it mirrors an unsigned index.
pub proof fn lemma_model_pos_nonneg(r: &Raf)
    ensures
        0 <= r@.pos,
{
}

impl Raf {
    /// The cached length matches the buffer; every constructor establishes
    /// this and every operation preserves it.
    pub closed spec fn wf(&self) -> bool {
        self.size == self.data@.len()
    }

    /// Relies on `std::io::Read::read_to_end`: drains the source to its
    /// end into an owned buffer, or propagates the source's error
    /// unchanged. What bytes arrive depends on the source, so only the
    /// fresh cursor and the byte order are promised of a success.
    #[verifier::external_body]
    pub fn from_read<R: std::io::Read>(reader: &mut R, bo: RafByteOrder) -> (r: Result<
        Self,
        std::io::Error,
    >)
        ensures
            (match r {
                Ok(raf) => raf.wf() && raf@.pos == 0 && raf@.bo == bo,
                Err(_) => true,
            }),
    {
        let mut data: Vec<u8> = Vec::new();
        std::io::Read::read_to_end(reader, &mut data).map(|size| Raf { data, size, pos: 0, bo })
    }

    /// Creates a reader over a private copy of the given bytes, cursor at 0.
    pub fn from_bytes(data: &Vec<u8>, bo: RafByteOrder) -> (r: Self)
        ensures
            r.wf(),
            r@ == (RafModel { data: data@, pos: 0int, bo }),
    {
        let copy = data.clone();
        assert(copy@ =~= data@);
        Raf { data: copy, size: data.len(), pos: 0, bo }
    }

    /// Returns the next `num_bytes` bytes as a fresh vector and advances the
    /// cursor past them; fails with `BufferOverflow`, moving nothing, if the
    /// requested range does not lie entirely within the buffer.
    pub fn read_bytes(&mut self, num_bytes: usize) -> (r: Result<Vec<u8>, RafError>)
        requires
            old(self).wf(),
        ensures
            final(self).wf(),
            final(self)@ == spec_read_bytes(old(self)@, num_bytes as int).0,
            (match (r, spec_read_bytes(old(self)@, num_bytes as int).1) {
                (Ok(v), Ok(s)) => v@ == s,
                (Err(e), Err(e2)) => e == e2,
                _ => false,
            }),
    {
        if num_bytes > self.size || self.pos > self.size - num_bytes {
            return Err(RafError::BufferOverflow);
        }
        let mut res: Vec<u8> = Vec::new();
        let mut i: usize = 0;
        while i < num_bytes
            invariant
                self == old(self),
                self.wf(),
                i <= num_bytes,
                self.pos + num_bytes <= self.size,
                res@ =~= self.data@.subrange(self.pos as int, self.pos + i as int),
            decreases num_bytes - i,
        {
            res.push(self.data[self.pos + i]);
            i += 1;
        }
        self.pos = self.pos + num_bytes;
        Ok(res)
    }

    /// Returns the byte under the cursor and advances the cursor by one;
    /// fails with `StartOutOfRange`, moving nothing, if the cursor is at or
    /// past the end of the buffer.
    pub fn read_byte(&mut self) -> (r: Result<u8, RafError>)
        requires
            old(self).wf(),
        ensures
            final(self).wf(),
            (final(self)@, r) == spec_read_byte(old(self)@),
    {
        if self.pos >= self.size {
            return Err(RafError::StartOutOfRange);
        }
        let res = self.data[self.pos];
        self.pos = self.pos + 1;
        Ok(res)
    }

    /// Moves the cursor to `pos` unconditionally; an out-of-range seek is
    /// only detected by the next read.
    pub fn seek(&mut self, pos: usize)
        requires
            old(self).wf(),
        ensures
            final(self).wf(),
            final(self)@ == spec_seek(old(self)@, pos as int),
    {
        self.pos = pos;
    }

    /// Moves the cursor forward by `pos` if the result stays within the
    /// buffer; fails with `StartOutOfRange`, moving nothing, otherwise.
    pub fn adv(&mut self, pos: usize) -> (r: Result<(), RafError>)
        requires
            old(self).wf(),
        ensures
            final(self).wf(),
            (final(self)@, r) == spec_adv(old(self)@, pos as int),
    {
        if pos > self.size || self.pos > self.size - pos {
            return Err(RafError::StartOutOfRange);
        }
        self.pos = self.pos + pos;
        Ok(())
    }
}

} // verus!
